use vstd::prelude::*;

use crate::dom::{first_input_token, input_token_outcome, options_of, selected_options};
use crate::error::JobcanError;
use crate::html_extractor::groups_result;
use crate::scan::occurs_in;
use crate::working_status::WorkingStatus;

verus! {

/// An (id, name) pair describing an organizational unit the account may
/// stamp against, as the older generation of the target site lists it.
#[derive(Debug, PartialEq, Eq)]
pub struct Group {
    id: String,
    name: String,
}

impl Group {
    /// The group's id, as the option element's `value` attribute gives it.
    pub closed spec fn spec_id(&self) -> Seq<char> {
        self.id@
    }

    /// The group's display name, as the option element's text gives it.
    pub closed spec fn spec_name(&self) -> Seq<char> {
        self.name@
    }

    pub fn new(id: String, name: String) -> (g: Group)
        ensures
            g.spec_id() == id@,
            g.spec_name() == name@,
    {
        Group { id, name }
    }

    pub fn id(&self) -> (r: &str)
        ensures
            r@ == self.spec_id(),
    {
        &self.id
    }

    pub fn name(&self) -> (r: &str)
        ensures
            r@ == self.spec_name(),
    {
        &self.name
    }
}

/// The (id, name) view of a built group list.
pub open spec fn group_list_view(gs: Seq<Group>) -> Seq<(Seq<char>, Seq<char>)> {
    gs.map_values(|g: Group| (g.spec_id(), g.spec_name()))
}

/// How this generation's group listing answers on a given document: the
/// (id, name) pairs of the well-known select element's options in document
/// order, or an element-extraction error for the first malformed option.
pub open spec fn group_outcome(body: Seq<char>, r: Result<Vec<Group>, JobcanError>) -> bool {
    match groups_result(options_of(body, "#adit_group_id > option"@)) {
        Ok(gs) => r matches Ok(v) && group_list_view(v@) == gs,
        Err(m) => r matches Err(JobcanError::ElementExtractError { message }) && message@ == m,
    }
}

/// Pure extraction for the older generation of the target site. The working
/// status lives in a localized HTML fragment rather than a script variable,
/// and that encoding has no resting state.
pub struct JobcanHtmlExtractor {}

impl JobcanHtmlExtractor {
    /// The anti-forgery token on the login page: the `value` attribute of the
    /// first `input[name=authenticity_token]` element in document order.
    pub fn authenticity_token(body: &str) -> (r: Result<String, JobcanError>)
        ensures
            input_token_outcome(
                body@,
                "authenticity_token"@,
                "Failed to find authenticity_token"@,
                "Failed to get value of authenticity_token"@,
                r,
            ),
    {
        first_input_token(
            body,
            "authenticity_token",
            "Failed to find authenticity_token",
            "Failed to get value of authenticity_token",
        )
    }

    /// The current working status: this generation renders a fixed localized
    /// "currently working" fragment when and only when the account is at
    /// work, and knows no resting state.
    pub fn working_status(text: &str) -> (r: WorkingStatus)
        ensures
            r == (if occurs_in(text@, "(勤務中)"@) {
                WorkingStatus::Working
            } else {
                WorkingStatus::NotWorking
            }),
    {
        if crate::scan::contains_sub(text, "(勤務中)") {
            WorkingStatus::Working
        } else {
            WorkingStatus::NotWorking
        }
    }

    /// The per-stamp action token on the employee page: the `value` attribute
    /// of the first `input[name=token]` element in document order.
    pub fn token(body: &str) -> (r: Result<String, JobcanError>)
        ensures
            input_token_outcome(
                body@,
                "token"@,
                "Failed to find token"@,
                "Failed to get value of token"@,
                r,
            ),
    {
        first_input_token(body, "token", "Failed to find token", "Failed to get value of token")
    }

    /// The groups the account may stamp against: every option element under
    /// the well-known select element, in document order. An empty select
    /// yields an empty list; an option missing its `value` attribute or its
    /// text is an error.
    pub fn group(body: &str) -> (r: Result<Vec<Group>, JobcanError>)
        ensures
            group_outcome(body@, r),
    {
        let opts = selected_options(body, "#adit_group_id > option");
        let ghost all = options_of(body@, "#adit_group_id > option"@);
        let mut out: Vec<Group> = Vec::new();
        let mut idx: usize = 0;
        proof {
            assert(all.skip(0) =~= all);
        }
        while idx < opts.len()
            invariant
                idx <= opts.len(),
                all == options_of(body@, "#adit_group_id > option"@),
                opts.deep_view() == all,
                opts@.len() == all.len(),
                out@.len() == idx,
                groups_result(all) == (match groups_result(all.skip(idx as int)) {
                    Ok(rest) => Ok::<Seq<(Seq<char>, Seq<char>)>, Seq<char>>(
                        group_list_view(out@) + rest,
                    ),
                    Err(m) => Err::<Seq<(Seq<char>, Seq<char>)>, Seq<char>>(m),
                }),
            decreases opts.len() - idx,
        {
            proof {
                assert(all[idx as int] == opts@[idx as int].deep_view());
                assert(all.skip(idx as int)[0] == all[idx as int]);
                assert(all.skip(idx as int).drop_first() =~= all.skip(idx as int + 1));
            }
            let pair = &opts[idx];
            let id = match &pair.0 {
                Some(id) => id,
                None => {
                    proof {
                        assert(all[idx as int].0 is None);
                        assert(groups_result(all.skip(idx as int)) == Err::<
                            Seq<(Seq<char>, Seq<char>)>,
                            Seq<char>,
                        >("Failed to get value of group id"@));
                    }
                    return Err(
                        JobcanError::ElementExtractError {
                            message: "Failed to get value of group id".to_owned(),
                        },
                    );
                },
            };
            let nm = match &pair.1 {
                Some(nm) => nm,
                None => {
                    proof {
                        assert(all[idx as int].0 is Some);
                        assert(all[idx as int].1 is None);
                        assert(groups_result(all.skip(idx as int)) == Err::<
                            Seq<(Seq<char>, Seq<char>)>,
                            Seq<char>,
                        >("Failed to get value of group name"@));
                    }
                    return Err(
                        JobcanError::ElementExtractError {
                            message: "Failed to get value of group name".to_owned(),
                        },
                    );
                },
            };
            let ghost prev = out@;
            out.push(Group { id: id.clone(), name: nm.clone() });
            proof {
                assert(all[idx as int].0 is Some && all[idx as int].1 is Some);
                assert(group_list_view(out@) =~= group_list_view(prev) + seq![
                    (all[idx as int].0->0, all[idx as int].1->0),
                ]);
                if let Ok(rest) = groups_result(all.skip(idx as int + 1)) {
                    assert(group_list_view(prev) + (seq![
                        (all[idx as int].0->0, all[idx as int].1->0),
                    ] + rest) =~= group_list_view(out@) + rest);
                }
            }
            idx = idx + 1;
        }
        proof {
            assert(all.skip(idx as int) =~= Seq::empty());
        }
        Ok(out)
    }
}

} // verus!
