use vstd::prelude::*;

use crate::dom::{first_input_token, input_token_outcome, options_of, selected_options};
use crate::error::JobcanError;
use crate::scan::{capture_between, lazy_capture};
use crate::working_status::WorkingStatus;

verus! {

/// An (id, name) pair describing an organizational unit the account may
/// stamp against.
#[derive(Debug, PartialEq, Eq)]
pub struct Group {
    id: String,
    name: String,
}

impl Group {
    /// The group's id, as the option element's `value` attribute gives it.
    pub closed spec fn spec_id(&self) -> Seq<char> {
        self.id@
    }

    /// The group's display name, as the option element's text gives it.
    pub closed spec fn spec_name(&self) -> Seq<char> {
        self.name@
    }

    pub fn new(id: String, name: String) -> (g: Group)
        ensures
            g.spec_id() == id@,
            g.spec_name() == name@,
    {
        Group { id, name }
    }

    pub fn id(&self) -> (r: &str)
        ensures
            r@ == self.spec_id(),
    {
        &self.id
    }

    pub fn name(&self) -> (r: &str)
        ensures
            r@ == self.spec_name(),
    {
        &self.name
    }
}

/// The status a captured `current_status` token denotes, if any. The server
/// reports `returned_home` and `having_breakfast` for accounts that are not
/// at work; any token outside the fixed table denotes nothing.
pub open spec fn status_of_token(tok: Seq<char>) -> Option<WorkingStatus> {
    if tok == "returned_home"@ || tok == "having_breakfast"@ {
        Some(WorkingStatus::NotWorking)
    } else if tok == "working"@ {
        Some(WorkingStatus::Working)
    } else if tok == "resting"@ {
        Some(WorkingStatus::Resting)
    } else {
        None
    }
}

/// What a list of option elements yields: the (id, name) pairs in document
/// order when every option has both a `value` attribute and a text node, or
/// the message reported for the first option missing one of them.
pub open spec fn groups_result(opts: Seq<(Option<Seq<char>>, Option<Seq<char>>)>) -> Result<
    Seq<(Seq<char>, Seq<char>)>,
    Seq<char>,
>
    decreases opts.len(),
{
    if opts.len() == 0 {
        Ok(Seq::empty())
    } else if opts[0].0 is None {
        Err("Failed to get value of group id"@)
    } else if opts[0].1 is None {
        Err("Failed to get value of group name"@)
    } else {
        match groups_result(opts.drop_first()) {
            Ok(rest) => Ok(seq![(opts[0].0->0, opts[0].1->0)] + rest),
            Err(m) => Err(m),
        }
    }
}

/// The (id, name) view of a built group list.
pub open spec fn groups_view(gs: Seq<Group>) -> Seq<(Seq<char>, Seq<char>)> {
    gs.map_values(|g: Group| (g.spec_id(), g.spec_name()))
}

/// How the working-status read answers on a given page text: the token of the
/// inline script variable `var current_status = "<token>";` mapped through
/// the fixed table, or an unexpected-response error when the pattern is
/// absent or the token is outside the table.
pub open spec fn working_status_outcome(
    text: Seq<char>,
    r: Result<WorkingStatus, JobcanError>,
) -> bool {
    match lazy_capture(text, "var current_status = \""@, "\";"@) {
        Some(tok) => match status_of_token(tok) {
            Some(s) => r matches Ok(v) && v == s,
            None => r matches Err(JobcanError::UnexpectedResponseError { message }) && message@
                == "Failed to get working status"@,
        },
        None => r matches Err(JobcanError::UnexpectedResponseError { message }) && message@
            == "Failed to get working status"@,
    }
}

/// How the group listing answers on a given document: the (id, name) pairs of
/// the well-known select element's options in document order, or an
/// element-extraction error for the first option missing its value or text.
pub open spec fn groups_outcome(body: Seq<char>, r: Result<Vec<Group>, JobcanError>) -> bool {
    match groups_result(options_of(body, "#adit_group_id > option"@)) {
        Ok(gs) => r matches Ok(v) && groups_view(v@) == gs,
        Err(m) => r matches Err(JobcanError::ElementExtractError { message }) && message@ == m,
    }
}

/// How the default-group-id read answers on a given page text: the value of
/// the inline script variable `var defaultAditGroupId = <id>;`. An absent
/// pattern and a pattern whose capture is empty are both reported as the same
/// element-extraction error: an empty id is never handed back, since the
/// shell would otherwise submit it with a stamp.
pub open spec fn default_group_id_outcome(text: Seq<char>, r: Result<String, JobcanError>) -> bool {
    match lazy_capture(text, "var defaultAditGroupId = "@, ";"@) {
        Some(id) => {
            if id.len() > 0 {
                r matches Ok(s) && s@ == id
            } else {
                r matches Err(JobcanError::ElementExtractError { message }) && message@
                    == "Failed to get default id"@
            }
        },
        None => r matches Err(JobcanError::ElementExtractError { message }) && message@
            == "Failed to get default id"@,
    }
}

/// Pure extraction over an already-fetched document or page text: no
/// network, no session knowledge, and a typed error for every failure.
pub struct HtmlExtractor {}

impl HtmlExtractor {
    /// The anti-forgery token on the login page: the `value` attribute of the
    /// first `input[name=authenticity_token]` element in document order.
    pub fn authenticity_token(body: &str) -> (r: Result<String, JobcanError>)
        ensures
            input_token_outcome(
                body@,
                "authenticity_token"@,
                "Failed to find `input[name=authenticity_token]`"@,
                "Failed to get value of `input[name=authenticity_token]`"@,
                r,
            ),
    {
        first_input_token(
            body,
            "authenticity_token",
            "Failed to find `input[name=authenticity_token]`",
            "Failed to get value of `input[name=authenticity_token]`",
        )
    }

    /// The per-stamp action token on the employee page: the `value` attribute
    /// of the first `input[name=token]` element in document order.
    pub fn token(body: &str) -> (r: Result<String, JobcanError>)
        ensures
            input_token_outcome(
                body@,
                "token"@,
                "Failed to find `input[name=token]`"@,
                "Failed to get value of `input[name=token]`"@,
                r,
            ),
    {
        first_input_token(
            body,
            "token",
            "Failed to find `input[name=token]`",
            "Failed to get value of `input[name=token]`",
        )
    }

    /// The current working status, read from the inline script variable
    /// `var current_status = "<token>";` through a fixed lookup table. A page
    /// without the pattern, or with a token outside the table, is an error.
    pub fn working_status(text: &str) -> (r: Result<WorkingStatus, JobcanError>)
        ensures
            working_status_outcome(text@, r),
    {
        proof {
            reveal_strlit("var current_status = \"");
        }
        match capture_between(text, "var current_status = \"", "\";") {
            Some(tok) => {
                if tok == "returned_home".to_owned() || tok == "having_breakfast".to_owned() {
                    Ok(WorkingStatus::NotWorking)
                } else if tok == "working".to_owned() {
                    Ok(WorkingStatus::Working)
                } else if tok == "resting".to_owned() {
                    Ok(WorkingStatus::Resting)
                } else {
                    Err(
                        JobcanError::UnexpectedResponseError {
                            message: "Failed to get working status".to_owned(),
                        },
                    )
                }
            },
            None => Err(
                JobcanError::UnexpectedResponseError {
                    message: "Failed to get working status".to_owned(),
                },
            ),
        }
    }

    /// The groups the account may stamp against: every option element under
    /// the well-known select element, in document order. An empty select
    /// yields an empty list; an option missing its `value` attribute or its
    /// text is an error.
    pub fn groups(body: &str) -> (r: Result<Vec<Group>, JobcanError>)
        ensures
            groups_outcome(body@, r),
    {
        let opts = selected_options(body, "#adit_group_id > option");
        let ghost all = options_of(body@, "#adit_group_id > option"@);
        let mut out: Vec<Group> = Vec::new();
        let mut idx: usize = 0;
        proof {
            assert(all.skip(0) =~= all);
        }
        while idx < opts.len()
            invariant
                idx <= opts.len(),
                all == options_of(body@, "#adit_group_id > option"@),
                opts.deep_view() == all,
                opts@.len() == all.len(),
                out@.len() == idx,
                groups_result(all) == (match groups_result(all.skip(idx as int)) {
                    Ok(rest) => Ok::<Seq<(Seq<char>, Seq<char>)>, Seq<char>>(
                        groups_view(out@) + rest,
                    ),
                    Err(m) => Err::<Seq<(Seq<char>, Seq<char>)>, Seq<char>>(m),
                }),
            decreases opts.len() - idx,
        {
            proof {
                assert(all[idx as int] == opts@[idx as int].deep_view());
                assert(all.skip(idx as int)[0] == all[idx as int]);
                assert(all.skip(idx as int).drop_first() =~= all.skip(idx as int + 1));
            }
            let pair = &opts[idx];
            let id = match &pair.0 {
                Some(id) => id,
                None => {
                    proof {
                        assert(all[idx as int].0 is None);
                        assert(groups_result(all.skip(idx as int)) == Err::<
                            Seq<(Seq<char>, Seq<char>)>,
                            Seq<char>,
                        >("Failed to get value of group id"@));
                    }
                    return Err(
                        JobcanError::ElementExtractError {
                            message: "Failed to get value of group id".to_owned(),
                        },
                    );
                },
            };
            let nm = match &pair.1 {
                Some(nm) => nm,
                None => {
                    proof {
                        assert(all[idx as int].0 is Some);
                        assert(all[idx as int].1 is None);
                        assert(groups_result(all.skip(idx as int)) == Err::<
                            Seq<(Seq<char>, Seq<char>)>,
                            Seq<char>,
                        >("Failed to get value of group name"@));
                    }
                    return Err(
                        JobcanError::ElementExtractError {
                            message: "Failed to get value of group name".to_owned(),
                        },
                    );
                },
            };
            let ghost prev = out@;
            out.push(Group { id: id.clone(), name: nm.clone() });
            proof {
                assert(all[idx as int].0 is Some && all[idx as int].1 is Some);
                assert(groups_view(out@) =~= groups_view(prev) + seq![
                    (all[idx as int].0->0, all[idx as int].1->0),
                ]);
                if let Ok(rest) = groups_result(all.skip(idx as int + 1)) {
                    assert(groups_view(prev) + (seq![
                        (all[idx as int].0->0, all[idx as int].1->0),
                    ] + rest) =~= groups_view(out@) + rest);
                }
            }
            idx = idx + 1;
        }
        proof {
            assert(all.skip(idx as int) =~= Seq::empty());
        }
        Ok(out)
    }

    /// The account's default group id, read from the inline script variable
    /// `var defaultAditGroupId = <id>;`. A page without the pattern, and a
    /// page where the pattern captures nothing, are both the same error: an
    /// empty id is never returned.
    pub fn default_group_id(text: &str) -> (r: Result<String, JobcanError>)
        ensures
            default_group_id_outcome(text@, r),
    {
        proof {
            reveal_strlit("var defaultAditGroupId = ");
        }
        match capture_between(text, "var defaultAditGroupId = ", ";") {
            Some(id) => {
                if id.as_str().is_empty() {
                    Err(
                        JobcanError::ElementExtractError {
                            message: "Failed to get default id".to_owned(),
                        },
                    )
                } else {
                    Ok(id)
                }
            },
            None => Err(
                JobcanError::ElementExtractError { message: "Failed to get default id".to_owned() },
            ),
        }
    }
}

} // verus!
