use vstd::prelude::*;

use crate::account::Account;
use crate::dom::input_token_outcome;
use crate::error::JobcanError;
use crate::html_extractor::{
    default_group_id_outcome, groups_outcome, working_status_outcome, Group, HtmlExtractor,
};
use crate::scan::str_eq;
use crate::stamp::{expected_status, wire_param, Response, Stamp};
use crate::working_status::WorkingStatus;

verus! {

/// The HTTP method of a request the engine hands to the transport.
#[derive(Debug, PartialEq, Eq, Structural)]
pub enum HttpMethod {
    Get,
    Post,
}

/// One request the engine hands to the transport: a method, a URL and, for a
/// form submission, the form fields in order.
#[derive(Debug)]
pub struct HttpRequest {
    pub method: HttpMethod,
    pub url: String,
    pub form: Vec<(String, String)>,
}

/// The (name, value) view of a form.
pub open spec fn form_view(form: Seq<(String, String)>) -> Seq<(Seq<char>, Seq<char>)> {
    form.map_values(|p: (String, String)| (p.0@, p.1@))
}

/// The login page URL.
pub open spec fn login_url() -> Seq<char> {
    "https://id.jobcan.jp/users/sign_in"@
}

/// The employee landing page URL.
pub open spec fn employee_url() -> Seq<char> {
    "https://ssl.jobcan.jp/employee"@
}

/// The stamp submission URL.
pub open spec fn stamp_url() -> Seq<char> {
    "https://ssl.jobcan.jp/employee/index/adit"@
}

/// The path the login submission lands on when authentication succeeds.
pub open spec fn employee_path() -> Seq<char> {
    "/employee"@
}

/// The session engine for one account: a state machine with the states
/// unauthenticated and authenticated. It decides, from page bodies and
/// response data the transport hands it, which request comes next and whether
/// an operation succeeded; the transport itself (one cookie-bearing HTTP
/// client per account) lives outside and performs the requests. The login
/// steps must complete before any other operation is asked for; the engine
/// never logs in lazily.
pub struct Jobcan {
    account: Account,
    authenticated: bool,
}

impl Jobcan {
    /// The account this session is bound to.
    pub closed spec fn spec_account(&self) -> Account {
        self.account
    }

    /// Whether the login steps have completed successfully.
    pub closed spec fn is_authenticated(&self) -> bool {
        self.authenticated
    }

    pub fn new(account: Account) -> (j: Jobcan)
        ensures
            j.spec_account() == account,
            !j.is_authenticated(),
    {
        Jobcan { account, authenticated: false }
    }

    /// The account this session is bound to.
    pub fn account(&self) -> (r: &Account)
        ensures
            *r == self.spec_account(),
    {
        &self.account
    }

    /// Whether the login steps have completed successfully.
    pub fn authenticated(&self) -> (r: bool)
        ensures
            r == self.is_authenticated(),
    {
        self.authenticated
    }

    /// The request that fetches the login page.
    pub fn login_page_request(&self) -> (r: HttpRequest)
        ensures
            r.method is Get,
            r.url@ == login_url(),
            r.form@.len() == 0,
    {
        HttpRequest {
            method: HttpMethod::Get,
            url: "https://id.jobcan.jp/users/sign_in".to_owned(),
            form: Vec::new(),
        }
    }

    /// The login form submission built from the fetched login page: the
    /// page's anti-forgery token, the account's credentials, and the fixed
    /// `app_key` and `commit` fields, in that order. A page without the token
    /// is an element-extraction error.
    pub fn login_request(&self, login_page_body: &str) -> (r: Result<HttpRequest, JobcanError>)
        ensures
            match r {
                Ok(req) => {
                    &&& crate::dom::input_value_of(login_page_body@, "authenticity_token"@)
                        matches Some(Some(tok))
                    &&& req.method is Post
                    &&& req.url@ == login_url()
                    &&& form_view(req.form@) == seq![
                        ("authenticity_token"@, tok),
                        ("user[email]"@, self.spec_account().spec_email()),
                        ("user[password]"@, self.spec_account().spec_password()),
                        ("app_key"@, "atd"@),
                        ("commit"@, "Login"@),
                    ]
                },
                Err(e) => input_token_outcome(
                    login_page_body@,
                    "authenticity_token"@,
                    "Failed to find `input[name=authenticity_token]`"@,
                    "Failed to get value of `input[name=authenticity_token]`"@,
                    Err(e),
                ),
            },
    {
        let token = match HtmlExtractor::authenticity_token(login_page_body) {
            Ok(t) => t,
            Err(e) => {
                return Err(e);
            },
        };
        let mut form: Vec<(String, String)> = Vec::new();
        form.push(("authenticity_token".to_owned(), token));
        form.push(("user[email]".to_owned(), self.account.email().to_owned()));
        form.push(("user[password]".to_owned(), self.account.password().to_owned()));
        form.push(("app_key".to_owned(), "atd".to_owned()));
        form.push(("commit".to_owned(), "Login".to_owned()));
        proof {
            assert(form_view(form@) =~= seq![
                ("authenticity_token"@, crate::dom::input_value_of(
                    login_page_body@,
                    "authenticity_token"@,
                )->0->0),
                ("user[email]"@, self.spec_account().spec_email()),
                ("user[password]"@, self.spec_account().spec_password()),
                ("app_key"@, "atd"@),
                ("commit"@, "Login"@),
            ]);
        }
        Ok(
            HttpRequest {
                method: HttpMethod::Post,
                url: "https://id.jobcan.jp/users/sign_in".to_owned(),
                form,
            },
        )
    }

    /// Judges the outcome of the login submission from the path its response
    /// landed on. Landing on the employee path means the server accepted the
    /// credentials and the session is authenticated; any other path means the
    /// login page was re-rendered and the login was rejected. The failure
    /// page's content is never inspected.
    pub fn complete_login(&mut self, response_path: &str) -> (r: Result<(), JobcanError>)
        ensures
            final(self).spec_account() == old(self).spec_account(),
            final(self).is_authenticated() == (response_path@ == employee_path()),
            response_path@ == employee_path() ==> r is Ok,
            response_path@ != employee_path() ==> r matches Err(JobcanError::AuthError),
    {
        if str_eq(response_path, "/employee") {
            self.authenticated = true;
            Ok(())
        } else {
            self.authenticated = false;
            Err(JobcanError::AuthError)
        }
    }

    /// The request that fetches the employee landing page, from which tokens,
    /// groups and status are scraped. Login must have completed first.
    pub fn employee_page_request(&self) -> (r: HttpRequest)
        requires
            self.is_authenticated(),
        ensures
            r.method is Get,
            r.url@ == employee_url(),
            r.form@.len() == 0,
    {
        HttpRequest {
            method: HttpMethod::Get,
            url: "https://ssl.jobcan.jp/employee".to_owned(),
            form: Vec::new(),
        }
    }

    /// The stamp form submission built from the fetched employee page: the
    /// night-shift flag, the action's wire parameter, the note, the page's
    /// per-action token, the group id, and the fixed empty `_` field, in that
    /// order. A page without the token is an element-extraction error.
    pub fn stamp_request(
        &self,
        employee_page_body: &str,
        stamp: &Stamp,
        group_id: &str,
        night_shift: bool,
        note: &str,
    ) -> (r: Result<HttpRequest, JobcanError>)
        requires
            self.is_authenticated(),
        ensures
            match r {
                Ok(req) => {
                    &&& crate::dom::input_value_of(employee_page_body@, "token"@) matches Some(
                        Some(tok),
                    )
                    &&& req.method is Post
                    &&& req.url@ == stamp_url()
                    &&& form_view(req.form@) == seq![
                        ("is_yakin"@, if night_shift { "1"@ } else { "0"@ }),
                        ("adit_item"@, wire_param(*stamp)),
                        ("notice"@, note@),
                        ("token"@, tok),
                        ("adit_group_id"@, group_id@),
                        ("_"@, ""@),
                    ]
                },
                Err(e) => input_token_outcome(
                    employee_page_body@,
                    "token"@,
                    "Failed to find `input[name=token]`"@,
                    "Failed to get value of `input[name=token]`"@,
                    Err(e),
                ),
            },
    {
        let token = match HtmlExtractor::token(employee_page_body) {
            Ok(t) => t,
            Err(e) => {
                return Err(e);
            },
        };
        let is_yakin = if night_shift {
            "1"
        } else {
            "0"
        };
        let mut form: Vec<(String, String)> = Vec::new();
        form.push(("is_yakin".to_owned(), is_yakin.to_owned()));
        form.push(("adit_item".to_owned(), stamp.to_request_params()));
        form.push(("notice".to_owned(), note.to_owned()));
        form.push(("token".to_owned(), token));
        form.push(("adit_group_id".to_owned(), group_id.to_owned()));
        form.push(("_".to_owned(), "".to_owned()));
        proof {
            assert(form_view(form@) =~= seq![
                ("is_yakin"@, if night_shift { "1"@ } else { "0"@ }),
                ("adit_item"@, wire_param(*stamp)),
                ("notice"@, note@),
                ("token"@, crate::dom::input_value_of(employee_page_body@, "token"@)->0->0),
                ("adit_group_id"@, group_id@),
                ("_"@, ""@),
            ]);
        }
        Ok(
            HttpRequest {
                method: HttpMethod::Post,
                url: "https://ssl.jobcan.jp/employee/index/adit".to_owned(),
                form,
            },
        )
    }

    /// Judges the server's answer to a stamp submission. The content-type
    /// header must name JSON; the decoded body's `current_status` must equal
    /// the status the action owes. An HTTP-level success alone is never
    /// treated as success: this comparison is the one check that the action
    /// truly took effect. `decoded` is the transport's attempt to decode the
    /// JSON body, with its own fault description on failure.
    pub fn handle_stamp_response(
        &self,
        stamp: &Stamp,
        content_type: Option<&str>,
        decoded: Result<Response, String>,
    ) -> (r: Result<(), JobcanError>)
        ensures
            match content_type {
                None => r matches Err(JobcanError::UnexpectedResponseError { message }) && message@
                    == "Unexpected content-type found: expected application/json, got none"@,
                Some(ct) => {
                    if ct@ != "application/json"@ {
                        r matches Err(JobcanError::UnexpectedResponseError { message }) && message@
                            == "Unexpected content-type found: expected application/json, got `"@
                            + ct@ + "`"@
                    } else {
                        match decoded {
                            Err(cause) => r matches Err(
                                JobcanError::ReqwestError { message, url, raw_error },
                            ) && message@ == "Failed to parse response"@ && url@ == stamp_url()
                                && raw_error@ == cause@,
                            Ok(resp) => {
                                if resp.spec_current_status() == expected_status(*stamp) {
                                    r is Ok
                                } else {
                                    r matches Err(
                                        JobcanError::UnexpectedResponseError { message },
                                    ) && message@ == "Unexpected response found: expected `"@
                                        + expected_status(*stamp) + "`, got `"@
                                        + resp.spec_current_status() + "`"@
                                }
                            },
                        }
                    }
                },
            },
    {
        let ct = match content_type {
            Some(ct) => ct,
            None => {
                return Err(
                    JobcanError::UnexpectedResponseError {
                        message:
                            "Unexpected content-type found: expected application/json, got none".to_owned(),
                    },
                );
            },
        };
        if !str_eq(ct, "application/json") {
            let mut message =
                "Unexpected content-type found: expected application/json, got `".to_owned();
            message.append(ct);
            message.append("`");
            return Err(JobcanError::UnexpectedResponseError { message });
        }
        let resp = match decoded {
            Ok(resp) => resp,
            Err(cause) => {
                return Err(
                    JobcanError::ReqwestError {
                        message: "Failed to parse response".to_owned(),
                        url: "https://ssl.jobcan.jp/employee/index/adit".to_owned(),
                        raw_error: cause,
                    },
                );
            },
        };
        let expected = stamp.expected_response();
        if resp == expected {
            Ok(())
        } else {
            let mut message = "Unexpected response found: expected `".to_owned();
            message.append(expected.current_status());
            message.append("`, got `");
            message.append(resp.current_status());
            message.append("`");
            Err(JobcanError::UnexpectedResponseError { message })
        }
    }

    /// The current working status, read from a fetched employee page body.
    pub fn work_status(&self, employee_page_body: &str) -> (r: Result<WorkingStatus, JobcanError>)
        requires
            self.is_authenticated(),
        ensures
            working_status_outcome(employee_page_body@, r),
    {
        HtmlExtractor::working_status(employee_page_body)
    }

    /// The groups the account may stamp against, read from a fetched employee
    /// page body.
    pub fn list_groups(&self, employee_page_body: &str) -> (r: Result<Vec<Group>, JobcanError>)
        requires
            self.is_authenticated(),
        ensures
            groups_outcome(employee_page_body@, r),
    {
        HtmlExtractor::groups(employee_page_body)
    }

    /// The account's default group id, read from a fetched employee page
    /// body. The value lives in an inline script, so the raw body text is
    /// scanned rather than the parsed document. An absent pattern and an
    /// empty capture are both the same extraction error, so the shell's
    /// group-id fallback can never submit an empty id.
    pub fn default_group_id(&self, employee_page_body: &str) -> (r: Result<String, JobcanError>)
        requires
            self.is_authenticated(),
        ensures
            default_group_id_outcome(employee_page_body@, r),
    {
        HtmlExtractor::default_group_id(employee_page_body)
    }
}

} // verus!
