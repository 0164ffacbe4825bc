use jobcan::account::Account;
use jobcan::error::JobcanError;
use jobcan::jobcan::{HttpMethod, Jobcan};
use jobcan::stamp::{Response, Stamp};
use jobcan::working_status::WorkingStatus;

fn logged_in_session() -> Jobcan {
    let account = Account::new("user@example.com".to_string(), "secret".to_string());
    let mut session = Jobcan::new(account);
    session
        .complete_login("/employee")
        .expect("login with the employee landing path must succeed");
    session
}

#[test]
fn login_round_trip_succeeds_on_employee_path() {
    let account = Account::new("user@example.com".to_string(), "secret".to_string());
    let mut session = Jobcan::new(account);

    let page_req = session.login_page_request();
    assert!(matches!(page_req.method, HttpMethod::Get));
    assert_eq!(page_req.url, "https://id.jobcan.jp/users/sign_in");
    assert!(page_req.form.is_empty());

    // Mocked transport: the login page carries an anti-forgery token.
    let login_page = r#"<html><body>
        <input name="authenticity_token" value="tok123">
    </body></html>"#;
    let form_req = session.login_request(login_page).unwrap();
    assert!(matches!(form_req.method, HttpMethod::Post));
    assert_eq!(form_req.url, "https://id.jobcan.jp/users/sign_in");
    let expected_form = vec![
        ("authenticity_token".to_string(), "tok123".to_string()),
        ("user[email]".to_string(), "user@example.com".to_string()),
        ("user[password]".to_string(), "secret".to_string()),
        ("app_key".to_string(), "atd".to_string()),
        ("commit".to_string(), "Login".to_string()),
    ];
    assert_eq!(form_req.form, expected_form);

    // Mocked transport: the login submission lands on the employee path.
    assert!(session.complete_login("/employee").is_ok());
}

#[test]
fn login_fails_with_auth_error_when_login_page_is_rerendered() {
    let account = Account::new("user@example.com".to_string(), "wrong".to_string());
    let mut session = Jobcan::new(account);

    // Mocked transport: the submission lands back on the login page.
    let outcome = session.complete_login("/users/sign_in");
    assert!(matches!(outcome, Err(JobcanError::AuthError)));
}

#[test]
fn login_request_without_token_is_element_extract_error() {
    let account = Account::new("user@example.com".to_string(), "secret".to_string());
    let session = Jobcan::new(account);
    let outcome = session.login_request("<html><body></body></html>");
    assert!(matches!(
        outcome,
        Err(JobcanError::ElementExtractError { ref message })
            if message == "Failed to find `input[name=authenticity_token]`"
    ));
}

#[test]
fn stamp_request_carries_the_wire_contract_fields() {
    let session = logged_in_session();

    let page_req = session.employee_page_request();
    assert!(matches!(page_req.method, HttpMethod::Get));
    assert_eq!(page_req.url, "https://ssl.jobcan.jp/employee");

    let employee_page = r#"<html><body>
        <input name="token" value="stamp-tok">
    </body></html>"#;
    let req = session
        .stamp_request(employee_page, &Stamp::ClockIn, "7", true, "late start")
        .unwrap();
    assert!(matches!(req.method, HttpMethod::Post));
    assert_eq!(req.url, "https://ssl.jobcan.jp/employee/index/adit");
    let expected_form = vec![
        ("is_yakin".to_string(), "1".to_string()),
        ("adit_item".to_string(), "work_start".to_string()),
        ("notice".to_string(), "late start".to_string()),
        ("token".to_string(), "stamp-tok".to_string()),
        ("adit_group_id".to_string(), "7".to_string()),
        ("_".to_string(), "".to_string()),
    ];
    assert_eq!(req.form, expected_form);

    let day_req = session
        .stamp_request(employee_page, &Stamp::EndBreak, "7", false, "")
        .unwrap();
    assert_eq!(day_req.form[0], ("is_yakin".to_string(), "0".to_string()));
    assert_eq!(day_req.form[1], ("adit_item".to_string(), "rest_end".to_string()));
}

#[test]
fn stamp_succeeds_on_expected_json_response() {
    let session = logged_in_session();
    // Mocked transport: content-type application/json with body
    // {"result":1,"state":0,"current_status":"working"} for a clock-in.
    let outcome = session.handle_stamp_response(
        &Stamp::ClockIn,
        Some("application/json"),
        Ok(Response::new(1, 0, "working".to_string())),
    );
    assert!(outcome.is_ok());
}

#[test]
fn stamp_failure_names_expected_and_actual_status() {
    let session = logged_in_session();
    let outcome = session.handle_stamp_response(
        &Stamp::ClockIn,
        Some("application/json"),
        Ok(Response::new(1, 0, "resting".to_string())),
    );
    assert!(matches!(
        outcome,
        Err(JobcanError::UnexpectedResponseError { ref message })
            if message == "Unexpected response found: expected `working`, got `resting`"
    ));
}

#[test]
fn stamp_with_wrong_content_type_is_unexpected_response() {
    let session = logged_in_session();
    let outcome = session.handle_stamp_response(
        &Stamp::ClockIn,
        Some("text/html"),
        Ok(Response::new(1, 0, "working".to_string())),
    );
    assert!(matches!(
        outcome,
        Err(JobcanError::UnexpectedResponseError { ref message })
            if message == "Unexpected content-type found: expected application/json, got `text/html`"
    ));
}

#[test]
fn stamp_with_absent_content_type_is_unexpected_response() {
    let session = logged_in_session();
    let outcome = session.handle_stamp_response(
        &Stamp::ClockIn,
        None,
        Ok(Response::new(1, 0, "working".to_string())),
    );
    assert!(matches!(
        outcome,
        Err(JobcanError::UnexpectedResponseError { ref message })
            if message == "Unexpected content-type found: expected application/json, got none"
    ));
}

#[test]
fn stamp_with_undecodable_body_is_transport_error() {
    let session = logged_in_session();
    let outcome = session.handle_stamp_response(
        &Stamp::ClockIn,
        Some("application/json"),
        Err("error decoding response body".to_string()),
    );
    assert!(matches!(
        outcome,
        Err(JobcanError::ReqwestError { ref message, ref url, ref raw_error })
            if message == "Failed to parse response"
                && url == "https://ssl.jobcan.jp/employee/index/adit"
                && raw_error == "error decoding response body"
    ));
}

#[test]
fn stamp_request_without_token_is_element_extract_error() {
    let session = logged_in_session();
    let outcome = session.stamp_request(
        "<html><body></body></html>",
        &Stamp::ClockOut,
        "7",
        false,
        "",
    );
    assert!(matches!(
        outcome,
        Err(JobcanError::ElementExtractError { ref message })
            if message == "Failed to find `input[name=token]`"
    ));
}

#[test]
fn session_operations_read_the_fetched_employee_page() {
    let session = logged_in_session();
    let employee_page = r#"<html><body>
        <select id="adit_group_id">
            <option value="3">Engineering</option>
        </select>
        <script>
            var current_status = "resting";
            var defaultAditGroupId = 3;
        </script>
    </body></html>"#;

    let status = session.work_status(employee_page).unwrap();
    assert!(status == WorkingStatus::Resting);

    let groups = session.list_groups(employee_page).unwrap();
    assert_eq!(groups.len(), 1);
    assert_eq!(groups[0].id(), "3");
    assert_eq!(groups[0].name(), "Engineering");

    let default_id = session.default_group_id(employee_page).unwrap();
    assert_eq!(default_id, "3");
}

#[test]
fn account_is_kept_by_the_session() {
    let account = Account::new("user@example.com".to_string(), "secret".to_string());
    let session = Jobcan::new(account);
    assert_eq!(session.account().email(), "user@example.com");
    assert_eq!(session.account().password(), "secret");
}
