use jobcan::error::JobcanError;
use jobcan::html_extractor::{Group, HtmlExtractor};
use jobcan::working_status::WorkingStatus;

#[test]
fn html_extractor_authenticity_token() {
    // Arrange
    let body = r#"""
            <html>
                <head></head>
                <body>
                    <input name="authenticity_token" value="token">
                </body>
            </html>"""#;

    // Act
    let token = HtmlExtractor::authenticity_token(body);

    // Assert
    assert!(token.unwrap() == "token");
}

#[test]
fn html_extractor_working_status_in_working() {
    // Arrange
    let body = r#"""
            <html>
                <head></head>
                <body>
                    <script>
                        var current_status = "working";
                    </script>
                </body>
            </html>"""#;

    // Act
    let status = HtmlExtractor::working_status(body).unwrap();

    // Assert
    assert!(status == WorkingStatus::Working);
}

#[test]
fn html_extractor_working_status_in_not_working() {
    // Arrange
    let body = r#"""
            <html>
                <head></head>
                <body>
                    <script>
                        var current_status = "returned_home";
                    </script>
                </body>
            </html>"""#;

    // Act
    let status = HtmlExtractor::working_status(body).unwrap();

    // Assert
    assert!(status == WorkingStatus::NotWorking);
}

#[test]
fn html_extractor_token() {
    // Arrange
    let body = r#"""
            <html>
                <head></head>
                <body>
                    <input name="token" value="token">
                </body>
            </html>"""#;

    // Act
    let token = HtmlExtractor::token(body);

    // Assert
    assert!(token.unwrap() == "token");
}

#[test]
fn html_extractor_group_with_multiple_options() {
    // Arrange
    let body = r#"""
            <html>
                <head></head>
                <body>
                    <select id="adit_group_id">
                        <option value="1">1</option>
                        <option value="2">2</option>
                    </select>
                </body>
            </html>"""#;
    let expected = vec![
        Group::new("1".to_string(), "1".to_string()),
        Group::new("2".to_string(), "2".to_string()),
    ];

    // Act
    let group_ids = HtmlExtractor::groups(body);

    // Assert
    assert!(group_ids.unwrap() == expected);
}

#[test]
fn html_extractor_group_without_option() {
    // Arrange
    let body = r#"""
            <html>
                <head></head>
                <body>
                    <select id="adit_group_id">
                    </select>
                </body>
            </html>"""#;

    // Act
    let group_ids = HtmlExtractor::groups(body);

    // Assert
    assert!(group_ids.unwrap() == Vec::<Group>::new());
}

#[test]
fn default_group_id_with_expected_text() {
    // Arrange
    let body = r#"""
            <html>
                <head></head>
                <body>
                    <script>
                        var defaultAditGroupId = 1;
                    </script>
                </body>
            </html>"""#;

    // Act
    let status = HtmlExtractor::default_group_id(body).unwrap();

    // Assert
    assert!(status == "1".to_string());
}

#[test]
fn default_group_id_with_unexpected_text() {
    // Arrange
    let body = r#"""
            <html>
                <head></head>
                <body>
                    <script>
                    </script>
                </body>
            </html>"""#;

    // Act
    let status = HtmlExtractor::default_group_id(body);

    // Assert
    assert!(status.is_err());
}

#[test]
fn working_status_in_resting() {
    let body = r#"<script>var current_status = "resting";</script>"#;
    assert!(HtmlExtractor::working_status(body).unwrap() == WorkingStatus::Resting);
}

#[test]
fn working_status_in_having_breakfast() {
    let body = r#"<script>var current_status = "having_breakfast";</script>"#;
    assert!(HtmlExtractor::working_status(body).unwrap() == WorkingStatus::NotWorking);
}

#[test]
fn working_status_with_unknown_token_is_error() {
    let body = r#"<script>var current_status = "on_the_moon";</script>"#;
    let status = HtmlExtractor::working_status(body);
    assert!(matches!(
        status,
        Err(JobcanError::UnexpectedResponseError { ref message }) if message == "Failed to get working status"
    ));
}

#[test]
fn working_status_without_pattern_is_error() {
    let body = "<html><body>nothing here</body></html>";
    let status = HtmlExtractor::working_status(body);
    assert!(matches!(
        status,
        Err(JobcanError::UnexpectedResponseError { ref message }) if message == "Failed to get working status"
    ));
}

#[test]
fn authenticity_token_missing_input_is_error() {
    let body = "<html><body><p>no inputs</p></body></html>";
    let token = HtmlExtractor::authenticity_token(body);
    assert!(matches!(
        token,
        Err(JobcanError::ElementExtractError { ref message })
            if message == "Failed to find `input[name=authenticity_token]`"
    ));
}

#[test]
fn authenticity_token_without_value_is_error() {
    let body = r#"<html><body><input name="authenticity_token"></body></html>"#;
    let token = HtmlExtractor::authenticity_token(body);
    assert!(matches!(
        token,
        Err(JobcanError::ElementExtractError { ref message })
            if message == "Failed to get value of `input[name=authenticity_token]`"
    ));
}

#[test]
fn authenticity_token_takes_first_of_duplicates() {
    let body = r#"<html><body>
        <input name="authenticity_token" value="first">
        <input name="authenticity_token" value="second">
    </body></html>"#;
    assert!(HtmlExtractor::authenticity_token(body).unwrap() == "first");
}

#[test]
fn groups_with_option_missing_value_is_error() {
    let body = r#"<html><body><select id="adit_group_id">
        <option>plain</option>
    </select></body></html>"#;
    let groups = HtmlExtractor::groups(body);
    assert!(matches!(
        groups,
        Err(JobcanError::ElementExtractError { ref message })
            if message == "Failed to get value of group id"
    ));
}

#[test]
fn groups_with_option_missing_text_is_error() {
    let body = r#"<html><body><select id="adit_group_id">
        <option value="1"></option>
    </select></body></html>"#;
    let groups = HtmlExtractor::groups(body);
    assert!(matches!(
        groups,
        Err(JobcanError::ElementExtractError { ref message })
            if message == "Failed to get value of group name"
    ));
}

#[test]
fn default_group_id_keeps_raw_capture() {
    let body = r#"<script>var defaultAditGroupId = 42;</script>"#;
    assert!(HtmlExtractor::default_group_id(body).unwrap() == "42");
}

#[test]
fn default_group_id_with_empty_capture_is_error() {
    let body = r#"<script>var defaultAditGroupId = ;</script>"#;
    let status = HtmlExtractor::default_group_id(body);
    assert!(matches!(
        status,
        Err(JobcanError::ElementExtractError { ref message })
            if message == "Failed to get default id"
    ));
}
