use vstd::prelude::*;

verus! {

/// What the first matching input element holds in the document that `body`
/// parses to: `None` when no input element with the given name exists,
/// `Some(None)` when one exists but has no `value` attribute, and
/// `Some(Some(v))` when the first one, in document order, has value `v`.
pub uninterp spec fn input_value_of(body: Seq<char>, name: Seq<char>) -> Option<
    Option<Seq<char>>,
>;

/// The elements `selector` matches in the document that `body` parses to, in
/// document order, each as its `value` attribute (if any) and its first
/// descendant text node (if any).
pub uninterp spec fn options_of(body: Seq<char>, selector: Seq<char>) -> Seq<
    (Option<Seq<char>>, Option<Seq<char>>),
>;

/// Relies on scraper::Html::parse_document and scraper::Selector matching:
/// the result is the first `input[name=<name>]` element in document order,
/// with its `value` attribute, a function of the document text and the name
/// alone. The names admitted below parse as valid selectors.
#[verifier::external_body]
pub(crate) fn first_input_value(body: &str, name: &str) -> (r: Option<Option<String>>)
    requires
        name@ == "authenticity_token"@ || name@ == "token"@,
    ensures
        r.deep_view() == input_value_of(body@, name@),
{
    let selector = scraper::Selector::parse(&format!("input[name={}]", name)).unwrap();
    let html = scraper::Html::parse_document(body);
    html.select(&selector).next().map(|el| el.attr("value").map(|v| v.to_string()))
}

/// Relies on scraper::Html::parse_document and scraper::Selector matching:
/// the result lists every element the selector matches, in document order,
/// with its `value` attribute and its first descendant text node, a function
/// of the document text and the selector alone. The selector admitted below
/// parses as a valid selector.
#[verifier::external_body]
pub(crate) fn selected_options(body: &str, selector: &str) -> (r: Vec<
    (Option<String>, Option<String>),
>)
    requires
        selector@ == "#adit_group_id > option"@,
    ensures
        r.deep_view() == options_of(body@, selector@),
{
    let sel = scraper::Selector::parse(selector).unwrap();
    let html = scraper::Html::parse_document(body);
    html.select(&sel).map(
        |el| (el.attr("value").map(|v| v.to_string()), el.text().next().map(|t| t.to_string())),
    ).collect()
}

/// How extraction of a named input's value answers on a given document: the
/// value of the first matching input element, or the given message, as an
/// element-extraction error, when the element or its `value` attribute is
/// absent.
pub open spec fn input_token_outcome(
    body: Seq<char>,
    name: Seq<char>,
    missing_msg: Seq<char>,
    no_value_msg: Seq<char>,
    r: Result<String, crate::error::JobcanError>,
) -> bool {
    match input_value_of(body, name) {
        Some(found) => match found {
            Some(v) => r matches Ok(t) && t@ == v,
            None => r matches Err(crate::error::JobcanError::ElementExtractError { message })
                && message@ == no_value_msg,
        },
        None => r matches Err(crate::error::JobcanError::ElementExtractError { message })
            && message@ == missing_msg,
    }
}

/// The value of the first input element with the given name, or the given
/// error message when the element or its `value` attribute is absent.
pub(crate) fn first_input_token(body: &str, name: &str, missing_msg: &str, no_value_msg: &str) -> (r:
    Result<String, crate::error::JobcanError>)
    requires
        name@ == "authenticity_token"@ || name@ == "token"@,
    ensures
        input_token_outcome(body@, name@, missing_msg@, no_value_msg@, r),
{
    match first_input_value(body, name) {
        Some(found) => match found {
            Some(v) => Ok(v),
            None => Err(
                crate::error::JobcanError::ElementExtractError { message: no_value_msg.to_owned() },
            ),
        },
        None => Err(
            crate::error::JobcanError::ElementExtractError { message: missing_msg.to_owned() },
        ),
    }
}

} // verus!
