use vstd::prelude::*;

use crate::codex::parser::opt_view;
use crate::json::{parse_json, json_document, JsonValue};
use crate::text::{starts_with, str_starts_with};

verus! {

pub const OPEN_EXTERNAL_URL_EVENT: &'static str = "waifudex://open-external-url";

/// Only web addresses are opened in the browser.
pub open spec fn supported_url(url: Seq<char>) -> bool {
    starts_with(url, "http://"@) || starts_with(url, "https://"@)
}

pub fn is_supported_external_url(url: &str) -> (r: bool)
    ensures
        r == supported_url(url@),
{
    str_starts_with(url, "http://") || str_starts_with(url, "https://")
}

/// The refusal of an address that is not a web address.
pub fn check_external_url(url: &str) -> (r: Result<(), String>)
    ensures
        r is Ok <==> supported_url(url@),
        r matches Err(message) ==> message@ == "only http and https URLs are supported"@,
{
    if !is_supported_external_url(url) {
        return Err("only http and https URLs are supported".to_owned());
    }
    Ok(())
}

/// The `url` an open-link payload holds, read as serde reads a struct with one `url` text
/// field: the `url` member of an object, or the one element of an array.
pub open spec fn payload_url_text(payload: Seq<char>) -> Option<Seq<char>> {
    match json_document(payload) {
        Some(JsonValue::Array(items)) => if items@.len() == 1 { items@[0].text() } else { None },
        Some(v) => match v.field("url"@) {
            Some(u) => u.text(),
            None => None,
        },
        None => None,
    }
}

/// The address an open-link event carries, when it is a web address.
pub open spec fn payload_url(payload: Seq<char>) -> Option<Seq<char>> {
    match payload_url_text(payload) {
        Some(url) => if supported_url(url) { Some(url) } else { None },
        None => None,
    }
}

pub fn parse_open_external_url_payload(payload: &str) -> (r: Option<String>)
    ensures
        opt_view(r) == payload_url(payload@),
{
    let value = match parse_json(payload) {
        Some(v) => v,
        None => return None,
    };
    let url = match &value {
        JsonValue::Array(items) => {
            if items.len() != 1 {
                return None;
            }
            &items[0]
        },
        _ => match value.get("url") {
            Some(u) => u,
            None => return None,
        },
    };
    let url = match url.as_text() {
        Some(s) => s,
        None => return None,
    };
    if is_supported_external_url(url.as_str()) {
        Some(url.clone())
    } else {
        None
    }
}

} // verus!
