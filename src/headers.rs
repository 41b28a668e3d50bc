//! Common headers.
use vstd::prelude::*;

verus! {

broadcast use vstd::string::to_string_from_display_ensures_for_str;

/// Whether `h` is the header `Content-Type: application/json; charset=UTF-8`.
pub open spec fn is_json_content_type(h: (String, String)) -> bool {
    &&& h.0@ == "Content-Type"@
    &&& h.1@ == "application/json; charset=UTF-8"@
}

/// The header that declares a UTF-8 JSON body.
pub fn content_type_json_utf8() -> (r: (String, String))
    ensures
        is_json_content_type(r),
{
    ("Content-Type".to_string(), "application/json; charset=UTF-8".to_string())
}

} // verus!
