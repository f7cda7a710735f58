use vstd::prelude::*;
use vstd::string::StringExecFns;
use crate::model_config::str_eq;

verus! {

/// Message shown in a result window for a backend error code `error`, in the
/// interface language `lang` ("vi" for Vietnamese, anything else for English).
pub open spec fn error_message_spec(error: Seq<char>, lang: Seq<char>) -> Seq<char> {
    if error == "NO_API_KEY"@ {
        if lang == "vi"@ { "Bạn chưa nhập API key!"@ } else { "You haven't entered an API key!"@ }
    } else if error == "INVALID_API_KEY"@ {
        if lang == "vi"@ { "API key không hợp lệ!"@ } else { "Invalid API key!"@ }
    } else if lang == "vi"@ {
        "Lỗi: "@ + error
    } else {
        "Error: "@ + error
    }
}

/// The human-readable text a window shows for a failed backend call.
pub fn get_error_message(error: &str, lang: &str) -> (r: String)
    ensures
        r@ == error_message_spec(error@, lang@),
{
    let vi = str_eq(lang, "vi");
    if str_eq(error, "NO_API_KEY") {
        if vi { String::from_str("Bạn chưa nhập API key!") } else { String::from_str("You haven't entered an API key!") }
    } else if str_eq(error, "INVALID_API_KEY") {
        if vi { String::from_str("API key không hợp lệ!") } else { String::from_str("Invalid API key!") }
    } else if vi {
        String::from_str("Lỗi: ").concat(error)
    } else {
        String::from_str("Error: ").concat(error)
    }
}

} // verus!
