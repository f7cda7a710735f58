use vstd::prelude::*;
use vstd::string::StringExecFns;
use crate::model_config::{get_model_by_id, model_table, MODEL_COUNT};

verus! {

/// Whether `c` has the Unicode `White_Space` property (the 25 code points that
/// `char::is_whitespace` accepts).
pub open spec fn unicode_whitespace(c: char) -> bool {
    let u = c as u32;
    (0x09 <= u <= 0x0D) || u == 0x20 || u == 0x85 || u == 0xA0 || u == 0x1680 || (0x2000 <= u <= 0x200A)
        || u == 0x2028 || u == 0x2029 || u == 0x202F || u == 0x205F || u == 0x3000
}

/// Whether `c` is white space in the Unicode sense.
pub fn is_whitespace(c: char) -> (r: bool)
    ensures
        r == unicode_whitespace(c),
{
    let u = c as u32;
    (0x09 <= u && u <= 0x0D) || u == 0x20 || u == 0x85 || u == 0xA0 || u == 0x1680 || (0x2000 <= u && u <= 0x200A)
        || u == 0x2028 || u == 0x2029 || u == 0x202F || u == 0x205F || u == 0x3000
}

/// `text` holds nothing but white space.
pub open spec fn blank(text: Seq<char>) -> bool {
    forall|i: int| 0 <= i < text.len() ==> unicode_whitespace(#[trigger] text[i])
}

/// Whether `text` is empty or all white space.
pub fn is_blank(text: &str) -> (r: bool)
    ensures
        r == blank(text@),
{
    let n = text.unicode_len();
    let mut i: usize = 0;
    while i < n
        invariant
            n == text@.len(),
            0 <= i <= n,
            forall|k: int| 0 <= k < i ==> unicode_whitespace(#[trigger] text@[k]),
        decreases n - i,
    {
        if !is_whitespace(text.get_char(i)) {
            return false;
        }
        i = i + 1;
    }
    true
}

/// A companion (re-translation) window is opened only when asked for and when the
/// first result holds some text.
pub fn should_retranslate(requested: bool, text: &str) -> (r: bool)
    ensures
        r == (requested && !blank(text@)),
{
    requested && !is_blank(text)
}

/// The model a companion window uses: id, full model name and provider.
pub struct SecondaryModel {
    pub id: String,
    pub full_name: String,
    pub provider: String,
}

/// The table row whose id is `id`, if any (the first one).
pub open spec fn table_row_for(id: Seq<char>, i: int) -> bool {
    0 <= i < MODEL_COUNT && model_table()[i].id == id
        && forall|j: int| 0 <= j < i ==> (#[trigger] model_table()[j]).id != id
}

/// The model of the table with id `model_id`; a model id the table does not know
/// falls back to the fast text model of the "groq" provider.
pub fn resolve_secondary_model(model_id: &str) -> (r: SecondaryModel)
    ensures
        (forall|i: int| 0 <= i < MODEL_COUNT ==> (#[trigger] model_table()[i]).id != model_id@) ==> {
            &&& r.id@ == "fast_text"@
            &&& r.full_name@ == "openai/gpt-oss-20b"@
            &&& r.provider@ == "groq"@
        },
        (exists|i: int| 0 <= i < MODEL_COUNT && (#[trigger] model_table()[i]).id == model_id@) ==> exists|i: int|
            #[trigger] table_row_for(model_id@, i) && r.id@ == model_table()[i].id
                && r.full_name@ == model_table()[i].full_name && r.provider@ == model_table()[i].provider,
{
    match get_model_by_id(model_id) {
        Some(m) => {
            proof {
                let i = choose|i: int| 0 <= i < MODEL_COUNT && #[trigger] model_table()[i] == m.row()
                    && forall|j: int| 0 <= j < i ==> (#[trigger] model_table()[j]).id != model_id@;
                assert(table_row_for(model_id@, i));
            }
            SecondaryModel { id: m.id, full_name: m.full_name, provider: m.provider }
        },
        None => SecondaryModel {
            id: String::from_str("fast_text"),
            full_name: String::from_str("openai/gpt-oss-20b"),
            provider: String::from_str("groq"),
        },
    }
}

/// The provider of the model with id `model_id`, or "groq" when the table does not know it.
pub fn resolve_provider(model_id: &str) -> (r: String)
    ensures
        (forall|i: int| 0 <= i < MODEL_COUNT ==> (#[trigger] model_table()[i]).id != model_id@) ==> r@ == "groq"@,
        (exists|i: int| 0 <= i < MODEL_COUNT && (#[trigger] model_table()[i]).id == model_id@) ==> exists|i: int|
            #[trigger] table_row_for(model_id@, i) && r@ == model_table()[i].provider,
{
    match get_model_by_id(model_id) {
        Some(m) => {
            proof {
                let i = choose|i: int| 0 <= i < MODEL_COUNT && #[trigger] model_table()[i] == m.row()
                    && forall|j: int| 0 <= j < i ==> (#[trigger] model_table()[j]).id != model_id@;
                assert(table_row_for(model_id@, i));
            }
            m.provider
        },
        None => String::from_str("groq"),
    }
}

} // verus!
