use vstd::prelude::*;
use vstd::string::StringExecFns;

verus! {

/// What kind of input a model takes.
#[derive(Clone, Copy, Debug, PartialEq, Eq, Structural)]
pub enum ModelType {
    Vision,
    Text,
    Audio,
}

/// A backend model the user can pick, with its display names and daily quota texts.
#[derive(Clone, Debug)]
pub struct ModelConfig {
    pub id: String,
    pub provider: String,
    pub name_vi: String,
    pub name_ko: String,
    pub name_en: String,
    pub full_name: String,
    pub model_type: ModelType,
    pub enabled: bool,
    pub quota_limit_vi: String,
    pub quota_limit_ko: String,
    pub quota_limit_en: String,
}

/// One row of the model table, with strings as character sequences.
pub struct ModelRow {
    pub id: Seq<char>,
    pub provider: Seq<char>,
    pub name_vi: Seq<char>,
    pub name_ko: Seq<char>,
    pub name_en: Seq<char>,
    pub full_name: Seq<char>,
    pub model_type: ModelType,
    pub enabled: bool,
    pub quota_limit_vi: Seq<char>,
    pub quota_limit_ko: Seq<char>,
    pub quota_limit_en: Seq<char>,
}

impl ModelConfig {
    /// The row this configuration holds.
    pub open spec fn row(&self) -> ModelRow {
        ModelRow {
            id: self.id@,
            provider: self.provider@,
            name_vi: self.name_vi@,
            name_ko: self.name_ko@,
            name_en: self.name_en@,
            full_name: self.full_name@,
            model_type: self.model_type,
            enabled: self.enabled,
            quota_limit_vi: self.quota_limit_vi@,
            quota_limit_ko: self.quota_limit_ko@,
            quota_limit_en: self.quota_limit_en@,
        }
    }

    /// A model configuration holding copies of the given texts.
    pub fn new(
        id: &str,
        provider: &str,
        name_vi: &str,
        name_ko: &str,
        name_en: &str,
        full_name: &str,
        model_type: ModelType,
        enabled: bool,
        quota_limit_vi: &str,
        quota_limit_ko: &str,
        quota_limit_en: &str,
    ) -> (r: ModelConfig)
        ensures
            r.row() == (ModelRow {
                id: id@,
                provider: provider@,
                name_vi: name_vi@,
                name_ko: name_ko@,
                name_en: name_en@,
                full_name: full_name@,
                model_type: model_type,
                enabled: enabled,
                quota_limit_vi: quota_limit_vi@,
                quota_limit_ko: quota_limit_ko@,
                quota_limit_en: quota_limit_en@,
            }),
    {
        ModelConfig {
            id: String::from_str(id),
            provider: String::from_str(provider),
            name_vi: String::from_str(name_vi),
            name_ko: String::from_str(name_ko),
            name_en: String::from_str(name_en),
            full_name: String::from_str(full_name),
            model_type: model_type,
            enabled: enabled,
            quota_limit_vi: String::from_str(quota_limit_vi),
            quota_limit_ko: String::from_str(quota_limit_ko),
            quota_limit_en: String::from_str(quota_limit_en),
        }
    }
}

/// Number of models in the table.
pub const MODEL_COUNT: usize = 16;

/// The model table, in the order the settings list shows it.
pub open spec fn model_table() -> Seq<ModelRow> {
    seq![
        ModelRow {
            id: "scout"@,
            provider: "groq"@,
            name_vi: "Nhanh"@,
            name_ko: "빠름"@,
            name_en: "Fast"@,
            full_name: "meta-llama/llama-4-scout-17b-16e-instruct"@,
            model_type: ModelType::Vision,
            enabled: true,
            quota_limit_vi: "1000 lượt/ngày"@,
            quota_limit_ko: "1000 요청/일"@,
            quota_limit_en: "1000 requests/day"@,
        },
        ModelRow {
            id: "maverick"@,
            provider: "groq"@,
            name_vi: "Chính xác"@,
            name_ko: "정확함"@,
            name_en: "Accurate"@,
            full_name: "meta-llama/llama-4-maverick-17b-128e-instruct"@,
            model_type: ModelType::Vision,
            enabled: true,
            quota_limit_vi: "1000 lượt/ngày"@,
            quota_limit_ko: "1000 요청/일"@,
            quota_limit_en: "1000 requests/day"@,
        },
        ModelRow {
            id: "gemini-flash-lite"@,
            provider: "google"@,
            name_vi: "Chính xác hơn"@,
            name_ko: "더 정확함"@,
            name_en: "More Accurate"@,
            full_name: "gemini-flash-lite-latest"@,
            model_type: ModelType::Vision,
            enabled: true,
            quota_limit_vi: "20 lượt/ngày"@,
            quota_limit_ko: "20 요청/일"@,
            quota_limit_en: "20 requests/day"@,
        },
        ModelRow {
            id: "gemini-flash"@,
            provider: "google"@,
            name_vi: "Rất chính xác"@,
            name_ko: "매우 정확함"@,
            name_en: "Very Accurate"@,
            full_name: "gemini-flash-latest"@,
            model_type: ModelType::Vision,
            enabled: true,
            quota_limit_vi: "20 lượt/ngày"@,
            quota_limit_ko: "20 요청/일"@,
            quota_limit_en: "20 requests/day"@,
        },
        ModelRow {
            id: "gemini-pro"@,
            provider: "google"@,
            name_vi: "Siêu chính xác, chậm"@,
            name_ko: "초정밀, 느림"@,
            name_en: "Super Accurate, Slow"@,
            full_name: "gemini-robotics-er-1.5-preview"@,
            model_type: ModelType::Vision,
            enabled: true,
            quota_limit_vi: "250 lượt/ngày"@,
            quota_limit_ko: "250 요청/일"@,
            quota_limit_en: "250 requests/day"@,
        },
        ModelRow {
            id: "fast_text"@,
            provider: "groq"@,
            name_vi: "Cực nhanh"@,
            name_ko: "초고속"@,
            name_en: "Super Fast"@,
            full_name: "openai/gpt-oss-20b"@,
            model_type: ModelType::Text,
            enabled: true,
            quota_limit_vi: "1000 lượt/ngày"@,
            quota_limit_ko: "1000 요청/일"@,
            quota_limit_en: "1000 requests/day"@,
        },
        ModelRow {
            id: "text_fast_120b"@,
            provider: "groq"@,
            name_vi: "Nhanh"@,
            name_ko: "빠름"@,
            name_en: "Fast"@,
            full_name: "openai/gpt-oss-120b"@,
            model_type: ModelType::Text,
            enabled: true,
            quota_limit_vi: "1000 lượt/ngày"@,
            quota_limit_ko: "1000 요청/일"@,
            quota_limit_en: "1000 requests/day"@,
        },
        ModelRow {
            id: "text_accurate_kimi"@,
            provider: "groq"@,
            name_vi: "Chính xác"@,
            name_ko: "정확함"@,
            name_en: "Accurate"@,
            full_name: "moonshotai/kimi-k2-instruct-0905"@,
            model_type: ModelType::Text,
            enabled: true,
            quota_limit_vi: "1000 lượt/ngày"@,
            quota_limit_ko: "1000 요청/일"@,
            quota_limit_en: "1000 requests/day"@,
        },
        ModelRow {
            id: "text_gemini_flash_lite"@,
            provider: "google"@,
            name_vi: "Chính xác hơn"@,
            name_ko: "더 정확함"@,
            name_en: "More Accurate"@,
            full_name: "gemini-flash-lite-latest"@,
            model_type: ModelType::Text,
            enabled: true,
            quota_limit_vi: "20 lượt/ngày"@,
            quota_limit_ko: "20 요청/일"@,
            quota_limit_en: "20 requests/day"@,
        },
        ModelRow {
            id: "text_gemini_flash"@,
            provider: "google"@,
            name_vi: "Rất chính xác"@,
            name_ko: "매우 정확함"@,
            name_en: "Very Accurate"@,
            full_name: "gemini-flash-latest"@,
            model_type: ModelType::Text,
            enabled: true,
            quota_limit_vi: "20 lượt/ngày"@,
            quota_limit_ko: "20 요청/일"@,
            quota_limit_en: "20 requests/day"@,
        },
        ModelRow {
            id: "text_gemini_pro"@,
            provider: "google"@,
            name_vi: "Siêu chính xác, chậm"@,
            name_ko: "초정밀, 느림"@,
            name_en: "Super Accurate, Slow"@,
            full_name: "gemini-robotics-er-1.5-preview"@,
            model_type: ModelType::Text,
            enabled: true,
            quota_limit_vi: "250 lượt/ngày"@,
            quota_limit_ko: "250 요청/일"@,
            quota_limit_en: "250 requests/day"@,
        },
        ModelRow {
            id: "whisper-fast"@,
            provider: "groq"@,
            name_vi: "Nhanh"@,
            name_ko: "빠름"@,
            name_en: "Fast"@,
            full_name: "whisper-large-v3-turbo"@,
            model_type: ModelType::Audio,
            enabled: true,
            quota_limit_vi: "8 giờ audio/ngày"@,
            quota_limit_ko: "8시간 오디오/일"@,
            quota_limit_en: "8 hours audio/day"@,
        },
        ModelRow {
            id: "whisper-accurate"@,
            provider: "groq"@,
            name_vi: "Chính xác"@,
            name_ko: "정확함"@,
            name_en: "Accurate"@,
            full_name: "whisper-large-v3"@,
            model_type: ModelType::Audio,
            enabled: true,
            quota_limit_vi: "8 giờ audio/ngày"@,
            quota_limit_ko: "8시간 오디오/일"@,
            quota_limit_en: "8 hours audio/day"@,
        },
        ModelRow {
            id: "gemini-audio"@,
            provider: "google"@,
            name_vi: "Chính xác hơn"@,
            name_ko: "더 정확함"@,
            name_en: "More Accurate"@,
            full_name: "gemini-flash-lite-latest"@,
            model_type: ModelType::Audio,
            enabled: true,
            quota_limit_vi: "20 lượt/ngày"@,
            quota_limit_ko: "20 요청/일"@,
            quota_limit_en: "20 requests/day"@,
        },
        ModelRow {
            id: "gemini-audio-flash"@,
            provider: "google"@,
            name_vi: "Rất chính xác"@,
            name_ko: "매우 정확함"@,
            name_en: "Very Accurate"@,
            full_name: "gemini-flash-latest"@,
            model_type: ModelType::Audio,
            enabled: true,
            quota_limit_vi: "20 lượt/ngày"@,
            quota_limit_ko: "20 요청/일"@,
            quota_limit_en: "20 requests/day"@,
        },
        ModelRow {
            id: "gemini-audio-pro"@,
            provider: "google"@,
            name_vi: "Siêu chính xác, chậm"@,
            name_ko: "초정밀, 느림"@,
            name_en: "Super Accurate, Slow"@,
            full_name: "gemini-robotics-er-1.5-preview"@,
            model_type: ModelType::Audio,
            enabled: true,
            quota_limit_vi: "250 lượt/ngày"@,
            quota_limit_ko: "250 요청/일"@,
            quota_limit_en: "250 requests/day"@,
        },
    ]
}

/// All models, in table order.
pub fn get_all_models() -> (r: Vec<ModelConfig>)
    ensures
        r@.len() == MODEL_COUNT,
        forall|i: int| 0 <= i < MODEL_COUNT ==> (#[trigger] r@[i]).row() == model_table()[i],
{
    let mut v: Vec<ModelConfig> = Vec::new();
    v.push(ModelConfig::new("scout", "groq", "Nhanh", "빠름", "Fast", "meta-llama/llama-4-scout-17b-16e-instruct", ModelType::Vision, true, "1000 lượt/ngày", "1000 요청/일", "1000 requests/day"));
    v.push(ModelConfig::new("maverick", "groq", "Chính xác", "정확함", "Accurate", "meta-llama/llama-4-maverick-17b-128e-instruct", ModelType::Vision, true, "1000 lượt/ngày", "1000 요청/일", "1000 requests/day"));
    v.push(ModelConfig::new("gemini-flash-lite", "google", "Chính xác hơn", "더 정확함", "More Accurate", "gemini-flash-lite-latest", ModelType::Vision, true, "20 lượt/ngày", "20 요청/일", "20 requests/day"));
    v.push(ModelConfig::new("gemini-flash", "google", "Rất chính xác", "매우 정확함", "Very Accurate", "gemini-flash-latest", ModelType::Vision, true, "20 lượt/ngày", "20 요청/일", "20 requests/day"));
    v.push(ModelConfig::new("gemini-pro", "google", "Siêu chính xác, chậm", "초정밀, 느림", "Super Accurate, Slow", "gemini-robotics-er-1.5-preview", ModelType::Vision, true, "250 lượt/ngày", "250 요청/일", "250 requests/day"));
    v.push(ModelConfig::new("fast_text", "groq", "Cực nhanh", "초고속", "Super Fast", "openai/gpt-oss-20b", ModelType::Text, true, "1000 lượt/ngày", "1000 요청/일", "1000 requests/day"));
    v.push(ModelConfig::new("text_fast_120b", "groq", "Nhanh", "빠름", "Fast", "openai/gpt-oss-120b", ModelType::Text, true, "1000 lượt/ngày", "1000 요청/일", "1000 requests/day"));
    v.push(ModelConfig::new("text_accurate_kimi", "groq", "Chính xác", "정확함", "Accurate", "moonshotai/kimi-k2-instruct-0905", ModelType::Text, true, "1000 lượt/ngày", "1000 요청/일", "1000 requests/day"));
    v.push(ModelConfig::new("text_gemini_flash_lite", "google", "Chính xác hơn", "더 정확함", "More Accurate", "gemini-flash-lite-latest", ModelType::Text, true, "20 lượt/ngày", "20 요청/일", "20 requests/day"));
    v.push(ModelConfig::new("text_gemini_flash", "google", "Rất chính xác", "매우 정확함", "Very Accurate", "gemini-flash-latest", ModelType::Text, true, "20 lượt/ngày", "20 요청/일", "20 requests/day"));
    v.push(ModelConfig::new("text_gemini_pro", "google", "Siêu chính xác, chậm", "초정밀, 느림", "Super Accurate, Slow", "gemini-robotics-er-1.5-preview", ModelType::Text, true, "250 lượt/ngày", "250 요청/일", "250 requests/day"));
    v.push(ModelConfig::new("whisper-fast", "groq", "Nhanh", "빠름", "Fast", "whisper-large-v3-turbo", ModelType::Audio, true, "8 giờ audio/ngày", "8시간 오디오/일", "8 hours audio/day"));
    v.push(ModelConfig::new("whisper-accurate", "groq", "Chính xác", "정확함", "Accurate", "whisper-large-v3", ModelType::Audio, true, "8 giờ audio/ngày", "8시간 오디오/일", "8 hours audio/day"));
    v.push(ModelConfig::new("gemini-audio", "google", "Chính xác hơn", "더 정확함", "More Accurate", "gemini-flash-lite-latest", ModelType::Audio, true, "20 lượt/ngày", "20 요청/일", "20 requests/day"));
    v.push(ModelConfig::new("gemini-audio-flash", "google", "Rất chính xác", "매우 정확함", "Very Accurate", "gemini-flash-latest", ModelType::Audio, true, "20 lượt/ngày", "20 요청/일", "20 requests/day"));
    v.push(ModelConfig::new("gemini-audio-pro", "google", "Siêu chính xác, chậm", "초정밀, 느림", "Super Accurate, Slow", "gemini-robotics-er-1.5-preview", ModelType::Audio, true, "250 lượt/ngày", "250 요청/일", "250 requests/day"));
    proof {
        assert forall|i: int| 0 <= i < MODEL_COUNT implies (#[trigger] v@[i]).row() == model_table()[i] by {
            if i == 0 { assert(v@[0].row() == model_table()[0]); }
            else if i == 1 { assert(v@[1].row() == model_table()[1]); }
            else if i == 2 { assert(v@[2].row() == model_table()[2]); }
            else if i == 3 { assert(v@[3].row() == model_table()[3]); }
            else if i == 4 { assert(v@[4].row() == model_table()[4]); }
            else if i == 5 { assert(v@[5].row() == model_table()[5]); }
            else if i == 6 { assert(v@[6].row() == model_table()[6]); }
            else if i == 7 { assert(v@[7].row() == model_table()[7]); }
            else if i == 8 { assert(v@[8].row() == model_table()[8]); }
            else if i == 9 { assert(v@[9].row() == model_table()[9]); }
            else if i == 10 { assert(v@[10].row() == model_table()[10]); }
            else if i == 11 { assert(v@[11].row() == model_table()[11]); }
            else if i == 12 { assert(v@[12].row() == model_table()[12]); }
            else if i == 13 { assert(v@[13].row() == model_table()[13]); }
            else if i == 14 { assert(v@[14].row() == model_table()[14]); }
            else if i == 15 { assert(v@[15].row() == model_table()[15]); }
        }
    }
    v
}

/// Whether two strings hold the same characters.
pub fn str_eq(a: &str, b: &str) -> (r: bool)
    ensures
        r == (a@ == b@),
{
    let n = a.unicode_len();
    if n != b.unicode_len() {
        return false;
    }
    let mut i: usize = 0;
    while i < n
        invariant
            n == a@.len(),
            n == b@.len(),
            0 <= i <= n,
            a@.subrange(0, i as int) == b@.subrange(0, i as int),
        decreases n - i,
    {
        if a.get_char(i) != b.get_char(i) {
            return false;
        }
        proof {
            assert(a@.subrange(0, i + 1) =~= a@.subrange(0, i as int).push(a@[i as int]));
            assert(b@.subrange(0, i + 1) =~= b@.subrange(0, i as int).push(b@[i as int]));
        }
        i = i + 1;
    }
    proof {
        assert(a@ =~= a@.subrange(0, n as int));
        assert(b@ =~= b@.subrange(0, n as int));
    }
    true
}

/// The configuration of the model whose id is `id`, if the table has one.
pub fn get_model_by_id(id: &str) -> (r: Option<ModelConfig>)
    ensures
        r is None <==> forall|i: int| 0 <= i < MODEL_COUNT ==> (#[trigger] model_table()[i]).id != id@,
        r matches Some(m) ==> m.id@ == id@ && exists|i: int| 0 <= i < MODEL_COUNT
            && #[trigger] model_table()[i] == m.row() && forall|j: int| 0 <= j < i ==> (#[trigger] model_table()[j]).id != id@,
{
    let mut models = get_all_models();
    let mut i: usize = 0;
    while i < models.len()
        invariant
            models@.len() == MODEL_COUNT,
            forall|k: int| 0 <= k < MODEL_COUNT ==> (#[trigger] models@[k]).row() == model_table()[k],
            0 <= i <= MODEL_COUNT,
            forall|j: int| 0 <= j < i ==> (#[trigger] model_table()[j]).id != id@,
        decreases MODEL_COUNT - i,
    {
        if str_eq(models[i].id.as_str(), id) {
            proof {
                assert(model_table()[i as int] == models@[i as int].row());
            }
            return Some(models.remove(i));
        }
        proof {
            assert(models@[i as int].row() == model_table()[i as int]);
        }
        i = i + 1;
    }
    None
}

} // verus!
