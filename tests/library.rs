use overlay_core::config::{
    default_audio_source, default_history_limit, default_preset_type, default_prompt_mode, default_theme_mode, ThemeMode,
};
use overlay_core::languages::{get_all_languages, str_less};
use overlay_core::model_config::{get_all_models, get_model_by_id, str_eq, ModelConfig, ModelType};
use overlay_core::pixels::{render_gradient, rgba_to_bgra};

#[test]
fn model_lookup_by_id() {
    let models = get_all_models();
    assert_eq!(models.len(), 16);
    assert_eq!(models[0].id, "scout");
    let m = get_model_by_id("text_accurate_kimi").unwrap();
    assert_eq!(m.provider, "groq");
    assert_eq!(m.full_name, "moonshotai/kimi-k2-instruct-0905");
    assert_eq!(m.model_type, ModelType::Text);
    assert_eq!(m.quota_limit_en, "1000 requests/day");
    assert!(get_model_by_id("no-such-model").is_none());
    assert!(get_model_by_id("").is_none());
}

#[test]
fn model_config_new_copies_fields() {
    let m = ModelConfig::new("a", "b", "c", "d", "e", "f", ModelType::Audio, false, "g", "h", "i");
    assert_eq!(m.id, "a");
    assert_eq!(m.name_en, "e");
    assert_eq!(m.quota_limit_en, "i");
    assert!(!m.enabled);
}

#[test]
fn languages_sorted_and_unique() {
    let langs = get_all_languages();
    assert!(langs.len() > 1000);
    for w in langs.windows(2) {
        assert!(w[0] < w[1]);
    }
    assert!(langs.iter().any(|l| l == "English"));
    assert!(langs.iter().any(|l| l == "Spanish"));
    assert_eq!(langs.iter().filter(|l| l.as_str() == "Swahili").count(), 1);
}

#[test]
fn string_order_and_equality() {
    assert!(str_less("Abc", "Abd"));
    assert!(str_less("Ab", "Abc"));
    assert!(!str_less("Abc", "Abc"));
    assert!(str_less("Z", "a"));
    assert!(str_eq("xyz", "xyz"));
    assert!(!str_eq("xyz", "xy"));
}

#[test]
fn rgba_to_bgra_swaps_red_and_blue() {
    assert_eq!(rgba_to_bgra(&[1, 2, 3, 4, 5, 6, 7, 8, 9, 10]), vec![3, 2, 1, 4, 7, 6, 5, 8, 9, 10]);
    assert_eq!(rgba_to_bgra(&[]), Vec::<u8>::new());
}

#[test]
fn gradient_darkens_to_sixty_percent() {
    let px = render_gradient(0x00646464, 2, 10);
    assert_eq!(px.len(), 20);
    assert_eq!(px[0], 0xFF646464);
    assert_eq!(px[1], 0xFF646464);
    // Row 5 of 10: halfway between 100 and 60.
    assert_eq!(px[10], 0xFF505050);
    assert_eq!(px[18], (0xFF000000u32) | (64 << 16) | (64 << 8) | 64);
}

#[test]
fn configuration_defaults() {
    assert_eq!(default_preset_type(), "image");
    assert_eq!(default_audio_source(), "mic");
    assert_eq!(default_prompt_mode(), "fixed");
    assert_eq!(default_theme_mode(), ThemeMode::System);
    assert_eq!(default_history_limit(), 100);
}

use overlay_core::config::{check_hotkey_conflict, Config, Hotkey, Preset};
use overlay_core::history::{HistoryItem, HistoryList, HistoryType};
use overlay_core::messages::get_error_message;
use std::collections::HashMap;

#[test]
fn error_messages_by_language() {
    assert_eq!(get_error_message("NO_API_KEY", "vi"), "Bạn chưa nhập API key!");
    assert_eq!(get_error_message("NO_API_KEY", "en"), "You haven't entered an API key!");
    assert_eq!(get_error_message("INVALID_API_KEY", "ko"), "Invalid API key!");
    assert_eq!(get_error_message("INVALID_API_KEY", "vi"), "API key không hợp lệ!");
    assert_eq!(get_error_message("HTTP 500", "vi"), "Lỗi: HTTP 500");
    assert_eq!(get_error_message("HTTP 500", "en"), "Error: HTTP 500");
}

fn preset(name: &str, hotkeys: Vec<Hotkey>) -> Preset {
    Preset {
        id: name.to_string(),
        name: name.to_string(),
        prompt: String::new(),
        prompt_mode: "fixed".to_string(),
        selected_language: "English".to_string(),
        language_vars: HashMap::new(),
        model: "scout".to_string(),
        streaming_enabled: false,
        auto_copy: false,
        hotkeys,
        retranslate: false,
        retranslate_to: String::new(),
        retranslate_model: String::new(),
        retranslate_streaming_enabled: false,
        retranslate_auto_copy: false,
        hide_overlay: false,
        preset_type: "image".to_string(),
        audio_source: "mic".to_string(),
        hide_recording_ui: false,
        video_capture_method: "region".to_string(),
        is_upcoming: false,
    }
}

fn hotkey(code: u32, name: &str, modifiers: u32) -> Hotkey {
    Hotkey { code, name: name.to_string(), modifiers }
}

#[test]
fn hotkey_conflicts_name_the_first_clash() {
    let config = Config {
        api_key: String::new(),
        gemini_api_key: String::new(),
        presets: vec![
            preset("Translate", vec![hotkey(0x54, "Ctrl+T", 2)]),
            preset("OCR", vec![hotkey(0x4F, "Alt+O", 1), hotkey(0x54, "Ctrl+T", 2)]),
        ],
        active_preset_idx: 0,
        theme_mode: ThemeMode::System,
        ui_language: "en".to_string(),
        max_history_items: 100,
        start_in_tray: false,
        run_as_admin_on_startup: false,
    };
    assert_eq!(
        check_hotkey_conflict(&config, 0x54, 2, 1),
        Some("Conflict with 'Ctrl+T' in preset 'Translate'".to_string())
    );
    assert_eq!(
        check_hotkey_conflict(&config, 0x54, 2, 0),
        Some("Conflict with 'Ctrl+T' in preset 'OCR'".to_string())
    );
    assert_eq!(check_hotkey_conflict(&config, 0x4F, 1, 1), None);
    assert_eq!(check_hotkey_conflict(&config, 0x54, 1, 1), None);
}

fn item(id: i64, path: &str) -> HistoryItem {
    HistoryItem {
        id,
        timestamp: "2024-01-01 00:00:00".to_string(),
        item_type: HistoryType::Image,
        text: format!("text {}", id),
        media_path: path.to_string(),
    }
}

#[test]
fn history_keeps_newest_within_limit() {
    let mut h = HistoryList::new(2);
    assert!(h.add_item(item(1, "a.png")).is_empty());
    assert!(h.add_item(item(2, "b.png")).is_empty());
    assert_eq!(h.add_item(item(3, "c.png")), vec!["a.png".to_string()]);
    let ids: Vec<i64> = h.items.iter().map(|i| i.id).collect();
    assert_eq!(ids, vec![3, 2]);
    assert_eq!(h.delete(2), Some("b.png".to_string()));
    assert_eq!(h.delete(2), None);
    assert_eq!(h.items.len(), 1);
    h.add_item(item(4, "d.png"));
    assert_eq!(h.request_prune(0), vec!["c.png".to_string(), "d.png".to_string()]);
    assert!(h.items.is_empty());
    h.request_prune(5);
    h.add_item(item(5, "e.png"));
    h.clear_all();
    assert!(h.items.is_empty());
}

use overlay_core::pipeline::{is_blank, resolve_provider, resolve_secondary_model, should_retranslate};

#[test]
fn retranslation_needs_text() {
    assert!(is_blank(""));
    assert!(is_blank(" \t\n\u{3000}"));
    assert!(!is_blank("  x "));
    assert!(should_retranslate(true, "hello"));
    assert!(!should_retranslate(true, "   "));
    assert!(!should_retranslate(false, "hello"));
}

#[test]
fn secondary_model_resolution_with_fallback() {
    let m = resolve_secondary_model("text_gemini_flash");
    assert_eq!((m.id.as_str(), m.full_name.as_str(), m.provider.as_str()), ("text_gemini_flash", "gemini-flash-latest", "google"));
    let m = resolve_secondary_model("unknown");
    assert_eq!((m.id.as_str(), m.full_name.as_str(), m.provider.as_str()), ("fast_text", "openai/gpt-oss-20b", "groq"));
    assert_eq!(resolve_provider("gemini-audio"), "google");
    assert_eq!(resolve_provider("nothing"), "groq");
}

use overlay_core::prompt::{build_prompt, replace_all_str, uses_json_format};

#[test]
fn prompt_placeholders_are_filled() {
    let vars = vec![("language1".to_string(), "Vietnamese".to_string()), ("tone".to_string(), "formal".to_string())];
    assert_eq!(
        build_prompt("Translate to {language1} in a {tone} tone; answer in {language}.", &vars, "English"),
        "Translate to Vietnamese in a formal tone; answer in English."
    );
    assert_eq!(build_prompt("No variables here.", &Vec::new(), "Korean"), "No variables here.");
    assert_eq!(replace_all_str("aaaa", "aa", "b"), "bb");
    assert_eq!(replace_all_str("abcabc", "bc", ""), "aa");
    assert_eq!(replace_all_str("ab", "abc", "x"), "ab");
    assert!(uses_json_format("preset_translate"));
    assert!(!uses_json_format("preset_ocr"));
}

#[test]
fn history_reports_pruned_media() {
    let mut h = HistoryList::new(1);
    h.add_item(item(1, "one.png"));
    assert_eq!(h.add_item(item(2, "two.png")), vec!["one.png".to_string()]);
}
