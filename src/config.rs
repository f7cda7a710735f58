use vstd::prelude::*;
use vstd::string::StringExecFns;
use std::collections::HashMap;

verus! {

/// Colour scheme of the settings window.
#[derive(Clone, Copy, Debug, PartialEq, Eq, Structural)]
pub enum ThemeMode {
    System,
    Dark,
    Light,
}

/// A global hotkey: virtual-key code, display name and modifier mask.
#[derive(Clone, Debug)]
pub struct Hotkey {
    pub code: u32,
    pub name: String,
    pub modifiers: u32,
}

/// A capture preset: what to send, to which model, and how to show the result.
#[derive(Clone, Debug)]
pub struct Preset {
    pub id: String,
    pub name: String,
    pub prompt: String,
    /// "fixed" or "dynamic".
    pub prompt_mode: String,
    pub selected_language: String,
    pub language_vars: HashMap<String, String>,
    pub model: String,
    pub streaming_enabled: bool,
    pub auto_copy: bool,
    pub hotkeys: Vec<Hotkey>,
    pub retranslate: bool,
    pub retranslate_to: String,
    pub retranslate_model: String,
    pub retranslate_streaming_enabled: bool,
    pub retranslate_auto_copy: bool,
    pub hide_overlay: bool,
    /// "image", "audio" or "video".
    pub preset_type: String,
    /// "mic" or "device".
    pub audio_source: String,
    pub hide_recording_ui: bool,
    /// "region" or "monitor:<device name>".
    pub video_capture_method: String,
    pub is_upcoming: bool,
}

/// The persisted application settings.
#[derive(Clone, Debug)]
pub struct Config {
    pub api_key: String,
    pub gemini_api_key: String,
    pub presets: Vec<Preset>,
    pub active_preset_idx: usize,
    pub theme_mode: ThemeMode,
    pub ui_language: String,
    pub max_history_items: usize,
    pub start_in_tray: bool,
    pub run_as_admin_on_startup: bool,
}

/// Preset type of a stored preset that names none.
pub fn default_preset_type() -> (r: String)
    ensures
        r@ == "image"@,
{
    String::from_str("image")
}

/// Audio source of a stored preset that names none.
pub fn default_audio_source() -> (r: String)
    ensures
        r@ == "mic"@,
{
    String::from_str("mic")
}

/// Prompt mode of a stored preset that names none.
pub fn default_prompt_mode() -> (r: String)
    ensures
        r@ == "fixed"@,
{
    String::from_str("fixed")
}

/// Theme of a stored configuration that names none.
pub fn default_theme_mode() -> (r: ThemeMode)
    ensures
        r == ThemeMode::System,
{
    ThemeMode::System
}

/// History size of a stored configuration that names none.
pub fn default_history_limit() -> (r: usize)
    ensures
        r == 100,
{
    100
}

/// `h` is bound to the key `vk` with the modifier mask `mods`.
pub open spec fn hotkey_matches(h: Hotkey, vk: u32, mods: u32) -> bool {
    h.code == vk && h.modifiers == mods
}

/// Some preset other than the one at `current` binds `vk` with `mods`.
pub open spec fn has_conflict(presets: Seq<Preset>, vk: u32, mods: u32, current: int) -> bool {
    exists|p: int, k: int| 0 <= p < presets.len() && p != current && 0 <= k < presets[p].hotkeys@.len()
        && #[trigger] hotkey_matches(presets[p].hotkeys@[k], vk, mods)
}

/// No preset before `p` (other than `current`) and no hotkey of preset `p` before `k` matches.
pub open spec fn no_conflict_before(presets: Seq<Preset>, vk: u32, mods: u32, current: int, p: int, k: int) -> bool {
    &&& forall|q: int, j: int| 0 <= q < p && q != current && 0 <= j < presets[q].hotkeys@.len()
        ==> !#[trigger] hotkey_matches(presets[q].hotkeys@[j], vk, mods)
    &&& forall|j: int| 0 <= j < k ==> !#[trigger] hotkey_matches(presets[p].hotkeys@[j], vk, mods)
}

/// The message naming the hotkey `h` of preset `p` that is already taken.
pub open spec fn conflict_message(h: Hotkey, p: Preset) -> Seq<char> {
    "Conflict with '"@ + h.name@ + "' in preset '"@ + p.name@ + "'"@
}

/// Looks for a preset other than the one at `current_preset_idx` that already binds
/// the key `vk` with modifiers `mods`; names the first such hotkey, in preset order.
pub fn check_hotkey_conflict(config: &Config, vk: u32, mods: u32, current_preset_idx: usize) -> (r: Option<String>)
    ensures
        r is None <==> !has_conflict(config.presets@, vk, mods, current_preset_idx as int),
        r matches Some(m) ==> exists|p: int, k: int| 0 <= p < config.presets@.len() && p != current_preset_idx
            && 0 <= k < config.presets@[p].hotkeys@.len()
            && hotkey_matches(config.presets@[p].hotkeys@[k], vk, mods)
            && no_conflict_before(config.presets@, vk, mods, current_preset_idx as int, p, k)
            && m@ == #[trigger] conflict_message(config.presets@[p].hotkeys@[k], config.presets@[p]),
{
    let ghost ps = config.presets@;
    let ghost cur = current_preset_idx as int;
    let mut idx: usize = 0;
    while idx < config.presets.len()
        invariant
            ps == config.presets@,
            cur == current_preset_idx as int,
            0 <= idx <= ps.len(),
            no_conflict_before(ps, vk, mods, cur, idx as int, 0),
        decreases ps.len() - idx,
    {
        if idx != current_preset_idx {
            let preset = &config.presets[idx];
            let mut k: usize = 0;
            while k < preset.hotkeys.len()
                invariant
                    ps == config.presets@,
                    cur == current_preset_idx as int,
                    0 <= idx < ps.len(),
                    idx != cur,
                    *preset == ps[idx as int],
                    0 <= k <= preset.hotkeys@.len(),
                    no_conflict_before(ps, vk, mods, cur, idx as int, k as int),
                decreases preset.hotkeys@.len() - k,
            {
                let hk = &preset.hotkeys[k];
                if hk.code == vk && hk.modifiers == mods {
                    let m = String::from_str("Conflict with '").concat(hk.name.as_str()).concat("' in preset '")
                        .concat(preset.name.as_str()).concat("'");
                    proof {
                        assert(m@ =~= conflict_message(ps[idx as int].hotkeys@[k as int], ps[idx as int]));
                        assert(hotkey_matches(ps[idx as int].hotkeys@[k as int], vk, mods));
                        assert(has_conflict(ps, vk, mods, cur)) by {
                            assert(hotkey_matches(ps[idx as int].hotkeys@[k as int], vk, mods));
                        }
                    }
                    return Some(m);
                }
                k = k + 1;
            }
            proof {
                assert forall|q: int, j: int| 0 <= q < idx + 1 && q != cur && 0 <= j < ps[q].hotkeys@.len()
                    implies !#[trigger] hotkey_matches(ps[q].hotkeys@[j], vk, mods) by {
                    if q == idx {
                        assert(j < k);
                    }
                }
            }
        }
        proof {
            assert forall|q: int, j: int| 0 <= q < idx + 1 && q != cur && 0 <= j < ps[q].hotkeys@.len()
                implies !#[trigger] hotkey_matches(ps[q].hotkeys@[j], vk, mods) by {
                if q < idx {
                    assert(!hotkey_matches(ps[q].hotkeys@[j], vk, mods));
                }
            }
        }
        idx = idx + 1;
    }
    proof {
        assert(!has_conflict(ps, vk, mods, cur)) by {
            if has_conflict(ps, vk, mods, cur) {
                let (p, k) = choose|p: int, k: int| 0 <= p < ps.len() && p != cur && 0 <= k < ps[p].hotkeys@.len()
                    && #[trigger] hotkey_matches(ps[p].hotkeys@[k], vk, mods);
                assert(!hotkey_matches(ps[p].hotkeys@[k], vk, mods));
            }
        }
    }
    None
}

} // verus!
