//! The settings screen: a list of settings edited in place, applied to the
//! configuration and saved on request.
//!
//! Saving the file is done by the front end: when a key asks for it, the
//! screen's answer says so, and the front end reports the outcome back
//! through [`SettingsScreen::finish_save`].

use vstd::prelude::*;
use crate::config::{AutoInstallBehavior, Config, ConfigView, PlaylistBehavior};
use crate::text::{
    bool_string, bool_text, byte_len, chars_of, dec, owned, parse_bool, parse_bool_spec, parse_u32,
    parse_u64, parse_unsigned, push_dec, push_str, str_eq, string_of, extend, utf8_len,
};
use crate::tui::app::Screen;
use crate::tui::components::input::{TextInput, is_boundary, byte_pos, input_step};
use crate::tui::components::modal::{button_texts, modal_answer, Modal, ModalState, ModalType};
use crate::tui::keys::{KeyCode, KeyEvent};
use crate::tui::screens::ScreenResult;

verus! {

/// The kind of value a setting holds.
#[derive(Debug, Clone, Copy)]
pub enum SettingType {
    Boolean,
    Text,
    Integer,
    /// One of a fixed list of options.
    Enum(&'static [&'static str]),
    Path,
}

/// The texts of a list of options.
pub open spec fn option_texts(opts: &[&str]) -> Seq<Seq<char>> {
    opts@.map_values(|s: &str| s@)
}

/// One setting: its key in the configuration, what the user sees, and its
/// value as text.
#[derive(Debug, Clone)]
pub struct SettingItem {
    pub key: String,
    pub name: String,
    pub description: String,
    pub setting_type: SettingType,
    pub value_string: String,
}

impl SettingItem {
    /// A setting.
    pub fn new(key: &str, name: &str, description: &str, setting_type: SettingType, value_string: &str) -> (r: Self)
        ensures
            r.key@ == key@,
            r.name@ == name@,
            r.description@ == description@,
            r.setting_type == setting_type,
            r.value_string@ == value_string@,
    {
        SettingItem {
            key: owned(key),
            name: owned(name),
            description: owned(description),
            setting_type,
            value_string: owned(value_string),
        }
    }
}

/// What the settings screen is doing.
#[derive(Debug, Clone, PartialEq, Eq)]
pub enum SettingsState {
    /// Browsing the list.
    Browsing,
    /// Editing a text value.
    EditingText,
    /// Showing a save confirmation.
    ConfirmSave,
    /// Showing an error.
    Error(String),
}

/// Which save the front end is asked to do.
#[derive(Debug, Clone, Copy, PartialEq, Eq, Structural)]
pub enum SaveRequest {
    /// The changes were applied to the configuration on "save".
    AfterApply,
    /// A confirmation dialog was answered yes.
    AfterConfirm,
}

/// The screen's answer to a key: where to go, and whether to save the
/// configuration now.
pub struct SettingsReply {
    pub result: ScreenResult,
    pub save: Option<SaveRequest>,
}

/// The text shown for the playlist behavior (its name, with "Video Only"
/// spelled apart).
pub open spec fn behavior_text(b: PlaylistBehavior) -> Seq<char> {
    match b {
        PlaylistBehavior::Ask => "Ask"@,
        PlaylistBehavior::VideoOnly => "Video Only"@,
        PlaylistBehavior::PlaylistOnly => "PlaylistOnly"@,
    }
}

/// The text shown for the auto-install behavior (its name).
pub open spec fn install_text(b: AutoInstallBehavior) -> Seq<char> {
    match b {
        AutoInstallBehavior::Prompt => "Prompt"@,
        AutoInstallBehavior::Always => "Always"@,
        AutoInstallBehavior::Never => "Never"@,
    }
}

/// The text of an optional string, empty when absent.
pub open spec fn or_empty(o: Option<Seq<char>>) -> Seq<char> {
    match o {
        Some(s) => s,
        None => Seq::empty(),
    }
}

/// The keys of the settings, in the order they are listed.
pub open spec fn setting_keys() -> Seq<Seq<char>> {
    seq![
        "download_cover"@,
        "audio_quality"@,
        "filename_format"@,
        "directory_format"@,
        "default_output_dir"@,
        "overwrite_existing"@,
        "create_playlist"@,
        "max_retries"@,
        "playlist_behavior"@,
        "cookies_from_browser"@,
        "ytdlp_auto_update"@,
        "ytdlp_update_interval_days"@,
        "dependency_auto_install"@,
    ]
}

/// The values of the settings as text, in the listed order.
pub open spec fn setting_values(c: ConfigView) -> Seq<Seq<char>> {
    seq![
        bool_text(c.download_cover),
        dec(c.audio_quality as nat),
        c.filename_format,
        c.directory_format,
        or_empty(c.default_output_dir),
        bool_text(c.overwrite_existing),
        bool_text(c.create_playlist),
        dec(c.max_retries as nat),
        behavior_text(c.playlist_behavior),
        or_empty(c.cookies_from_browser),
        bool_text(c.ytdlp_auto_update),
        dec(c.ytdlp_update_interval_days as nat),
        install_text(c.dependency_auto_install),
    ]
}

/// The kinds of the settings, in the listed order: 0 boolean, 1 text,
/// 2 integer, 3 options, 4 path.
pub open spec fn kind_of(t: SettingType) -> int {
    match t {
        SettingType::Boolean => 0,
        SettingType::Text => 1,
        SettingType::Integer => 2,
        SettingType::Enum(_) => 3,
        SettingType::Path => 4,
    }
}

/// The kinds of the listed settings.
pub open spec fn setting_kinds() -> Seq<int> {
    seq![0, 3, 1, 1, 4, 0, 0, 2, 3, 1, 0, 2, 3]
}

/// The options of the settings that have options, by position.
pub open spec fn setting_options(i: int) -> Seq<Seq<char>> {
    if i == 1 {
        seq!["128"@, "192"@, "320"@]
    } else if i == 8 {
        seq!["Ask"@, "Video Only"@, "Playlist Only"@]
    } else if i == 12 {
        seq!["Prompt"@, "Always"@, "Never"@]
    } else {
        Seq::empty()
    }
}

/// What a setting's value does to the configuration: the configuration
/// with that value, or the error text when the value does not parse.
/// Unknown keys change nothing.
pub open spec fn apply_setting(c: ConfigView, key: Seq<char>, v: Seq<char>) -> Result<ConfigView, Seq<char>> {
    let bool_err = "Invalid boolean value"@;
    let num_err = "Invalid number"@;
    if key == "download_cover"@ {
        match parse_bool_spec(v) {
            Some(b) => Ok(ConfigView { download_cover: b, ..c }),
            None => Err(bool_err),
        }
    } else if key == "audio_quality"@ {
        match parse_unsigned(v) {
            Some(n) => if n <= u32::MAX {
                Ok(ConfigView { audio_quality: n as u32, ..c })
            } else {
                Err("Invalid audio quality"@)
            },
            None => Err("Invalid audio quality"@),
        }
    } else if key == "filename_format"@ {
        Ok(ConfigView { filename_format: v, ..c })
    } else if key == "directory_format"@ {
        Ok(ConfigView { directory_format: v, ..c })
    } else if key == "default_output_dir"@ {
        Ok(ConfigView { default_output_dir: if v.len() == 0 { None } else { Some(v) }, ..c })
    } else if key == "overwrite_existing"@ {
        match parse_bool_spec(v) {
            Some(b) => Ok(ConfigView { overwrite_existing: b, ..c }),
            None => Err(bool_err),
        }
    } else if key == "create_playlist"@ {
        match parse_bool_spec(v) {
            Some(b) => Ok(ConfigView { create_playlist: b, ..c }),
            None => Err(bool_err),
        }
    } else if key == "max_retries"@ {
        match parse_unsigned(v) {
            Some(n) => if n <= u32::MAX {
                Ok(ConfigView { max_retries: n as u32, ..c })
            } else {
                Err(num_err)
            },
            None => Err(num_err),
        }
    } else if key == "playlist_behavior"@ {
        if v == "Ask"@ {
            Ok(ConfigView { playlist_behavior: PlaylistBehavior::Ask, ..c })
        } else if v == "Video Only"@ {
            Ok(ConfigView { playlist_behavior: PlaylistBehavior::VideoOnly, ..c })
        } else if v == "Playlist Only"@ {
            Ok(ConfigView { playlist_behavior: PlaylistBehavior::PlaylistOnly, ..c })
        } else {
            Err("Invalid playlist behavior"@)
        }
    } else if key == "cookies_from_browser"@ {
        Ok(ConfigView { cookies_from_browser: if v.len() == 0 { None } else { Some(v) }, ..c })
    } else if key == "ytdlp_auto_update"@ {
        match parse_bool_spec(v) {
            Some(b) => Ok(ConfigView { ytdlp_auto_update: b, ..c }),
            None => Err(bool_err),
        }
    } else if key == "ytdlp_update_interval_days"@ {
        match parse_unsigned(v) {
            Some(n) => if n <= u64::MAX {
                Ok(ConfigView { ytdlp_update_interval_days: n as u64, ..c })
            } else {
                Err(num_err)
            },
            None => Err(num_err),
        }
    } else if key == "dependency_auto_install"@ {
        if v == "Prompt"@ {
            Ok(ConfigView { dependency_auto_install: AutoInstallBehavior::Prompt, ..c })
        } else if v == "Always"@ {
            Ok(ConfigView { dependency_auto_install: AutoInstallBehavior::Always, ..c })
        } else if v == "Never"@ {
            Ok(ConfigView { dependency_auto_install: AutoInstallBehavior::Never, ..c })
        } else {
            Err("Invalid auto-install behavior"@)
        }
    } else {
        Ok(c)
    }
}

/// The configuration after applying the settings in order, and the error
/// that stopped it, if one did; the settings before the failing one stay
/// applied.
pub open spec fn apply_settings(c: ConfigView, items: Seq<SettingItem>) -> (ConfigView, Option<Seq<char>>)
    decreases items.len(),
{
    if items.len() == 0 {
        (c, None)
    } else {
        let (c1, e) = apply_settings(c, items.drop_last());
        if e is Some {
            (c1, e)
        } else {
            match apply_setting(c1, items.last().key@, items.last().value_string@) {
                Ok(c2) => (c2, None),
                Err(m) => (c1, Some(m)),
            }
        }
    }
}

/// The settings listed from `c` hold its values.
pub open spec fn lists_config(items: Seq<SettingItem>, c: ConfigView) -> bool {
    &&& items.len() == 13
    &&& forall|i: int|
        0 <= i < 13 ==> (#[trigger] items[i]).key@ == setting_keys()[i] && items[i].value_string@
            == setting_values(c)[i]
}

/// A configuration whose values all survive being shown as text: no
/// empty folder or browser name, and a playlist behavior other than
/// "playlist only" (whose shown text, `PlaylistOnly`, is not one the
/// settings read back).
pub open spec fn shows_faithfully(c: ConfigView) -> bool {
    &&& c.default_output_dir != Some(Seq::<char>::empty())
    &&& c.cookies_from_browser != Some(Seq::<char>::empty())
    &&& c.playlist_behavior != PlaylistBehavior::PlaylistOnly
}

/// The configuration `d` with setting `i` (in the listed order) taken
/// from `c`.
pub open spec fn take_setting(d: ConfigView, c: ConfigView, i: int) -> ConfigView {
    if i == 0 {
        ConfigView { download_cover: c.download_cover, ..d }
    } else if i == 1 {
        ConfigView { audio_quality: c.audio_quality, ..d }
    } else if i == 2 {
        ConfigView { filename_format: c.filename_format, ..d }
    } else if i == 3 {
        ConfigView { directory_format: c.directory_format, ..d }
    } else if i == 4 {
        ConfigView { default_output_dir: c.default_output_dir, ..d }
    } else if i == 5 {
        ConfigView { overwrite_existing: c.overwrite_existing, ..d }
    } else if i == 6 {
        ConfigView { create_playlist: c.create_playlist, ..d }
    } else if i == 7 {
        ConfigView { max_retries: c.max_retries, ..d }
    } else if i == 8 {
        ConfigView { playlist_behavior: c.playlist_behavior, ..d }
    } else if i == 9 {
        ConfigView { cookies_from_browser: c.cookies_from_browser, ..d }
    } else if i == 10 {
        ConfigView { ytdlp_auto_update: c.ytdlp_auto_update, ..d }
    } else if i == 11 {
        ConfigView { ytdlp_update_interval_days: c.ytdlp_update_interval_days, ..d }
    } else if i == 12 {
        ConfigView { dependency_auto_install: c.dependency_auto_install, ..d }
    } else {
        d
    }
}

/// The configuration `d` with the first `n` listed settings taken from `c`.
pub open spec fn take_first_settings(d: ConfigView, c: ConfigView, n: int) -> ConfigView
    decreases n,
{
    if n <= 0 {
        d
    } else {
        take_setting(take_first_settings(d, c, n - 1), c, n - 1)
    }
}

/// The configuration `d` with every listed setting taken from `c`; the
/// fields the settings do not list stay those of `d`.
pub open spec fn with_settings_of(d: ConfigView, c: ConfigView) -> ConfigView {
    ConfigView {
        download_cover: c.download_cover,
        audio_quality: c.audio_quality,
        filename_format: c.filename_format,
        directory_format: c.directory_format,
        default_output_dir: c.default_output_dir,
        overwrite_existing: c.overwrite_existing,
        create_playlist: c.create_playlist,
        max_retries: c.max_retries,
        playlist_behavior: c.playlist_behavior,
        cookies_from_browser: c.cookies_from_browser,
        ytdlp_auto_update: c.ytdlp_auto_update,
        ytdlp_update_interval_days: c.ytdlp_update_interval_days,
        dependency_auto_install: c.dependency_auto_install,
        ..d
    }
}

/// Each setting listed from `c`, applied to any configuration `d`, sets
/// that setting of `d` to its value in `c` and nothing else.
#[verifier::spinoff_prover]
#[verifier::rlimit(50)]
proof fn lemma_each_setting_sets(c: ConfigView, d: ConfigView, i: int)
    requires
        0 <= i < 13,
        shows_faithfully(c),
    ensures
        apply_setting(d, setting_keys()[i], setting_values(c)[i]) == Ok::<ConfigView, Seq<char>>(
            take_setting(d, c, i),
        ),
{
    let k = setting_keys()[i];
    let v = setting_values(c)[i];
    if i == 0 {
        assert(apply_setting(d, k, v) == Ok::<ConfigView, Seq<char>>(take_setting(d, c, i))) by {
            reveal_strlit("download_cover");
            reveal_strlit("true");
            reveal_strlit("false");
            assert(ConfigView { download_cover: c.download_cover, ..d } == take_setting(d, c, i));
        }
    }
    else if i == 1 {
        assert(apply_setting(d, k, v) == Ok::<ConfigView, Seq<char>>(take_setting(d, c, i))) by {
            reveal_strlit("download_cover");
            reveal_strlit("audio_quality");
            assert(k.len() != "download_cover"@.len());
            assert(k != "download_cover"@);
            crate::chapters::lemma_dec_digits(c.audio_quality as nat);
            assert(v[0] != '+');
            assert(crate::text::parse_unsigned(v) == Some(c.audio_quality as nat));
            assert(ConfigView { audio_quality: c.audio_quality, ..d } == take_setting(d, c, i));
        }
    }
    else if i == 2 {
        assert(apply_setting(d, k, v) == Ok::<ConfigView, Seq<char>>(take_setting(d, c, i))) by {
            reveal_strlit("download_cover");
            reveal_strlit("audio_quality");
            reveal_strlit("filename_format");
            assert(k.len() != "download_cover"@.len());
            assert(k != "download_cover"@);
            assert(k.len() != "audio_quality"@.len());
            assert(k != "audio_quality"@);
            assert(ConfigView { filename_format: c.filename_format, ..d } == take_setting(d, c, i));
        }
    }
    else if i == 3 {
        assert(apply_setting(d, k, v) == Ok::<ConfigView, Seq<char>>(take_setting(d, c, i))) by {
            reveal_strlit("download_cover");
            reveal_strlit("audio_quality");
            reveal_strlit("filename_format");
            reveal_strlit("directory_format");
            assert(k.len() != "download_cover"@.len());
            assert(k != "download_cover"@);
            assert(k.len() != "audio_quality"@.len());
            assert(k != "audio_quality"@);
            assert(k.len() != "filename_format"@.len());
            assert(k != "filename_format"@);
            assert(ConfigView { directory_format: c.directory_format, ..d } == take_setting(d, c, i));
        }
    }
    else if i == 4 {
        assert(apply_setting(d, k, v) == Ok::<ConfigView, Seq<char>>(take_setting(d, c, i))) by {
            reveal_strlit("download_cover");
            reveal_strlit("audio_quality");
            reveal_strlit("filename_format");
            reveal_strlit("directory_format");
            reveal_strlit("default_output_dir");
            assert(k.len() != "download_cover"@.len());
            assert(k != "download_cover"@);
            assert(k.len() != "audio_quality"@.len());
            assert(k != "audio_quality"@);
            assert(k.len() != "filename_format"@.len());
            assert(k != "filename_format"@);
            assert(k.len() != "directory_format"@.len());
            assert(k != "directory_format"@);
            assert(ConfigView { default_output_dir: c.default_output_dir, ..d } == take_setting(d, c, i));
            assert(v == or_empty(c.default_output_dir));
            match c.default_output_dir {
                Some(x) => {
                    if x.len() == 0 {
                        assert(x =~= Seq::<char>::empty());
                    }
                    assert(v == x && v.len() > 0);
                },
                None => assert(v.len() == 0),
            }
        }
    }
    else if i == 5 {
        assert(apply_setting(d, k, v) == Ok::<ConfigView, Seq<char>>(take_setting(d, c, i))) by {
            reveal_strlit("download_cover");
            reveal_strlit("audio_quality");
            reveal_strlit("filename_format");
            reveal_strlit("directory_format");
            reveal_strlit("default_output_dir");
            reveal_strlit("overwrite_existing");
            assert(k.len() != "download_cover"@.len());
            assert(k != "download_cover"@);
            assert(k.len() != "audio_quality"@.len());
            assert(k != "audio_quality"@);
            assert(k.len() != "filename_format"@.len());
            assert(k != "filename_format"@);
            assert(k.len() != "directory_format"@.len());
            assert(k != "directory_format"@);
            assert(k[0] != "default_output_dir"@[0]);
            assert(k != "default_output_dir"@);
            reveal_strlit("true");
            reveal_strlit("false");
            assert(ConfigView { overwrite_existing: c.overwrite_existing, ..d } == take_setting(d, c, i));
        }
    }
    else if i == 6 {
        assert(apply_setting(d, k, v) == Ok::<ConfigView, Seq<char>>(take_setting(d, c, i))) by {
            reveal_strlit("download_cover");
            reveal_strlit("audio_quality");
            reveal_strlit("filename_format");
            reveal_strlit("directory_format");
            reveal_strlit("default_output_dir");
            reveal_strlit("overwrite_existing");
            reveal_strlit("create_playlist");
            assert(k.len() != "download_cover"@.len());
            assert(k != "download_cover"@);
            assert(k.len() != "audio_quality"@.len());
            assert(k != "audio_quality"@);
            assert(k[0] != "filename_format"@[0]);
            assert(k != "filename_format"@);
            assert(k.len() != "directory_format"@.len());
            assert(k != "directory_format"@);
            assert(k.len() != "default_output_dir"@.len());
            assert(k != "default_output_dir"@);
            assert(k.len() != "overwrite_existing"@.len());
            assert(k != "overwrite_existing"@);
            reveal_strlit("true");
            reveal_strlit("false");
            assert(ConfigView { create_playlist: c.create_playlist, ..d } == take_setting(d, c, i));
        }
    }
    else if i == 7 {
        assert(apply_setting(d, k, v) == Ok::<ConfigView, Seq<char>>(take_setting(d, c, i))) by {
            reveal_strlit("download_cover");
            reveal_strlit("audio_quality");
            reveal_strlit("filename_format");
            reveal_strlit("directory_format");
            reveal_strlit("default_output_dir");
            reveal_strlit("overwrite_existing");
            reveal_strlit("create_playlist");
            reveal_strlit("max_retries");
            assert(k.len() != "download_cover"@.len());
            assert(k != "download_cover"@);
            assert(k.len() != "audio_quality"@.len());
            assert(k != "audio_quality"@);
            assert(k.len() != "filename_format"@.len());
            assert(k != "filename_format"@);
            assert(k.len() != "directory_format"@.len());
            assert(k != "directory_format"@);
            assert(k.len() != "default_output_dir"@.len());
            assert(k != "default_output_dir"@);
            assert(k.len() != "overwrite_existing"@.len());
            assert(k != "overwrite_existing"@);
            assert(k.len() != "create_playlist"@.len());
            assert(k != "create_playlist"@);
            crate::chapters::lemma_dec_digits(c.max_retries as nat);
            assert(v[0] != '+');
            assert(ConfigView { max_retries: c.max_retries, ..d } == take_setting(d, c, i));
        }
    }
    else if i == 8 {
        assert(apply_setting(d, k, v) == Ok::<ConfigView, Seq<char>>(take_setting(d, c, i))) by {
            reveal_strlit("download_cover");
            reveal_strlit("audio_quality");
            reveal_strlit("filename_format");
            reveal_strlit("directory_format");
            reveal_strlit("default_output_dir");
            reveal_strlit("overwrite_existing");
            reveal_strlit("create_playlist");
            reveal_strlit("max_retries");
            reveal_strlit("playlist_behavior");
            assert(k.len() != "download_cover"@.len());
            assert(k != "download_cover"@);
            assert(k.len() != "audio_quality"@.len());
            assert(k != "audio_quality"@);
            assert(k.len() != "filename_format"@.len());
            assert(k != "filename_format"@);
            assert(k.len() != "directory_format"@.len());
            assert(k != "directory_format"@);
            assert(k.len() != "default_output_dir"@.len());
            assert(k != "default_output_dir"@);
            assert(k.len() != "overwrite_existing"@.len());
            assert(k != "overwrite_existing"@);
            assert(k.len() != "create_playlist"@.len());
            assert(k != "create_playlist"@);
            assert(k.len() != "max_retries"@.len());
            assert(k != "max_retries"@);
            reveal_strlit("Ask");
            reveal_strlit("Video Only");
            assert(ConfigView { playlist_behavior: c.playlist_behavior, ..d } == take_setting(d, c, i));
        }
    }
    else if i == 9 {
        assert(apply_setting(d, k, v) == Ok::<ConfigView, Seq<char>>(take_setting(d, c, i))) by {
            reveal_strlit("download_cover");
            reveal_strlit("audio_quality");
            reveal_strlit("filename_format");
            reveal_strlit("directory_format");
            reveal_strlit("default_output_dir");
            reveal_strlit("overwrite_existing");
            reveal_strlit("create_playlist");
            reveal_strlit("max_retries");
            reveal_strlit("playlist_behavior");
            reveal_strlit("cookies_from_browser");
            assert(k.len() != "download_cover"@.len());
            assert(k != "download_cover"@);
            assert(k.len() != "audio_quality"@.len());
            assert(k != "audio_quality"@);
            assert(k.len() != "filename_format"@.len());
            assert(k != "filename_format"@);
            assert(k.len() != "directory_format"@.len());
            assert(k != "directory_format"@);
            assert(k.len() != "default_output_dir"@.len());
            assert(k != "default_output_dir"@);
            assert(k.len() != "overwrite_existing"@.len());
            assert(k != "overwrite_existing"@);
            assert(k.len() != "create_playlist"@.len());
            assert(k != "create_playlist"@);
            assert(k.len() != "max_retries"@.len());
            assert(k != "max_retries"@);
            assert(k.len() != "playlist_behavior"@.len());
            assert(k != "playlist_behavior"@);
            assert(ConfigView { cookies_from_browser: c.cookies_from_browser, ..d } == take_setting(d, c, i));
            assert(v == or_empty(c.cookies_from_browser));
            match c.cookies_from_browser {
                Some(x) => {
                    if x.len() == 0 {
                        assert(x =~= Seq::<char>::empty());
                    }
                    assert(v == x && v.len() > 0);
                },
                None => assert(v.len() == 0),
            }
        }
    }
    else if i == 10 {
        assert(apply_setting(d, k, v) == Ok::<ConfigView, Seq<char>>(take_setting(d, c, i))) by {
            reveal_strlit("download_cover");
            reveal_strlit("audio_quality");
            reveal_strlit("filename_format");
            reveal_strlit("directory_format");
            reveal_strlit("default_output_dir");
            reveal_strlit("overwrite_existing");
            reveal_strlit("create_playlist");
            reveal_strlit("max_retries");
            reveal_strlit("playlist_behavior");
            reveal_strlit("cookies_from_browser");
            reveal_strlit("ytdlp_auto_update");
            assert(k.len() != "download_cover"@.len());
            assert(k != "download_cover"@);
            assert(k.len() != "audio_quality"@.len());
            assert(k != "audio_quality"@);
            assert(k.len() != "filename_format"@.len());
            assert(k != "filename_format"@);
            assert(k.len() != "directory_format"@.len());
            assert(k != "directory_format"@);
            assert(k.len() != "default_output_dir"@.len());
            assert(k != "default_output_dir"@);
            assert(k.len() != "overwrite_existing"@.len());
            assert(k != "overwrite_existing"@);
            assert(k.len() != "create_playlist"@.len());
            assert(k != "create_playlist"@);
            assert(k.len() != "max_retries"@.len());
            assert(k != "max_retries"@);
            assert(k[0] != "playlist_behavior"@[0]);
            assert(k != "playlist_behavior"@);
            assert(k.len() != "cookies_from_browser"@.len());
            assert(k != "cookies_from_browser"@);
            reveal_strlit("true");
            reveal_strlit("false");
            assert(k[0] != "playlist_behavior"@[0]);
            assert(k != "playlist_behavior"@);
            assert(ConfigView { ytdlp_auto_update: c.ytdlp_auto_update, ..d } == take_setting(d, c, i));
        }
    }
    else if i == 11 {
        assert(apply_setting(d, k, v) == Ok::<ConfigView, Seq<char>>(take_setting(d, c, i))) by {
            reveal_strlit("download_cover");
            reveal_strlit("audio_quality");
            reveal_strlit("filename_format");
            reveal_strlit("directory_format");
            reveal_strlit("default_output_dir");
            reveal_strlit("overwrite_existing");
            reveal_strlit("create_playlist");
            reveal_strlit("max_retries");
            reveal_strlit("playlist_behavior");
            reveal_strlit("cookies_from_browser");
            reveal_strlit("ytdlp_auto_update");
            reveal_strlit("ytdlp_update_interval_days");
            assert(k.len() != "download_cover"@.len());
            assert(k != "download_cover"@);
            assert(k.len() != "audio_quality"@.len());
            assert(k != "audio_quality"@);
            assert(k.len() != "filename_format"@.len());
            assert(k != "filename_format"@);
            assert(k.len() != "directory_format"@.len());
            assert(k != "directory_format"@);
            assert(k.len() != "default_output_dir"@.len());
            assert(k != "default_output_dir"@);
            assert(k.len() != "overwrite_existing"@.len());
            assert(k != "overwrite_existing"@);
            assert(k.len() != "create_playlist"@.len());
            assert(k != "create_playlist"@);
            assert(k.len() != "max_retries"@.len());
            assert(k != "max_retries"@);
            assert(k.len() != "playlist_behavior"@.len());
            assert(k != "playlist_behavior"@);
            assert(k.len() != "cookies_from_browser"@.len());
            assert(k != "cookies_from_browser"@);
            assert(k.len() != "ytdlp_auto_update"@.len());
            assert(k != "ytdlp_auto_update"@);
            crate::chapters::lemma_dec_digits(c.ytdlp_update_interval_days as nat);
            assert(v[0] != '+');
            assert(ConfigView { ytdlp_update_interval_days: c.ytdlp_update_interval_days, ..d } == take_setting(d, c, i));
        }
    }
    else if i == 12 {
        assert(apply_setting(d, k, v) == Ok::<ConfigView, Seq<char>>(take_setting(d, c, i))) by {
            reveal_strlit("download_cover");
            reveal_strlit("audio_quality");
            reveal_strlit("filename_format");
            reveal_strlit("directory_format");
            reveal_strlit("default_output_dir");
            reveal_strlit("overwrite_existing");
            reveal_strlit("create_playlist");
            reveal_strlit("max_retries");
            reveal_strlit("playlist_behavior");
            reveal_strlit("cookies_from_browser");
            reveal_strlit("ytdlp_auto_update");
            reveal_strlit("ytdlp_update_interval_days");
            reveal_strlit("dependency_auto_install");
            assert(k.len() != "download_cover"@.len());
            assert(k != "download_cover"@);
            assert(k.len() != "audio_quality"@.len());
            assert(k != "audio_quality"@);
            assert(k.len() != "filename_format"@.len());
            assert(k != "filename_format"@);
            assert(k.len() != "directory_format"@.len());
            assert(k != "directory_format"@);
            assert(k.len() != "default_output_dir"@.len());
            assert(k != "default_output_dir"@);
            assert(k.len() != "overwrite_existing"@.len());
            assert(k != "overwrite_existing"@);
            assert(k.len() != "create_playlist"@.len());
            assert(k != "create_playlist"@);
            assert(k.len() != "max_retries"@.len());
            assert(k != "max_retries"@);
            assert(k.len() != "playlist_behavior"@.len());
            assert(k != "playlist_behavior"@);
            assert(k.len() != "cookies_from_browser"@.len());
            assert(k != "cookies_from_browser"@);
            assert(k.len() != "ytdlp_auto_update"@.len());
            assert(k != "ytdlp_auto_update"@);
            assert(k.len() != "ytdlp_update_interval_days"@.len());
            assert(k != "ytdlp_update_interval_days"@);
            reveal_strlit("Prompt");
            reveal_strlit("Always");
            reveal_strlit("Never");
            assert(ConfigView { dependency_auto_install: c.dependency_auto_install, ..d } == take_setting(d, c, i));
        }
    }
}

/// Saving the settings as they were listed from a configuration `c` onto
/// any configuration `d` gives, without error, `d` with every listed
/// setting of `c`, when the values of `c` survive being shown as text (see
/// [`shows_faithfully`]).
pub proof fn lemma_settings_apply_onto(c: ConfigView, d: ConfigView, items: Seq<SettingItem>)
    requires
        lists_config(items, c),
        shows_faithfully(c),
    ensures
        apply_settings(d, items) == (with_settings_of(d, c), None::<Seq<char>>),
{
    lemma_settings_prefix_sets(c, d, items, 13);
    assert(items.take(13) =~= items);
    assert(take_first_settings(d, c, 13) == with_settings_of(d, c)) by {
        reveal_with_fuel(take_first_settings, 14);
    }
}

/// Saving the settings as they were listed from a configuration gives the
/// configuration back, without error, when its values survive being shown
/// as text (see [`shows_faithfully`]).
pub proof fn lemma_settings_round_trip(c: ConfigView, items: Seq<SettingItem>)
    requires
        lists_config(items, c),
        shows_faithfully(c),
    ensures
        apply_settings(c, items) == (c, None::<Seq<char>>),
{
    lemma_settings_apply_onto(c, c, items);
    assert(with_settings_of(c, c) == c);
}

/// The first `n` listed settings of `c`, applied to `d`, take those
/// settings from `c`.
proof fn lemma_settings_prefix_sets(c: ConfigView, d: ConfigView, items: Seq<SettingItem>, n: int)
    requires
        lists_config(items, c),
        shows_faithfully(c),
        0 <= n <= 13,
    ensures
        apply_settings(d, items.take(n)) == (take_first_settings(d, c, n), None::<Seq<char>>),
    decreases n,
{
    if n > 0 {
        lemma_settings_prefix_sets(c, d, items, n - 1);
        assert(items.take(n).drop_last() =~= items.take(n - 1));
        lemma_each_setting_sets(c, take_first_settings(d, c, n - 1), n - 1);
        assert(items.take(n).last() == items[n - 1]);
    }
}

/// Applies one setting's value to the configuration: see
/// [`apply_setting`]. On an error the configuration is unchanged.
#[verifier::spinoff_prover]
#[verifier::rlimit(40)]
fn apply_one(config: &mut Config, key: &str, v: &str) -> (r: Result<(), String>)
    ensures
        match apply_setting(old(config)@, key@, v@) {
            Ok(c) => r is Ok && final(config)@ == c,
            Err(m) => r is Err && r->Err_0@ == m && final(config)@ == old(config)@,
        },
{
    if str_eq(key, "download_cover") {
        match parse_bool(v) {
            Some(b) => {
                config.download_cover = b;
                Ok(())
            },
            None => Err(owned("Invalid boolean value")),
        }
    } else if str_eq(key, "audio_quality") {
        match parse_u32(v) {
            Some(n) => {
                config.audio_quality = n;
                Ok(())
            },
            None => Err(owned("Invalid audio quality")),
        }
    } else if str_eq(key, "filename_format") {
        config.filename_format = owned(v);
        Ok(())
    } else if str_eq(key, "directory_format") {
        config.directory_format = owned(v);
        Ok(())
    } else if str_eq(key, "default_output_dir") {
        config.default_output_dir = if v.is_empty() { None } else { Some(owned(v)) };
        Ok(())
    } else if str_eq(key, "overwrite_existing") {
        match parse_bool(v) {
            Some(b) => {
                config.overwrite_existing = b;
                Ok(())
            },
            None => Err(owned("Invalid boolean value")),
        }
    } else if str_eq(key, "create_playlist") {
        match parse_bool(v) {
            Some(b) => {
                config.create_playlist = b;
                Ok(())
            },
            None => Err(owned("Invalid boolean value")),
        }
    } else if str_eq(key, "max_retries") {
        match parse_u32(v) {
            Some(n) => {
                config.max_retries = n;
                Ok(())
            },
            None => Err(owned("Invalid number")),
        }
    } else if str_eq(key, "playlist_behavior") {
        if str_eq(v, "Ask") {
            config.playlist_behavior = PlaylistBehavior::Ask;
            Ok(())
        } else if str_eq(v, "Video Only") {
            config.playlist_behavior = PlaylistBehavior::VideoOnly;
            Ok(())
        } else if str_eq(v, "Playlist Only") {
            config.playlist_behavior = PlaylistBehavior::PlaylistOnly;
            Ok(())
        } else {
            Err(owned("Invalid playlist behavior"))
        }
    } else if str_eq(key, "cookies_from_browser") {
        config.cookies_from_browser = if v.is_empty() { None } else { Some(owned(v)) };
        Ok(())
    } else if str_eq(key, "ytdlp_auto_update") {
        match parse_bool(v) {
            Some(b) => {
                config.ytdlp_auto_update = b;
                Ok(())
            },
            None => Err(owned("Invalid boolean value")),
        }
    } else if str_eq(key, "ytdlp_update_interval_days") {
        match parse_u64(v) {
            Some(n) => {
                config.ytdlp_update_interval_days = n;
                Ok(())
            },
            None => Err(owned("Invalid number")),
        }
    } else if str_eq(key, "dependency_auto_install") {
        if str_eq(v, "Prompt") {
            config.dependency_auto_install = AutoInstallBehavior::Prompt;
            Ok(())
        } else if str_eq(v, "Always") {
            config.dependency_auto_install = AutoInstallBehavior::Always;
            Ok(())
        } else if str_eq(v, "Never") {
            config.dependency_auto_install = AutoInstallBehavior::Never;
            Ok(())
        } else {
            Err(owned("Invalid auto-install behavior"))
        }
    } else {
        Ok(())
    }
}

/// The first position of `v` in `opts` from `i` on, or -1.
pub open spec fn index_from(opts: Seq<Seq<char>>, v: Seq<char>, i: int) -> int
    decreases opts.len() - i,
{
    if i < 0 || i >= opts.len() {
        -1
    } else if opts[i] == v {
        i
    } else {
        index_from(opts, v, i + 1)
    }
}

/// The position of the current value among the options, or 0 when it is
/// not one of them.
pub open spec fn option_position(opts: Seq<Seq<char>>, v: Seq<char>) -> int {
    let i = index_from(opts, v, 0);
    if i >= 0 { i } else { 0 }
}

/// The option after (or before) the current value, wrapping around.
pub open spec fn cycled_option(opts: Seq<Seq<char>>, v: Seq<char>, forward: bool) -> Seq<char> {
    let idx = option_position(opts, v);
    let n = opts.len() as int;
    if forward {
        opts[(idx + 1) % n]
    } else {
        opts[(idx + n - 1) % n]
    }
}

proof fn lemma_index_from(opts: Seq<Seq<char>>, v: Seq<char>, i: int)
    requires
        0 <= i,
    ensures
        index_from(opts, v, i) == -1 || (i <= index_from(opts, v, i) < opts.len() && opts[index_from(
            opts,
            v,
            i,
        )] == v),
    decreases opts.len() - i,
{
    if i < opts.len() && opts[i] != v {
        lemma_index_from(opts, v, i + 1);
    }
}

/// Every option list of the settings is non-empty.
pub open spec fn options_nonempty(items: Seq<SettingItem>) -> bool {
    forall|i: int|
        0 <= i < items.len() ==> match #[trigger] items[i].setting_type {
            SettingType::Enum(o) => o@.len() > 0,
            _ => true,
        }
}

/// `new` is `old` with the value of item `i` replaced by `v`.
pub open spec fn value_replaced(old: Seq<SettingItem>, new: Seq<SettingItem>, i: int, v: Seq<char>) -> bool {
    &&& new.len() == old.len()
    &&& 0 <= i < old.len()
    &&& forall|j: int| 0 <= j < old.len() && j != i ==> new[j] == old[j]
    &&& new[i].key == old[i].key
    &&& new[i].name == old[i].name
    &&& new[i].description == old[i].description
    &&& new[i].setting_type == old[i].setting_type
    &&& new[i].value_string@ == v
}

/// A modal freshly made with this kind, title, message and buttons.
pub open spec fn fresh_modal(m: Option<Modal>, ty: ModalType, title: Seq<char>, msg: Seq<char>, buttons: Seq<Seq<char>>) -> bool {
    match m {
        Some(m) => m.modal_type == ty && m.title@ == title && m.message@ == msg && m.state is Waiting
            && button_texts(m.buttons@) == buttons && m.selected_button == 0,
        None => false,
    }
}

/// The settings screen.
pub struct SettingsScreen {
    pub items: Vec<SettingItem>,
    pub selected: usize,
    pub offset: usize,
    pub state: SettingsState,
    pub text_input: TextInput,
    pub pending_changes: bool,
    pub config_snapshot: Option<Config>,
    pub modal: Option<Modal>,
}

/// `new` equals `old` in every field but those allowed to change.
pub open spec fn same_but(
    old: SettingsScreen,
    new: SettingsScreen,
    items: bool,
    selected: bool,
    state: bool,
    input: bool,
    pending: bool,
    snapshot: bool,
    modal: bool,
) -> bool {
    &&& items || new.items == old.items
    &&& selected || new.selected == old.selected
    &&& new.offset == old.offset
    &&& state || new.state == old.state
    &&& input || new.text_input == old.text_input
    &&& pending || new.pending_changes == old.pending_changes
    &&& snapshot || new.config_snapshot == old.config_snapshot
    &&& modal || new.modal == old.modal
}

/// What toggling the selected boolean setting does: its value flips (a
/// value that is not "true" counts as false) and the changes are pending;
/// on any other setting nothing happens.
pub open spec fn toggled(old: SettingsScreen, new: SettingsScreen) -> bool {
    let sel = old.selected as int;
    if sel < old.items@.len() && old.items@[sel].setting_type is Boolean {
        value_replaced(
            old.items@,
            new.items@,
            sel,
            bool_text(!(parse_bool_spec(old.items@[sel].value_string@) == Some(true))),
        ) && new.pending_changes && same_but(old, new, true, false, false, false, true, false, false)
    } else {
        new == old
    }
}

/// What cycling the selected setting with options does: its value becomes
/// the next (or previous) option and the changes are pending; on any other
/// setting nothing happens.
pub open spec fn cycled(old: SettingsScreen, new: SettingsScreen, forward: bool) -> bool {
    let sel = old.selected as int;
    if sel < old.items@.len() && old.items@[sel].setting_type is Enum {
        value_replaced(
            old.items@,
            new.items@,
            sel,
            cycled_option(
                option_texts(old.items@[sel].setting_type->Enum_0),
                old.items@[sel].value_string@,
                forward,
            ),
        ) && new.pending_changes && same_but(old, new, true, false, false, false, true, false, false)
    } else {
        new == old
    }
}

/// What starting to edit the selected setting does: a text, path or
/// number opens a focused input holding the value, titled with the
/// setting's name; a boolean is toggled; options move to the next one.
pub open spec fn editing_started(old: SettingsScreen, new: SettingsScreen) -> bool {
    let sel = old.selected as int;
    if sel < old.items@.len() {
        match old.items@[sel].setting_type {
            SettingType::Boolean => toggled(old, new),
            SettingType::Enum(_) => cycled(old, new, true),
            _ => {
                &&& new.text_input.wf()
                &&& new.text_input.value@ == old.items@[sel].value_string@
                &&& new.text_input.cursor == utf8_len(old.items@[sel].value_string@)
                &&& new.text_input.title@ == old.items@[sel].name@
                &&& new.text_input.placeholder@ == Seq::<char>::empty()
                &&& new.text_input.focused
                &&& new.text_input.max_length == 0
                &&& new.state == SettingsState::EditingText
                &&& same_but(old, new, false, false, true, true, false, false, false)
            },
        }
    } else {
        new == old
    }
}

impl SettingsScreen {
    /// The screen's parts are consistent: the input's cursor is between
    /// characters and every option list is non-empty.
    pub open spec fn wf(&self) -> bool {
        self.text_input.wf() && options_nonempty(self.items@)
    }

    /// An empty settings screen, browsing, with nothing pending.
    pub fn new() -> (r: Self)
        ensures
            r.wf(),
            r.items@.len() == 0,
            r.selected == 0,
            r.offset == 0,
            r.state == SettingsState::Browsing,
            !r.pending_changes,
            r.config_snapshot is None,
            r.modal is None,
            r.text_input.value@ == Seq::<char>::empty(),
            r.text_input.cursor == 0,
            r.text_input.placeholder@ == Seq::<char>::empty(),
            r.text_input.title@ == Seq::<char>::empty(),
            !r.text_input.focused,
            r.text_input.max_length == 0,
    {
        SettingsScreen {
            items: Vec::new(),
            selected: 0,
            offset: 0,
            state: SettingsState::Browsing,
            text_input: TextInput::new(),
            pending_changes: false,
            config_snapshot: None,
            modal: None,
        }
    }

    /// Lists the settings of `config` (see [`setting_keys`],
    /// [`setting_values`], [`setting_kinds`], [`setting_options`]), selects
    /// the first and clears what was pending; the configuration is kept as
    /// a snapshot.
    pub fn load_config(&mut self, config: &Config)
        requires
            old(self).wf(),
        ensures
            final(self).wf(),
            final(self).items@.len() == 13,
            forall|i: int|
                0 <= i < 13 ==> {
                    &&& (#[trigger] final(self).items@[i]).key@ == setting_keys()[i]
                    &&& final(self).items@[i].value_string@ == setting_values(config@)[i]
                    &&& kind_of(final(self).items@[i].setting_type) == setting_kinds()[i]
                    &&& (final(self).items@[i].setting_type is Enum ==> option_texts(
                        final(self).items@[i].setting_type->Enum_0,
                    ) == setting_options(i))
                },
            final(self).selected == 0,
            final(self).offset == 0,
            !final(self).pending_changes,
            final(self).config_snapshot is Some,
            final(self).config_snapshot->0@ == config@,
            final(self).state == old(self).state,
            final(self).text_input == old(self).text_input,
            final(self).modal == old(self).modal,
    {
        self.config_snapshot = Some(config.duplicate());
        let q: &'static [&'static str] = &["128", "192", "320"];
        let pb: &'static [&'static str] = &["Ask", "Video Only", "Playlist Only"];
        let ai: &'static [&'static str] = &["Prompt", "Always", "Never"];
        let mut quality: Vec<char> = Vec::new();
        push_dec(&mut quality, config.audio_quality as u64);
        let mut retries: Vec<char> = Vec::new();
        push_dec(&mut retries, config.max_retries as u64);
        let mut days: Vec<char> = Vec::new();
        push_dec(&mut days, config.ytdlp_update_interval_days);
        let out_dir: String = match &config.default_output_dir {
            Some(d) => owned(d.as_str()),
            None => String::new(),
        };
        let cookies: String = match &config.cookies_from_browser {
            Some(c) => owned(c.as_str()),
            None => String::new(),
        };
        let behavior: &str = match config.playlist_behavior {
            PlaylistBehavior::Ask => "Ask",
            PlaylistBehavior::VideoOnly => "Video Only",
            PlaylistBehavior::PlaylistOnly => "PlaylistOnly",
        };
        let install: &str = match config.dependency_auto_install {
            AutoInstallBehavior::Prompt => "Prompt",
            AutoInstallBehavior::Always => "Always",
            AutoInstallBehavior::Never => "Never",
        };
        let cover = bool_string(config.download_cover);
        let overwrite = bool_string(config.overwrite_existing);
        let playlist = bool_string(config.create_playlist);
        let update = bool_string(config.ytdlp_auto_update);
        let quality_s = string_of(&quality);
        let retries_s = string_of(&retries);
        let days_s = string_of(&days);
        let items = vec![
            SettingItem::new(
                "download_cover",
                "Download album cover",
                "Automatically download thumbnail as cover art",
                SettingType::Boolean,
                cover.as_str(),
            ),
            SettingItem::new(
                "audio_quality",
                "Audio quality",
                "MP3 bitrate in kbps (128, 192, or 320)",
                SettingType::Enum(q),
                quality_s.as_str(),
            ),
            SettingItem::new(
                "filename_format",
                "Filename format",
                "Track naming: %n=number, %t=title, %a=artist, %A=album",
                SettingType::Text,
                config.filename_format.as_str(),
            ),
            SettingItem::new(
                "directory_format",
                "Directory format",
                "Album folder naming: %a=artist, %A=album",
                SettingType::Text,
                config.directory_format.as_str(),
            ),
            SettingItem::new(
                "default_output_dir",
                "Output directory",
                "Default location for downloads (empty = system Music)",
                SettingType::Path,
                out_dir.as_str(),
            ),
            SettingItem::new(
                "overwrite_existing",
                "Overwrite files",
                "Replace existing files without prompting",
                SettingType::Boolean,
                overwrite.as_str(),
            ),
            SettingItem::new(
                "create_playlist",
                "Create playlist",
                "Generate .m3u playlist file",
                SettingType::Boolean,
                playlist.as_str(),
            ),
            SettingItem::new(
                "max_retries",
                "Max retries",
                "Maximum download retry attempts",
                SettingType::Integer,
                retries_s.as_str(),
            ),
            SettingItem::new(
                "playlist_behavior",
                "Playlist behavior",
                "What to do when a playlist URL is detected",
                SettingType::Enum(pb),
                behavior,
            ),
            SettingItem::new(
                "cookies_from_browser",
                "Browser cookies",
                "Auto-extract cookies from browser (empty = disabled)",
                SettingType::Text,
                cookies.as_str(),
            ),
            SettingItem::new(
                "ytdlp_auto_update",
                "Auto-update yt-dlp",
                "Automatically update yt-dlp on download failure",
                SettingType::Boolean,
                update.as_str(),
            ),
            SettingItem::new(
                "ytdlp_update_interval_days",
                "Update check interval",
                "Days between yt-dlp update checks (0 = always)",
                SettingType::Integer,
                days_s.as_str(),
            ),
            SettingItem::new(
                "dependency_auto_install",
                "Auto-install dependencies",
                "Behavior when dependencies are missing",
                SettingType::Enum(ai),
                install,
            ),
        ];
        proof {
            assert(option_texts(q) =~= seq!["128"@, "192"@, "320"@]);
            assert(option_texts(pb) =~= seq!["Ask"@, "Video Only"@, "Playlist Only"@]);
            assert(option_texts(ai) =~= seq!["Prompt"@, "Always"@, "Never"@]);
        }
        self.items = items;
        self.selected = 0;
        self.offset = 0;
        self.pending_changes = false;
    }

    /// Applies every setting, in order, to `config`: see
    /// [`apply_settings`]. Stops at the first value that does not parse and
    /// returns its error; the settings before it stay applied.
    pub fn apply_changes(&self, config: &mut Config) -> (r: Result<(), String>)
        ensures
            final(config)@ == apply_settings(old(config)@, self.items@).0,
            match apply_settings(old(config)@, self.items@).1 {
                Some(m) => r is Err && r->Err_0@ == m,
                None => r is Ok,
            },
    {
        let mut i: usize = 0;
        while i < self.items.len()
            invariant
                i <= self.items@.len(),
                config@ == apply_settings(old(config)@, self.items@.take(i as int)).0,
                apply_settings(old(config)@, self.items@.take(i as int)).1 is None,
            decreases self.items@.len() - i,
        {
            assert(self.items@.take(i + 1).drop_last() =~= self.items@.take(i as int));
            let item = &self.items[i];
            match apply_one(config, item.key.as_str(), item.value_string.as_str()) {
                Ok(()) => {},
                Err(e) => {
                    proof {
                        let k = i as int;
                        assert(self.items@.take(i + 1).last() == self.items@[k]);
                        lemma_apply_settings_stops(old(config)@, self.items@, k + 1);
                    }
                    return Err(e);
                },
            }
            i = i + 1;
        }
        assert(self.items@.take(self.items@.len() as int) =~= self.items@);
        Ok(())
    }
}

/// Once applying stops at an error, later settings change nothing.
proof fn lemma_apply_settings_stops(c: ConfigView, items: Seq<SettingItem>, k: int)
    requires
        0 <= k <= items.len(),
        apply_settings(c, items.take(k)).1 is Some,
    ensures
        apply_settings(c, items) == apply_settings(c, items.take(k)),
    decreases items.len() - k,
{
    if k < items.len() {
        assert(items.take(k + 1).drop_last() =~= items.take(k));
        lemma_apply_settings_stops(c, items, k + 1);
    } else {
        assert(items.take(k) =~= items);
    }
}

fn position_of(opts: &[&str], v: &str) -> (r: usize)
    requires
        opts@.len() > 0,
    ensures
        r == option_position(option_texts(opts), v@),
        r < opts@.len(),
{
    let ghost t = option_texts(opts);
    let mut i: usize = 0;
    while i < opts.len()
        invariant
            i <= opts@.len(),
            t == option_texts(opts),
            index_from(t, v@, 0) == index_from(t, v@, i as int),
        decreases opts@.len() - i,
    {
        if str_eq(opts[i], v) {
            proof {
                assert(t[i as int] == opts@[i as int]@);
            }
            return i;
        }
        proof {
            assert(t[i as int] == opts@[i as int]@);
        }
        i = i + 1;
    }
    0
}

/// A value shown in at most `max_len` bytes: a longer value is cut to
/// `max_len - 3` bytes followed by "...", an empty one reads "(empty)".
pub open spec fn value_display(value: Seq<char>, max_len: nat) -> Seq<char> {
    if utf8_len(value) > max_len {
        value.take(crate::tui::components::input::char_index(
            value,
            if max_len >= 3 { max_len - 3 } else { 0 },
        )) + "..."@
    } else if value.len() == 0 {
        "(empty)"@
    } else {
        value
    }
}

/// Shortens a value for display: see [`value_display`]. The cut must fall
/// between two characters.
pub fn format_value_display(value: &str, max_len: usize) -> (r: String)
    requires
        utf8_len(value@) > max_len ==> is_boundary(value@, (if max_len >= 3 { max_len - 3 } else { 0 }) as int),
    ensures
        r@ == value_display(value@, max_len as nat),
{
    let len = byte_len(value);
    if len > max_len {
        let cut = max_len.saturating_sub(3);
        let v = chars_of(value);
        let k = crate::tui::components::input::locate_boundary(&v, cut);
        let mut out = crate::text::slice(&v, 0, k);
        push_str(&mut out, "...");
        string_of(&out)
    } else if value.is_empty() {
        owned("(empty)")
    } else {
        owned(value)
    }
}

impl SettingsScreen {
    fn replace_value(&mut self, i: usize, v: String)
        requires
            i < old(self).items@.len(),
            old(self).wf(),
        ensures
            value_replaced(old(self).items@, final(self).items@, i as int, v@),
            same_but(*old(self), *final(self), true, false, false, false, false, false, false),
            final(self).wf(),
    {
        let mut item = self.items.remove(i);
        item.value_string = v;
        self.items.insert(i, item);
        proof {
            assert forall|j: int| 0 <= j < self.items@.len() implies match #[trigger] self.items@[j].setting_type {
                SettingType::Enum(o) => o@.len() > 0,
                _ => true,
            } by {
                assert(self.items@[j].setting_type == old(self).items@[j].setting_type);
            }
        }
    }

    /// Moves the selection up (not above the first setting).
    pub fn select_previous(&mut self)
        ensures
            final(self).selected == (if old(self).selected > 0 {
                (old(self).selected - 1) as usize
            } else {
                old(self).selected
            }),
            same_but(*old(self), *final(self), false, true, false, false, false, false, false),
    {
        if self.selected > 0 {
            self.selected = self.selected - 1;
        }
    }

    /// Moves the selection down (not below the last setting).
    pub fn select_next(&mut self)
        ensures
            final(self).selected == (if old(self).selected + 1 < old(self).items@.len() {
                (old(self).selected + 1) as usize
            } else {
                old(self).selected
            }),
            same_but(*old(self), *final(self), false, true, false, false, false, false, false),
    {
        if self.selected < self.items.len().saturating_sub(1) {
            self.selected = self.selected + 1;
        }
    }

    /// Flips the selected boolean setting: see [`toggled`].
    pub fn toggle_boolean(&mut self)
        requires
            old(self).wf(),
        ensures
            final(self).wf(),
            toggled(*old(self), *final(self)),
    {
        if self.selected < self.items.len() {
            let is_bool = match self.items[self.selected].setting_type {
                SettingType::Boolean => true,
                _ => false,
            };
            if is_bool {
                let cur = parse_bool(self.items[self.selected].value_string.as_str());
                let was_true = match cur {
                    Some(b) => b,
                    None => false,
                };
                let nv = bool_string(!was_true);
                self.replace_value(self.selected, nv);
                self.pending_changes = true;
            }
        }
    }

    /// Moves the selected setting with options to its next (or previous)
    /// option: see [`cycled`].
    pub fn cycle_enum(&mut self, forward: bool)
        requires
            old(self).wf(),
        ensures
            final(self).wf(),
            cycled(*old(self), *final(self), forward),
    {
        if self.selected < self.items.len() {
            let sel = self.selected;
            match self.items[sel].setting_type {
                SettingType::Enum(opts) => {
                    proof {
                        assert(match old(self).items@[sel as int].setting_type {
                            SettingType::Enum(o) => o@.len() > 0,
                            _ => true,
                        });
                    }
                    let idx = position_of(opts, self.items[sel].value_string.as_str());
                    let n = opts.len();
                    let ni = if forward {
                        if idx + 1 == n { 0 } else { idx + 1 }
                    } else {
                        if idx == 0 { n - 1 } else { idx - 1 }
                    };
                    proof {
                        let t = option_texts(opts);
                        if forward {
                            if idx + 1 == n {
                                vstd::arithmetic::div_mod::lemma_mod_self_0(n as int);
                            } else {
                                vstd::arithmetic::div_mod::lemma_small_mod((idx + 1) as nat, n as nat);
                            }
                        } else {
                            if idx == 0 {
                                vstd::arithmetic::div_mod::lemma_small_mod((n - 1) as nat, n as nat);
                            } else {
                                vstd::arithmetic::div_mod::lemma_mod_add_multiples_vanish(idx - 1, n as int);
                                vstd::arithmetic::div_mod::lemma_small_mod((idx - 1) as nat, n as nat);
                            }
                        }
                        assert(t[ni as int] == opts@[ni as int]@);
                    }
                    let v = owned(opts[ni]);
                    self.replace_value(sel, v);
                    self.pending_changes = true;
                },
                _ => {},
            }
        }
    }

    /// Starts editing the selected setting: see [`editing_started`].
    pub fn start_editing(&mut self)
        requires
            old(self).wf(),
        ensures
            final(self).wf(),
            editing_started(*old(self), *final(self)),
    {
        if self.selected < self.items.len() {
            let sel = self.selected;
            match self.items[sel].setting_type {
                SettingType::Boolean => self.toggle_boolean(),
                SettingType::Enum(_) => self.cycle_enum(true),
                _ => {
                    let input = TextInput::new().with_value(self.items[sel].value_string.as_str()).with_title(
                        self.items[sel].name.as_str(),
                    ).with_focused(true);
                    self.text_input = input;
                    self.state = SettingsState::EditingText;
                },
            }
        }
    }

    /// Takes the outcome of a save the screen asked for (`error` holds the
    /// reason it failed). After "save", success clears what was pending,
    /// keeps a snapshot and reports it; failure reports "Failed to save
    /// config: " and the reason. After a confirmation, success clears what
    /// was pending and keeps a snapshot; failure shows an error.
    pub fn finish_save(&mut self, request: SaveRequest, error: Option<&str>, config: &Config)
        requires
            old(self).wf(),
        ensures
            final(self).wf(),
            match (request, error) {
                (SaveRequest::AfterApply, None) => !final(self).pending_changes && final(self).config_snapshot
                    is Some && final(self).config_snapshot->0@ == config@ && fresh_modal(
                    final(self).modal,
                    ModalType::Info,
                    "Settings Saved"@,
                    "Configuration has been saved successfully."@,
                    seq!["OK"@],
                ) && same_but(*old(self), *final(self), false, false, false, false, true, true, true),
                (SaveRequest::AfterApply, Some(e)) => fresh_modal(
                    final(self).modal,
                    ModalType::Error,
                    "Save Failed"@,
                    "Failed to save config: "@ + e@,
                    seq!["OK"@],
                ) && same_but(*old(self), *final(self), false, false, false, false, false, false, true),
                (SaveRequest::AfterConfirm, None) => !final(self).pending_changes
                    && final(self).config_snapshot is Some && final(self).config_snapshot->0@ == config@
                    && same_but(*old(self), *final(self), false, false, false, false, true, true, false),
                (SaveRequest::AfterConfirm, Some(e)) => final(self).state is Error
                    && final(self).state->Error_0@ == "Failed to save config: "@ + e@ && fresh_modal(
                    final(self).modal,
                    ModalType::Error,
                    "Save Failed"@,
                    "Could not save configuration"@,
                    seq!["OK"@],
                ) && same_but(*old(self), *final(self), false, false, true, false, false, false, true),
            },
    {
        match error {
            None => {
                self.pending_changes = false;
                self.config_snapshot = Some(config.duplicate());
                match request {
                    SaveRequest::AfterApply => {
                        self.modal = Some(
                            Modal::info("Settings Saved", "Configuration has been saved successfully."),
                        );
                    },
                    SaveRequest::AfterConfirm => {},
                }
            },
            Some(e) => {
                let mut m: Vec<char> = Vec::new();
                push_str(&mut m, "Failed to save config: ");
                push_str(&mut m, e);
                let msg = string_of(&m);
                match request {
                    SaveRequest::AfterApply => {
                        self.modal = Some(Modal::error("Save Failed", msg.as_str()));
                    },
                    SaveRequest::AfterConfirm => {
                        self.state = SettingsState::Error(msg);
                        self.modal = Some(Modal::error("Save Failed", "Could not save configuration"));
                    },
                }
            },
        }
    }
}

/// Whether the input takes the key: it uses it (see [`input_step`]) and,
/// for a character, the value's length leaves room for it.
pub open spec fn input_takes(t: TextInput, code: KeyCode) -> bool {
    input_step(t, code).2 && !(code is Char && utf8_len(t.value@) + 4 > usize::MAX)
}

/// What a key does while a setting is edited. Keys the input takes edit
/// it; Enter stores the edited value in the selected setting (marking the
/// changes pending) and ends editing; Esc ends editing and drops the edit.
pub open spec fn editing_step(old: SettingsScreen, key: KeyEvent, new: SettingsScreen, reply: SettingsReply) -> bool {
    &&& reply.result == ScreenResult::Continue
    &&& reply.save is None
    &&& if input_takes(old.text_input, key.code) {
        let (v, c, _) = input_step(old.text_input, key.code);
        &&& new.text_input.value@ == v
        &&& new.text_input.cursor == c
        &&& new.text_input.placeholder == old.text_input.placeholder
        &&& new.text_input.title == old.text_input.title
        &&& new.text_input.focused == old.text_input.focused
        &&& new.text_input.max_length == old.text_input.max_length
        &&& same_but(old, new, false, false, false, true, false, false, false)
    } else {
        match key.code {
            KeyCode::Enter => {
                &&& new.state == SettingsState::Browsing
                &&& if (old.selected as int) < old.items@.len() {
                    value_replaced(old.items@, new.items@, old.selected as int, old.text_input.value@)
                        && new.pending_changes && same_but(old, new, true, false, true, false, true, false, false)
                } else {
                    same_but(old, new, false, false, true, false, false, false, false)
                }
            },
            KeyCode::Esc => new.state == SettingsState::Browsing && same_but(
                old,
                new,
                false,
                false,
                true,
                false,
                false,
                false,
                false,
            ),
            _ => new == old,
        }
    }
}

/// What a key does while browsing with no dialog open. Up/k and Down/j
/// move the selection; Enter starts editing; R asks to confirm a reset; S
/// applies the settings to the configuration and asks for a save (or says
/// there is nothing to save, or that a setting is invalid); Esc and Q ask
/// to confirm when changes are pending, else go back or quit; Left and
/// Right cycle the options of the selected setting.
pub open spec fn list_step(
    old: SettingsScreen,
    key: KeyEvent,
    cfg: ConfigView,
    new: SettingsScreen,
    new_cfg: ConfigView,
    reply: SettingsReply,
) -> bool {
    let sel = old.selected as int;
    let is_enum = sel < old.items@.len() && old.items@[sel].setting_type is Enum;
    let cont = reply.result == ScreenResult::Continue && reply.save is None;
    match key.code {
        KeyCode::Up => cont && new_cfg == cfg && same_but(old, new, false, true, false, false, false, false, false)
            && new.selected == (if old.selected > 0 { (old.selected - 1) as usize } else { old.selected }),
        KeyCode::Down => cont && new_cfg == cfg && same_but(old, new, false, true, false, false, false, false, false)
            && new.selected == (if old.selected + 1 < old.items@.len() {
            (old.selected + 1) as usize
        } else {
            old.selected
        }),
        KeyCode::Enter => cont && new_cfg == cfg && editing_started(old, new),
        KeyCode::Esc => new_cfg == cfg && reply.save is None && if old.pending_changes {
            reply.result == ScreenResult::Continue && fresh_modal(
                new.modal,
                ModalType::Confirm,
                "Unsaved Changes"@,
                "You have unsaved changes. Exit anyway?"@,
                seq!["Yes"@, "No"@],
            ) && same_but(old, new, false, false, false, false, false, false, true)
        } else {
            reply.result == ScreenResult::NavigateTo(Screen::Welcome) && new == old
        },
        KeyCode::Left => cont && new_cfg == cfg && if is_enum {
            cycled(old, new, false)
        } else {
            new == old
        },
        KeyCode::Right => cont && new_cfg == cfg && if is_enum {
            cycled(old, new, true)
        } else {
            new == old
        },
        KeyCode::Char(c) => if c == 'k' {
            cont && new_cfg == cfg && same_but(old, new, false, true, false, false, false, false, false)
                && new.selected == (if old.selected > 0 { (old.selected - 1) as usize } else { old.selected })
        } else if c == 'j' {
            cont && new_cfg == cfg && same_but(old, new, false, true, false, false, false, false, false)
                && new.selected == (if old.selected + 1 < old.items@.len() {
                (old.selected + 1) as usize
            } else {
                old.selected
            })
        } else if c == 'r' || c == 'R' {
            cont && new_cfg == cfg && fresh_modal(
                new.modal,
                ModalType::Confirm,
                "Reset Settings"@,
                "Reset all settings to default values? This will discard your changes."@,
                seq!["Yes"@, "No"@],
            ) && same_but(old, new, false, false, false, false, false, false, true)
        } else if c == 's' || c == 'S' {
            reply.result == ScreenResult::Continue && if old.pending_changes {
                let (c2, err) = apply_settings(cfg, old.items@);
                new_cfg == c2 && match err {
                    None => reply.save == Some(SaveRequest::AfterApply) && new == old,
                    Some(e) => reply.save is None && fresh_modal(
                        new.modal,
                        ModalType::Error,
                        "Invalid Setting"@,
                        e,
                        seq!["OK"@],
                    ) && same_but(old, new, false, false, false, false, false, false, true),
                }
            } else {
                reply.save is None && new_cfg == cfg && fresh_modal(
                    new.modal,
                    ModalType::Info,
                    "No Changes"@,
                    "No changes have been made to save."@,
                    seq!["OK"@],
                ) && same_but(old, new, false, false, false, false, false, false, true)
            }
        } else if c == 'q' || c == 'Q' {
            new_cfg == cfg && reply.save is None && if old.pending_changes {
                reply.result == ScreenResult::Continue && fresh_modal(
                    new.modal,
                    ModalType::Confirm,
                    "Unsaved Changes"@,
                    "You have unsaved changes. Quit anyway?"@,
                    seq!["Yes"@, "No"@],
                ) && same_but(old, new, false, false, false, false, false, false, true)
            } else {
                reply.result == ScreenResult::Quit && new == old
            }
        } else {
            cont && new_cfg == cfg && new == old
        },
        _ => cont && new_cfg == cfg && new == old,
    }
}

/// What a key does while browsing: an open dialog takes it first (see
/// [`modal_answer`]); once answered the dialog closes, a yes asking for a
/// save and a no returning to browsing. Without a dialog see
/// [`list_step`].
pub open spec fn browsing_step(
    old: SettingsScreen,
    key: KeyEvent,
    cfg: ConfigView,
    new: SettingsScreen,
    new_cfg: ConfigView,
    reply: SettingsReply,
) -> bool {
    match old.modal {
        Some(m) => {
            let (st, sb, answered) = modal_answer(m, key.code);
            &&& reply.result == ScreenResult::Continue
            &&& new_cfg == cfg
            &&& if answered {
                &&& new.modal is None
                &&& match st {
                    ModalState::Confirmed => reply.save == Some(SaveRequest::AfterConfirm) && same_but(
                        old,
                        new,
                        false,
                        false,
                        false,
                        false,
                        false,
                        false,
                        true,
                    ),
                    ModalState::Cancelled => reply.save is None && new.state == SettingsState::Browsing
                        && same_but(old, new, false, false, true, false, false, false, true),
                    _ => reply.save is None && same_but(old, new, false, false, false, false, false, false, true),
                }
            } else {
                &&& reply.save is None
                &&& new.modal == Some(Modal { state: st, selected_button: sb, ..m })
                &&& same_but(old, new, false, false, false, false, false, false, true)
            }
        },
        None => list_step(old, key, cfg, new, new_cfg, reply),
    }
}

/// How the settings screen answers `key`: its state goes from `before` to `after`, the configuration from `c0` to `c1`, and it answers `r`.
pub open spec fn settings_step(before: SettingsScreen, key: KeyEvent, c0: ConfigView, after: SettingsScreen, c1: ConfigView, r: SettingsReply) -> bool {
    &&& after.wf()
    &&& match before.state {
                    SettingsState::EditingText => c1 == c0 && editing_step(
                        before,
                        key,
                        after,
                        r,
                    ),
                    SettingsState::Error(_) => c1 == c0 && r.result
                        == ScreenResult::Continue && r.save is None && after.state
                        == SettingsState::Browsing && after.modal is None && same_but(
                        before,
                        after,
                        false,
                        false,
                        true,
                        false,
                        false,
                        false,
                        true,
                    ),
                    _ => browsing_step(before, key, c0, after, c1, r),
                }
}

impl SettingsScreen {
    fn handle_editing_key(&mut self, key: KeyEvent) -> (r: SettingsReply)
        requires
            old(self).wf(),
        ensures
            final(self).wf(),
            editing_step(*old(self), key, *final(self), r),
    {
        let room = match key.code {
            KeyCode::Char(_) => byte_len(self.text_input.value.as_str()) <= usize::MAX - 4,
            _ => true,
        };
        if room && self.text_input.handle_key_event(key) {
            return SettingsReply { result: ScreenResult::Continue, save: None };
        }
        match key.code {
            KeyCode::Enter => {
                if self.selected < self.items.len() {
                    let nv = owned(self.text_input.value.as_str());
                    self.replace_value(self.selected, nv);
                    self.pending_changes = true;
                }
                self.state = SettingsState::Browsing;
            },
            KeyCode::Esc => {
                self.state = SettingsState::Browsing;
            },
            _ => {},
        }
        SettingsReply { result: ScreenResult::Continue, save: None }
    }

    fn handle_list_key(&mut self, key: KeyEvent, config: &mut Config) -> (r: SettingsReply)
        requires
            old(self).wf(),
            old(self).modal is None,
        ensures
            final(self).wf(),
            list_step(*old(self), key, old(config)@, *final(self), final(config)@, r),
    {
        let cont = SettingsReply { result: ScreenResult::Continue, save: None };
        match key.code {
            KeyCode::Up => {
                self.select_previous();
                cont
            },
            KeyCode::Down => {
                self.select_next();
                cont
            },
            KeyCode::Enter => {
                self.start_editing();
                cont
            },
            KeyCode::Esc => {
                if self.pending_changes {
                    self.modal = Some(
                        Modal::confirm("Unsaved Changes", "You have unsaved changes. Exit anyway?"),
                    );
                    cont
                } else {
                    SettingsReply { result: ScreenResult::NavigateTo(Screen::Welcome), save: None }
                }
            },
            KeyCode::Left => {
                if self.selected < self.items.len() {
                    match self.items[self.selected].setting_type {
                        SettingType::Enum(_) => self.cycle_enum(false),
                        _ => {},
                    }
                }
                cont
            },
            KeyCode::Right => {
                if self.selected < self.items.len() {
                    match self.items[self.selected].setting_type {
                        SettingType::Enum(_) => self.cycle_enum(true),
                        _ => {},
                    }
                }
                cont
            },
            KeyCode::Char(c) => {
                if c == 'k' {
                    self.select_previous();
                    cont
                } else if c == 'j' {
                    self.select_next();
                    cont
                } else if c == 'r' || c == 'R' {
                    self.modal = Some(
                        Modal::confirm(
                            "Reset Settings",
                            "Reset all settings to default values? This will discard your changes.",
                        ),
                    );
                    cont
                } else if c == 's' || c == 'S' {
                    if self.pending_changes {
                        match self.apply_changes(config) {
                            Ok(()) => SettingsReply {
                                result: ScreenResult::Continue,
                                save: Some(SaveRequest::AfterApply),
                            },
                            Err(e) => {
                                self.modal = Some(Modal::error("Invalid Setting", e.as_str()));
                                cont
                            },
                        }
                    } else {
                        self.modal = Some(
                            Modal::info("No Changes", "No changes have been made to save."),
                        );
                        cont
                    }
                } else if c == 'q' || c == 'Q' {
                    if self.pending_changes {
                        self.modal = Some(
                            Modal::confirm("Unsaved Changes", "You have unsaved changes. Quit anyway?"),
                        );
                        cont
                    } else {
                        SettingsReply { result: ScreenResult::Quit, save: None }
                    }
                } else {
                    cont
                }
            },
            _ => cont,
        }
    }

    fn handle_browsing_key(&mut self, key: KeyEvent, config: &mut Config) -> (r: SettingsReply)
        requires
            old(self).wf(),
        ensures
            final(self).wf(),
            browsing_step(*old(self), key, old(config)@, *final(self), final(config)@, r),
    {
        let taken = self.modal.take();
        match taken {
            Some(mut modal) => {
                let answered = modal.handle_key(key);
                if answered {
                    match modal.state() {
                        ModalState::Confirmed => {
                            return SettingsReply {
                                result: ScreenResult::Continue,
                                save: Some(SaveRequest::AfterConfirm),
                            };
                        },
                        ModalState::Cancelled => {
                            self.state = SettingsState::Browsing;
                        },
                        _ => {},
                    }
                } else {
                    self.modal = Some(modal);
                }
                SettingsReply { result: ScreenResult::Continue, save: None }
            },
            None => self.handle_list_key(key, config),
        }
    }

    /// Answers a key press: while editing see [`editing_step`]; while an
    /// error shows, any key closes it; otherwise see [`browsing_step`].
    /// When the answer asks for a save, the front end saves `config` and
    /// reports back through [`SettingsScreen::finish_save`].
    pub fn handle_key(&mut self, key: KeyEvent, config: &mut Config) -> (r: SettingsReply)
        requires
            old(self).wf(),
        ensures
            settings_step(*old(self), key, old(config)@, *final(self), final(config)@, r),
    {
        match self.state {
            SettingsState::EditingText => self.handle_editing_key(key),
            SettingsState::Error(_) => {
                self.state = SettingsState::Browsing;
                self.modal = None;
                SettingsReply { result: ScreenResult::Continue, save: None }
            },
            _ => self.handle_browsing_key(key, config),
        }
    }

    /// The title: "Settings", starred when changes are pending.
    pub fn title_text(&self) -> (r: &'static str)
        ensures
            r@ == (if self.pending_changes { "Settings (*)"@ } else { "Settings"@ }),
    {
        if self.pending_changes {
            "Settings (*)"
        } else {
            "Settings"
        }
    }

    /// The footer's key hints for the current state.
    pub fn footer_text(&self) -> (r: &'static str)
        ensures
            r@ == match self.state {
                SettingsState::Browsing => "↑↓: Navigate | Enter: Edit | S: Save | R: Reset | Esc: Back"@,
                SettingsState::EditingText => "Type to edit | Enter: Save | Esc: Cancel"@,
                _ => "Esc: Close"@,
            },
    {
        match self.state {
            SettingsState::Browsing => "↑↓: Navigate | Enter: Edit | S: Save | R: Reset | Esc: Back",
            SettingsState::EditingText => "Type to edit | Enter: Save | Esc: Cancel",
            _ => "Esc: Close",
        }
    }
}

impl Default for SettingsScreen {
    fn default() -> (r: Self)
        ensures
            r.wf(),
            r.items@.len() == 0,
            r.selected == 0,
            r.offset == 0,
            r.state == SettingsState::Browsing,
            !r.pending_changes,
            r.config_snapshot is None,
            r.modal is None,
            r.text_input.value@ == Seq::<char>::empty(),
            r.text_input.cursor == 0,
            r.text_input.placeholder@ == Seq::<char>::empty(),
            r.text_input.title@ == Seq::<char>::empty(),
            !r.text_input.focused,
            r.text_input.max_length == 0,
    {
        Self::new()
    }
}

} // verus!
