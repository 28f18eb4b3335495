//! Plugin configuration: the settings of each plugin for a device, how they
//! are read from the text of a configuration file and written back to it.

use vstd::prelude::*;
use crate::config_text::{
    blank_line, entry_line, entry_of, flag_or, flag_text, is_blank, is_passed_over,
    is_text, passed_over, push_entry, push_flag_entry, read_entry, read_flag, read_section,
    section_of,
};
use crate::text::{
    chars_of, decimal_of_nat, parse_i32, parsed_i32, push_decimal, push_text, split_chars,
    split_on, string_of, text_of, texts_of, trim_chars, trimmed, views_of,
};

verus! {

/// The home directory to work with: the one given, or `/tmp` where none is.
pub fn home_directory(home: Option<String>) -> (r: String)
    ensures
        r@ == match text_of(home) {
            Some(h) => h,
            None => "/tmp"@,
        },
{
    match home {
        Some(h) => h,
        None => String::from_str("/tmp"),
    }
}

/// The path of the configuration file of a plugin for a device.
pub open spec fn config_path_of(home: Seq<char>, device_id: Seq<char>, plugin: Seq<char>) -> Seq<char> {
    home + "/.config/kdeconnect/"@ + device_id + "/"@ + plugin + "/config"@
}

/// The path of the configuration file of the plugin `plugin` for a device.
pub fn config_path(home: &str, device_id: &str, plugin: &str) -> (r: String)
    ensures
        r@ == config_path_of(home@, device_id@, plugin@),
{
    let mut out = String::from_str(home);
    push_text(&mut out, "/.config/kdeconnect/");
    push_text(&mut out, device_id);
    push_text(&mut out, "/");
    push_text(&mut out, plugin);
    push_text(&mut out, "/config");
    out
}

// ---------------------------------------------------------------------------
// Share
// ---------------------------------------------------------------------------

/// Configuration for the Share plugin (file transfer).
pub struct SharePluginConfig {
    /// Directory where received files are saved.
    pub destination_path: String,
}

impl View for SharePluginConfig {
    type V = Seq<char>;

    /// The destination path.
    open spec fn view(&self) -> Seq<char> {
        self.destination_path@
    }
}

/// The destination after one more line of the file.
pub open spec fn share_line(destination: Seq<char>, raw: Seq<char>) -> Seq<char> {
    let line = trimmed(raw);
    if is_passed_over(line) {
        destination
    } else {
        match entry_of(line) {
            Some((key, value)) => if key == "incomingPath"@ || key == "destinationPath"@ {
                value
            } else {
                destination
            },
            None => destination,
        }
    }
}

/// The destination after the lines of the file, in order.
pub open spec fn share_lines(destination: Seq<char>, lines: Seq<Seq<char>>) -> Seq<char>
    decreases lines.len(),
{
    if lines.len() == 0 {
        destination
    } else {
        share_line(share_lines(destination, lines.drop_last()), lines.last())
    }
}

/// The destination that a file's text gives, starting from the default.
pub open spec fn share_of(content: Option<Seq<char>>, home: Seq<char>) -> Seq<char> {
    match content {
        Some(text) => share_lines(home + "/Downloads"@, split_on(text, '\n')),
        None => home + "/Downloads"@,
    }
}

/// The file's text for a destination.
pub open spec fn share_text(destination: Seq<char>) -> Seq<char> {
    "[General]\n"@ + entry_line("incomingPath"@, destination)
}

impl SharePluginConfig {
    /// The configuration of a host whose home directory is `home`: files go
    /// to its Downloads folder.
    pub fn default_in(home: &str) -> (r: Self)
        ensures
            r@ == home@ + "/Downloads"@,
    {
        let mut path = String::from_str(home);
        push_text(&mut path, "/Downloads");
        SharePluginConfig { destination_path: path }
    }

    /// The configuration that the text of a file gives; the default where
    /// there is no file.
    pub fn load(content: Option<&str>, home: &str) -> (r: Self)
        ensures
            r@ == share_of(
                match content {
                    Some(c) => Some(c@),
                    None => None,
                },
                home@,
            ),
    {
        let mut config = Self::default_in(home);
        let text = match content {
            Some(c) => c,
            None => {
                return config;
            },
        };
        let all = chars_of(text);
        let lines = split_chars(&all, '\n');
        let ghost rows = texts_of(lines@);
        let ghost start = config@;
        let mut i: usize = 0;
        proof {
            assert(rows.take(0) =~= Seq::<Seq<char>>::empty());
        }
        while i < lines.len()
            invariant
                i <= lines.len(),
                rows == texts_of(lines@),
                config@ == share_lines(start, rows.take(i as int)),
            decreases lines.len() - i,
        {
            proof {
                assert(rows.take(i + 1).drop_last() =~= rows.take(i as int));
                assert(rows.take(i + 1).last() == lines@[i as int]@);
            }
            let line = trim_chars(&lines[i]);
            if !passed_over(&line) {
                match read_entry(&line) {
                    Some((key, value)) => {
                        if is_text(&key, "incomingPath") || is_text(&key, "destinationPath") {
                            config.destination_path = string_of(&value);
                        }
                    },
                    None => {},
                }
            }
            i += 1;
        }
        proof {
            assert(rows.take(lines.len() as int) =~= rows);
        }
        config
    }

    /// The text of the file for this configuration.
    pub fn save(&self) -> (r: String)
        ensures
            r@ == share_text(self@),
    {
        let mut out = String::from_str("[General]\n");
        push_entry(&mut out, "incomingPath", self.destination_path.as_str());
        out
    }

    /// The path of the file for a device.
    pub fn get_config_path(home: &str, device_id: &str) -> (r: String)
        ensures
            r@ == config_path_of(home@, device_id@, "kdeconnect_share"@),
    {
        config_path(home, device_id, "kdeconnect_share")
    }
}

// ---------------------------------------------------------------------------
// Clipboard
// ---------------------------------------------------------------------------

/// Configuration for the Clipboard plugin.
#[derive(Clone, Copy, Debug, PartialEq, Eq, Structural)]
pub struct ClipboardPluginConfig {
    /// Automatically synchronize clipboard content.
    pub auto_share: bool,
    /// Share password content from password managers.
    pub send_password: bool,
}

/// Synchronization on, passwords kept back.
pub open spec fn clipboard_default() -> ClipboardPluginConfig {
    ClipboardPluginConfig { auto_share: true, send_password: false }
}

/// The configuration after one more line of the file.
pub open spec fn clipboard_line(config: ClipboardPluginConfig, raw: Seq<char>) -> ClipboardPluginConfig {
    let line = trimmed(raw);
    if is_passed_over(line) {
        config
    } else {
        match entry_of(line) {
            Some((key, value)) => if key == "autoShare"@ {
                ClipboardPluginConfig { auto_share: flag_or(value, true), ..config }
            } else if key == "sendPassword"@ {
                ClipboardPluginConfig { send_password: flag_or(value, false), ..config }
            } else {
                config
            },
            None => config,
        }
    }
}

/// The configuration after the lines of the file, in order.
pub open spec fn clipboard_lines(
    config: ClipboardPluginConfig,
    lines: Seq<Seq<char>>,
) -> ClipboardPluginConfig
    decreases lines.len(),
{
    if lines.len() == 0 {
        config
    } else {
        clipboard_line(clipboard_lines(config, lines.drop_last()), lines.last())
    }
}

/// The configuration that a file's text gives, starting from the default.
pub open spec fn clipboard_of(content: Option<Seq<char>>) -> ClipboardPluginConfig {
    match content {
        Some(text) => clipboard_lines(clipboard_default(), split_on(text, '\n')),
        None => clipboard_default(),
    }
}

/// The file's text for a configuration.
pub open spec fn clipboard_text(config: ClipboardPluginConfig) -> Seq<char> {
    "[General]\n"@ + entry_line("autoShare"@, flag_text(config.auto_share)) + entry_line(
        "sendPassword"@,
        flag_text(config.send_password),
    )
}

impl Default for ClipboardPluginConfig {
    fn default() -> (r: Self)
        ensures
            r == clipboard_default(),
    {
        ClipboardPluginConfig { auto_share: true, send_password: false }
    }
}

impl ClipboardPluginConfig {
    /// The configuration that the text of a file gives; the default where
    /// there is no file.
    pub fn load(content: Option<&str>) -> (r: Self)
        ensures
            r == clipboard_of(
                match content {
                    Some(c) => Some(c@),
                    None => None,
                },
            ),
    {
        let mut config = ClipboardPluginConfig { auto_share: true, send_password: false };
        let text = match content {
            Some(c) => c,
            None => {
                return config;
            },
        };
        let all = chars_of(text);
        let lines = split_chars(&all, '\n');
        let ghost rows = texts_of(lines@);
        let mut i: usize = 0;
        proof {
            assert(rows.take(0) =~= Seq::<Seq<char>>::empty());
        }
        while i < lines.len()
            invariant
                i <= lines.len(),
                rows == texts_of(lines@),
                config == clipboard_lines(clipboard_default(), rows.take(i as int)),
            decreases lines.len() - i,
        {
            proof {
                assert(rows.take(i + 1).drop_last() =~= rows.take(i as int));
                assert(rows.take(i + 1).last() == lines@[i as int]@);
            }
            let line = trim_chars(&lines[i]);
            if !passed_over(&line) {
                match read_entry(&line) {
                    Some((key, value)) => {
                        if is_text(&key, "autoShare") {
                            config.auto_share = read_flag(&value, true);
                        } else if is_text(&key, "sendPassword") {
                            config.send_password = read_flag(&value, false);
                        }
                    },
                    None => {},
                }
            }
            i += 1;
        }
        proof {
            assert(rows.take(lines.len() as int) =~= rows);
        }
        config
    }

    /// The text of the file for this configuration.
    pub fn save(&self) -> (r: String)
        ensures
            r@ == clipboard_text(*self),
    {
        let mut out = String::from_str("[General]\n");
        push_flag_entry(&mut out, "autoShare", self.auto_share);
        push_flag_entry(&mut out, "sendPassword", self.send_password);
        out
    }

    /// The path of the file for a device.
    pub fn get_config_path(home: &str, device_id: &str) -> (r: String)
        ensures
            r@ == config_path_of(home@, device_id@, "kdeconnect_clipboard"@),
    {
        config_path(home, device_id, "kdeconnect_clipboard")
    }
}

// ---------------------------------------------------------------------------
// Pause media during calls
// ---------------------------------------------------------------------------

/// Configuration for the plugin that pauses media during calls.
#[derive(Clone, Copy, Debug, PartialEq, Eq, Structural)]
pub struct PauseMusicPluginConfig {
    /// Pause as soon as the phone rings.
    pub pause_on_ringing: bool,
    /// Pause only while talking.
    pub pause_only_on_talking: bool,
    /// Pause media players.
    pub pause_media: bool,
    /// Mute system sound.
    pub mute_system_sound: bool,
    /// Resume media when the call has finished.
    pub resume_after_call: bool,
}

/// Pause players as soon as the phone rings, resume after the call.
pub open spec fn pausemusic_default() -> PauseMusicPluginConfig {
    PauseMusicPluginConfig {
        pause_on_ringing: true,
        pause_only_on_talking: false,
        pause_media: true,
        mute_system_sound: false,
        resume_after_call: true,
    }
}

/// The configuration after one more line of the file.
pub open spec fn pausemusic_line(config: PauseMusicPluginConfig, raw: Seq<char>) -> PauseMusicPluginConfig {
    let line = trimmed(raw);
    if is_passed_over(line) {
        config
    } else {
        match entry_of(line) {
            Some((key, value)) => if key == "pause_on_ringing"@ || key == "pauseOnRinging"@ {
                PauseMusicPluginConfig { pause_on_ringing: flag_or(value, true), ..config }
            } else if key == "pause_only_on_talking"@ || key == "pauseOnlyOnTalking"@ {
                PauseMusicPluginConfig { pause_only_on_talking: flag_or(value, false), ..config }
            } else if key == "pause_media"@ || key == "pauseMedia"@ {
                PauseMusicPluginConfig { pause_media: flag_or(value, true), ..config }
            } else if key == "mute_system_sound"@ || key == "muteSystemSound"@ {
                PauseMusicPluginConfig { mute_system_sound: flag_or(value, false), ..config }
            } else if key == "resume_after_call"@ || key == "resumeAfterCall"@ {
                PauseMusicPluginConfig { resume_after_call: flag_or(value, true), ..config }
            } else {
                config
            },
            None => config,
        }
    }
}

/// The configuration after the lines of the file, in order.
pub open spec fn pausemusic_lines(
    config: PauseMusicPluginConfig,
    lines: Seq<Seq<char>>,
) -> PauseMusicPluginConfig
    decreases lines.len(),
{
    if lines.len() == 0 {
        config
    } else {
        pausemusic_line(pausemusic_lines(config, lines.drop_last()), lines.last())
    }
}

/// The configuration that a file's text gives, starting from the default.
pub open spec fn pausemusic_of(content: Option<Seq<char>>) -> PauseMusicPluginConfig {
    match content {
        Some(text) => pausemusic_lines(pausemusic_default(), split_on(text, '\n')),
        None => pausemusic_default(),
    }
}

/// The file's text for a configuration.
pub open spec fn pausemusic_text(config: PauseMusicPluginConfig) -> Seq<char> {
    "[General]\n"@ + entry_line("pauseOnRinging"@, flag_text(config.pause_on_ringing)) + entry_line(
        "pauseOnlyOnTalking"@,
        flag_text(config.pause_only_on_talking),
    ) + entry_line("pauseMedia"@, flag_text(config.pause_media)) + entry_line(
        "muteSystemSound"@,
        flag_text(config.mute_system_sound),
    ) + entry_line("resumeAfterCall"@, flag_text(config.resume_after_call))
}

impl Default for PauseMusicPluginConfig {
    fn default() -> (r: Self)
        ensures
            r == pausemusic_default(),
    {
        PauseMusicPluginConfig {
            pause_on_ringing: true,
            pause_only_on_talking: false,
            pause_media: true,
            mute_system_sound: false,
            resume_after_call: true,
        }
    }
}

impl PauseMusicPluginConfig {
    /// The configuration that the text of a file gives; the default where
    /// there is no file.
    pub fn load(content: Option<&str>) -> (r: Self)
        ensures
            r == pausemusic_of(
                match content {
                    Some(c) => Some(c@),
                    None => None,
                },
            ),
    {
        let mut config = PauseMusicPluginConfig {
            pause_on_ringing: true,
            pause_only_on_talking: false,
            pause_media: true,
            mute_system_sound: false,
            resume_after_call: true,
        };
        let text = match content {
            Some(c) => c,
            None => {
                return config;
            },
        };
        let all = chars_of(text);
        let lines = split_chars(&all, '\n');
        let ghost rows = texts_of(lines@);
        let mut i: usize = 0;
        proof {
            assert(rows.take(0) =~= Seq::<Seq<char>>::empty());
        }
        while i < lines.len()
            invariant
                i <= lines.len(),
                rows == texts_of(lines@),
                config == pausemusic_lines(pausemusic_default(), rows.take(i as int)),
            decreases lines.len() - i,
        {
            proof {
                assert(rows.take(i + 1).drop_last() =~= rows.take(i as int));
                assert(rows.take(i + 1).last() == lines@[i as int]@);
            }
            let line = trim_chars(&lines[i]);
            if !passed_over(&line) {
                match read_entry(&line) {
                    Some((key, value)) => {
                        if is_text(&key, "pause_on_ringing") || is_text(&key, "pauseOnRinging") {
                            config.pause_on_ringing = read_flag(&value, true);
                        } else if is_text(&key, "pause_only_on_talking") || is_text(
                            &key,
                            "pauseOnlyOnTalking",
                        ) {
                            config.pause_only_on_talking = read_flag(&value, false);
                        } else if is_text(&key, "pause_media") || is_text(&key, "pauseMedia") {
                            config.pause_media = read_flag(&value, true);
                        } else if is_text(&key, "mute_system_sound") || is_text(
                            &key,
                            "muteSystemSound",
                        ) {
                            config.mute_system_sound = read_flag(&value, false);
                        } else if is_text(&key, "resume_after_call") || is_text(
                            &key,
                            "resumeAfterCall",
                        ) {
                            config.resume_after_call = read_flag(&value, true);
                        }
                    },
                    None => {},
                }
            }
            i += 1;
        }
        proof {
            assert(rows.take(lines.len() as int) =~= rows);
        }
        config
    }

    /// The text of the file for this configuration.
    pub fn save(&self) -> (r: String)
        ensures
            r@ == pausemusic_text(*self),
    {
        let mut out = String::from_str("[General]\n");
        push_flag_entry(&mut out, "pauseOnRinging", self.pause_on_ringing);
        push_flag_entry(&mut out, "pauseOnlyOnTalking", self.pause_only_on_talking);
        push_flag_entry(&mut out, "pauseMedia", self.pause_media);
        push_flag_entry(&mut out, "muteSystemSound", self.mute_system_sound);
        push_flag_entry(&mut out, "resumeAfterCall", self.resume_after_call);
        out
    }

    /// The path of the file for a device.
    pub fn get_config_path(home: &str, device_id: &str) -> (r: String)
        ensures
            r@ == config_path_of(home@, device_id@, "kdeconnect_pausemusic"@),
    {
        config_path(home, device_id, "kdeconnect_pausemusic")
    }
}

// ---------------------------------------------------------------------------
// Find this device
// ---------------------------------------------------------------------------

/// Configuration for the plugin that lets the phone find this device.
pub struct FindMyPhonePluginConfig {
    /// Path to the sound file to play when finding the device.
    pub ringtone_path: String,
}

impl View for FindMyPhonePluginConfig {
    type V = Seq<char>;

    /// The ringtone path.
    open spec fn view(&self) -> Seq<char> {
        self.ringtone_path@
    }
}

/// The sound to ring with by default: the first that the host has of the
/// incoming-call sound, the bell and the alarm; none where it has none.
pub open spec fn default_ringtone(has_incoming_call: bool, has_bell: bool, has_alarm: bool) -> Seq<char> {
    if has_incoming_call {
        "/usr/share/sounds/freedesktop/stereo/phone-incoming-call.oga"@
    } else if has_bell {
        "/usr/share/sounds/freedesktop/stereo/bell.oga"@
    } else if has_alarm {
        "/usr/share/sounds/freedesktop/stereo/alarm-clock-elapsed.oga"@
    } else {
        Seq::empty()
    }
}

/// The ringtone after one more line of the file.
pub open spec fn findmyphone_line(ringtone: Seq<char>, raw: Seq<char>) -> Seq<char> {
    let line = trimmed(raw);
    if is_passed_over(line) {
        ringtone
    } else {
        match entry_of(line) {
            Some((key, value)) => if key == "ringtone"@ || key == "ringtonePath"@ {
                value
            } else {
                ringtone
            },
            None => ringtone,
        }
    }
}

/// The ringtone after the lines of the file, in order.
pub open spec fn findmyphone_lines(ringtone: Seq<char>, lines: Seq<Seq<char>>) -> Seq<char>
    decreases lines.len(),
{
    if lines.len() == 0 {
        ringtone
    } else {
        findmyphone_line(findmyphone_lines(ringtone, lines.drop_last()), lines.last())
    }
}

/// The ringtone that a file's text gives, starting from `default`.
pub open spec fn findmyphone_of(content: Option<Seq<char>>, default: Seq<char>) -> Seq<char> {
    match content {
        Some(text) => findmyphone_lines(default, split_on(text, '\n')),
        None => default,
    }
}

/// The file's text for a ringtone.
pub open spec fn findmyphone_text(ringtone: Seq<char>) -> Seq<char> {
    "[General]\n"@ + entry_line("ringtone"@, ringtone)
}

impl FindMyPhonePluginConfig {
    /// The configuration of a host, given which of the three sounds it has.
    pub fn default_for(has_incoming_call: bool, has_bell: bool, has_alarm: bool) -> (r: Self)
        ensures
            r@ == default_ringtone(has_incoming_call, has_bell, has_alarm),
    {
        let sound = if has_incoming_call {
            String::from_str("/usr/share/sounds/freedesktop/stereo/phone-incoming-call.oga")
        } else if has_bell {
            String::from_str("/usr/share/sounds/freedesktop/stereo/bell.oga")
        } else if has_alarm {
            String::from_str("/usr/share/sounds/freedesktop/stereo/alarm-clock-elapsed.oga")
        } else {
            String::new()
        };
        FindMyPhonePluginConfig { ringtone_path: sound }
    }

    /// The configuration that the text of a file gives; `default` where
    /// there is no file.
    pub fn load(content: Option<&str>, default: Self) -> (r: Self)
        ensures
            r@ == findmyphone_of(
                match content {
                    Some(c) => Some(c@),
                    None => None,
                },
                default@,
            ),
    {
        let mut config = default;
        let text = match content {
            Some(c) => c,
            None => {
                return config;
            },
        };
        let all = chars_of(text);
        let lines = split_chars(&all, '\n');
        let ghost rows = texts_of(lines@);
        let ghost start = config@;
        let mut i: usize = 0;
        proof {
            assert(rows.take(0) =~= Seq::<Seq<char>>::empty());
        }
        while i < lines.len()
            invariant
                i <= lines.len(),
                rows == texts_of(lines@),
                config@ == findmyphone_lines(start, rows.take(i as int)),
            decreases lines.len() - i,
        {
            proof {
                assert(rows.take(i + 1).drop_last() =~= rows.take(i as int));
                assert(rows.take(i + 1).last() == lines@[i as int]@);
            }
            let line = trim_chars(&lines[i]);
            if !passed_over(&line) {
                match read_entry(&line) {
                    Some((key, value)) => {
                        if is_text(&key, "ringtone") || is_text(&key, "ringtonePath") {
                            config.ringtone_path = string_of(&value);
                        }
                    },
                    None => {},
                }
            }
            i += 1;
        }
        proof {
            assert(rows.take(lines.len() as int) =~= rows);
        }
        config
    }

    /// The text of the file for this configuration.
    pub fn save(&self) -> (r: String)
        ensures
            r@ == findmyphone_text(self@),
    {
        let mut out = String::from_str("[General]\n");
        push_entry(&mut out, "ringtone", self.ringtone_path.as_str());
        out
    }

    /// The path of the file for a device.
    pub fn get_config_path(home: &str, device_id: &str) -> (r: String)
        ensures
            r@ == config_path_of(home@, device_id@, "kdeconnect_findmyphone"@),
    {
        config_path(home, device_id, "kdeconnect_findmyphone")
    }
}

// ---------------------------------------------------------------------------
// Urgency
// ---------------------------------------------------------------------------

/// Notification urgency level.
#[derive(Clone, Copy, Debug, PartialEq, Eq, Structural)]
pub enum UrgencyLevel {
    Low,
    Normal,
    Critical,
}

/// The level that a number stands for: 0 is low, 2 is critical, every other
/// number is normal.
pub open spec fn urgency_of(value: i32) -> UrgencyLevel {
    if value == 0 {
        UrgencyLevel::Low
    } else if value == 2 {
        UrgencyLevel::Critical
    } else {
        UrgencyLevel::Normal
    }
}

/// The number that stands for a level.
pub open spec fn urgency_number(level: UrgencyLevel) -> i32 {
    match level {
        UrgencyLevel::Low => 0,
        UrgencyLevel::Normal => 1,
        UrgencyLevel::Critical => 2,
    }
}

/// The name of a level.
pub open spec fn urgency_name(level: UrgencyLevel) -> Seq<char> {
    match level {
        UrgencyLevel::Low => "Low"@,
        UrgencyLevel::Normal => "Normal"@,
        UrgencyLevel::Critical => "Critical"@,
    }
}

impl UrgencyLevel {
    /// The level that a number stands for.
    pub fn from_i32(value: i32) -> (r: Self)
        ensures
            r == urgency_of(value),
    {
        if value == 0 {
            UrgencyLevel::Low
        } else if value == 2 {
            UrgencyLevel::Critical
        } else {
            UrgencyLevel::Normal
        }
    }

    /// The name of this level.
    pub fn to_string(&self) -> (r: &'static str)
        ensures
            r@ == urgency_name(*self),
    {
        match self {
            UrgencyLevel::Low => "Low",
            UrgencyLevel::Normal => "Normal",
            UrgencyLevel::Critical => "Critical",
        }
    }

    /// The number that stands for this level.
    pub fn as_i32(&self) -> (r: i32)
        ensures
            r == urgency_number(*self),
            urgency_of(r) == *self,
    {
        match self {
            UrgencyLevel::Low => 0,
            UrgencyLevel::Normal => 1,
            UrgencyLevel::Critical => 2,
        }
    }
}

// ---------------------------------------------------------------------------
// Run commands
// ---------------------------------------------------------------------------

/// A single command that can be executed remotely.
pub struct RemoteCommand {
    /// Unique identifier for this command.
    pub id: String,
    /// Name shown on the remote device.
    pub name: String,
    /// The shell command to execute.
    pub command: String,
}

/// What a `RemoteCommand` holds, as mathematical values.
pub ghost struct RemoteCommandView {
    pub id: Seq<char>,
    pub name: Seq<char>,
    pub command: Seq<char>,
}

impl View for RemoteCommand {
    type V = RemoteCommandView;

    open spec fn view(&self) -> RemoteCommandView {
        RemoteCommandView { id: self.id@, name: self.name@, command: self.command@ }
    }
}

/// Configuration for the plugin that lets the device run commands here.
pub struct RunCommandPluginConfig {
    /// The commands that can be executed remotely.
    pub commands: Vec<RemoteCommand>,
}

impl View for RunCommandPluginConfig {
    type V = Seq<RemoteCommandView>;

    /// The commands, in order.
    open spec fn view(&self) -> Seq<RemoteCommandView> {
        views_of(self.commands@)
    }
}

/// One command: locking the screen.
pub open spec fn runcommand_default() -> Seq<RemoteCommandView> {
    seq![
        RemoteCommandView {
            id: "lock-screen"@,
            name: "Lock Screen"@,
            command: "loginctl lock-session"@,
        },
    ]
}

/// What is known while the file is read: the commands that are complete,
/// and the parts of the command whose section is being read.
pub ghost struct CommandScan {
    pub commands: Seq<RemoteCommandView>,
    pub group: Option<Seq<char>>,
    pub name: Option<Seq<char>>,
    pub command: Option<Seq<char>>,
}

/// The complete commands when the section being read ends: the command of
/// that section joins them if its name and its command line were given.
pub open spec fn closed_commands(scan: CommandScan) -> Seq<RemoteCommandView> {
    if scan.group is Some && scan.name is Some && scan.command is Some {
        scan.commands.push(
            RemoteCommandView { id: scan.group->0, name: scan.name->0, command: scan.command->0 },
        )
    } else {
        scan.commands
    }
}

/// The scan after one more line of the file: a section header ends the
/// section before it and opens the next command, named by the header;
/// `name` and `command` give the parts of the command.
pub open spec fn runcommand_line(scan: CommandScan, raw: Seq<char>) -> CommandScan {
    let line = trimmed(raw);
    if is_blank(line) {
        scan
    } else {
        match section_of(line) {
            Some(section) => CommandScan {
                commands: closed_commands(scan),
                group: Some(section),
                name: None,
                command: None,
            },
            None => match entry_of(line) {
                Some((key, value)) => if key == "name"@ {
                    CommandScan { name: Some(value), ..scan }
                } else if key == "command"@ {
                    CommandScan { command: Some(value), ..scan }
                } else {
                    scan
                },
                None => scan,
            },
        }
    }
}

/// The scan after the lines of the file, in order.
pub open spec fn runcommand_lines(lines: Seq<Seq<char>>) -> CommandScan
    decreases lines.len(),
{
    if lines.len() == 0 {
        CommandScan { commands: Seq::empty(), group: None, name: None, command: None }
    } else {
        runcommand_line(runcommand_lines(lines.drop_last()), lines.last())
    }
}

/// The commands that a file's text gives; the default where there is no
/// file.
pub open spec fn runcommand_of(content: Option<Seq<char>>) -> Seq<RemoteCommandView> {
    match content {
        Some(text) => closed_commands(runcommand_lines(split_on(text, '\n'))),
        None => runcommand_default(),
    }
}

/// The section of the file for the command at position `index`.
pub open spec fn command_text(index: nat, command: RemoteCommandView) -> Seq<char> {
    "[command_"@ + decimal_of_nat(index) + "]\n"@ + entry_line("name"@, command.name) + entry_line(
        "command"@,
        command.command,
    ) + seq!['\n']
}

/// The file's text for a list of commands.
pub open spec fn runcommand_text(commands: Seq<RemoteCommandView>) -> Seq<char>
    decreases commands.len(),
{
    if commands.len() == 0 {
        Seq::empty()
    } else {
        runcommand_text(commands.drop_last()) + command_text(
            (commands.len() - 1) as nat,
            commands.last(),
        )
    }
}

impl Default for RunCommandPluginConfig {
    fn default() -> (r: Self)
        ensures
            r@ == runcommand_default(),
    {
        let mut commands: Vec<RemoteCommand> = Vec::new();
        commands.push(
            RemoteCommand {
                id: String::from_str("lock-screen"),
                name: String::from_str("Lock Screen"),
                command: String::from_str("loginctl lock-session"),
            },
        );
        proof {
            assert(views_of(commands@) =~= runcommand_default());
        }
        RunCommandPluginConfig { commands }
    }
}

impl RunCommandPluginConfig {
    /// The configuration that the text of a file gives; the default where
    /// there is no file.
    pub fn load(content: Option<&str>) -> (r: Self)
        ensures
            r@ == runcommand_of(
                match content {
                    Some(c) => Some(c@),
                    None => None,
                },
            ),
    {
        let text = match content {
            Some(c) => c,
            None => {
                return Self::default();
            },
        };
        let all = chars_of(text);
        let lines = split_chars(&all, '\n');
        let ghost rows = texts_of(lines@);
        let mut commands: Vec<RemoteCommand> = Vec::new();
        let mut group: Option<Vec<char>> = None;
        let mut name: Option<Vec<char>> = None;
        let mut command: Option<Vec<char>> = None;
        let mut i: usize = 0;
        proof {
            assert(rows.take(0) =~= Seq::<Seq<char>>::empty());
            assert(views_of(commands@) =~= Seq::<RemoteCommandView>::empty());
        }
        while i < lines.len()
            invariant
                i <= lines.len(),
                rows == texts_of(lines@),
                (CommandScan {
                    commands: views_of(commands@),
                    group: crate::config_text::chars_view(group),
                    name: crate::config_text::chars_view(name),
                    command: crate::config_text::chars_view(command),
                }) == runcommand_lines(rows.take(i as int)),
            decreases lines.len() - i,
        {
            proof {
                assert(rows.take(i + 1).drop_last() =~= rows.take(i as int));
                assert(rows.take(i + 1).last() == lines@[i as int]@);
            }
            let line = trim_chars(&lines[i]);
            if !blank_line(&line) {
                match read_section(&line) {
                    Some(section) => {
                        let ghost before = views_of(commands@);
                        match (&group, &name, &command) {
                            (Some(g), Some(n), Some(c)) => {
                                commands.push(
                                    RemoteCommand {
                                        id: string_of(g),
                                        name: string_of(n),
                                        command: string_of(c),
                                    },
                                );
                                proof {
                                    assert(views_of(commands@) =~= before.push(
                                        RemoteCommandView { id: g@, name: n@, command: c@ },
                                    ));
                                }
                            },
                            _ => {},
                        }
                        group = Some(section);
                        name = None;
                        command = None;
                    },
                    None => {
                        match read_entry(&line) {
                            Some((key, value)) => {
                                if is_text(&key, "name") {
                                    name = Some(value);
                                } else if is_text(&key, "command") {
                                    command = Some(value);
                                }
                            },
                            None => {},
                        }
                    },
                }
            }
            i += 1;
        }
        proof {
            assert(rows.take(lines.len() as int) =~= rows);
        }
        let ghost before = views_of(commands@);
        match (&group, &name, &command) {
            (Some(g), Some(n), Some(c)) => {
                commands.push(
                    RemoteCommand { id: string_of(g), name: string_of(n), command: string_of(c) },
                );
                proof {
                    assert(views_of(commands@) =~= before.push(
                        RemoteCommandView { id: g@, name: n@, command: c@ },
                    ));
                }
            },
            _ => {},
        }
        RunCommandPluginConfig { commands }
    }

    /// The text of the file for this configuration.
    pub fn save(&self) -> (r: String)
        ensures
            r@ == runcommand_text(self@),
    {
        let ghost all = views_of(self.commands@);
        let mut out = String::new();
        let n = self.commands.len();
        let mut i: usize = 0;
        proof {
            assert(all.take(0) =~= Seq::<RemoteCommandView>::empty());
        }
        while i < n
            invariant
                i <= n,
                n == self.commands.len(),
                all == views_of(self.commands@),
                out@ == runcommand_text(all.take(i as int)),
            decreases n - i,
        {
            let ghost before = out@;
            let cmd = &self.commands[i];
            proof {
                assert(all.take(i + 1).drop_last() =~= all.take(i as int));
                assert(all.take(i + 1).last() == cmd@);
            }
            push_text(&mut out, "[command_");
            push_decimal(&mut out, i as u64);
            push_text(&mut out, "]\n");
            push_entry(&mut out, "name", cmd.name.as_str());
            push_entry(&mut out, "command", cmd.command.as_str());
            out.push('\n');
            proof {
                assert(out@ =~= before + command_text(i as nat, cmd@));
            }
            i += 1;
        }
        proof {
            assert(all.take(n as int) =~= all);
        }
        out
    }

    /// The path of the file for a device.
    pub fn get_config_path(home: &str, device_id: &str) -> (r: String)
        ensures
            r@ == config_path_of(home@, device_id@, "kdeconnect_runcommand"@),
    {
        config_path(home, device_id, "kdeconnect_runcommand")
    }
}

// ---------------------------------------------------------------------------
// Send notifications
// ---------------------------------------------------------------------------

/// Per-application notification settings.
pub struct AppNotificationSetting {
    pub app_name: String,
    pub enabled: bool,
}

impl View for AppNotificationSetting {
    type V = (Seq<char>, bool);

    /// The application's name, and whether it is enabled.
    open spec fn view(&self) -> (Seq<char>, bool) {
        (self.app_name@, self.enabled)
    }
}

/// Configuration for the plugin that sends this host's notifications.
pub struct SendNotificationsPluginConfig {
    /// Only send persistent notifications.
    pub persistent_only: bool,
    /// Include notification body text.
    pub include_body: bool,
    /// Sync notification icons.
    pub sync_icons: bool,
    /// Minimum urgency level to send.
    pub min_urgency: UrgencyLevel,
    /// The applications with settings of their own.
    pub app_settings: Vec<AppNotificationSetting>,
    /// Whether the applications listed are blocked (true) or the only ones
    /// allowed (false).
    pub use_blocklist: bool,
}

/// What a `SendNotificationsPluginConfig` holds, as mathematical values.
pub ghost struct SendNotificationsView {
    pub persistent_only: bool,
    pub include_body: bool,
    pub sync_icons: bool,
    pub min_urgency: UrgencyLevel,
    pub app_settings: Seq<(Seq<char>, bool)>,
    pub use_blocklist: bool,
}

impl View for SendNotificationsPluginConfig {
    type V = SendNotificationsView;

    open spec fn view(&self) -> SendNotificationsView {
        SendNotificationsView {
            persistent_only: self.persistent_only,
            include_body: self.include_body,
            sync_icons: self.sync_icons,
            min_urgency: self.min_urgency,
            app_settings: views_of(self.app_settings@),
            use_blocklist: self.use_blocklist,
        }
    }
}

/// Everything is sent, with text and icons, and no application is blocked.
pub open spec fn sendnotifications_default() -> SendNotificationsView {
    SendNotificationsView {
        persistent_only: false,
        include_body: true,
        sync_icons: true,
        min_urgency: UrgencyLevel::Low,
        app_settings: Seq::empty(),
        use_blocklist: true,
    }
}

/// What is known while the file is read: the configuration so far, and the
/// section that the lines belong to.
pub ghost struct NotificationScan {
    pub config: SendNotificationsView,
    pub in_general: bool,
    pub in_applications: bool,
}

/// The urgency that a value of the file stands for; 0 where it is no number.
pub open spec fn urgency_or_low(value: Seq<char>) -> UrgencyLevel {
    match parsed_i32(value) {
        Some(n) => urgency_of(n),
        None => urgency_of(0),
    }
}

/// The configuration after an entry of the section `General`.
pub open spec fn general_entry(
    config: SendNotificationsView,
    key: Seq<char>,
    value: Seq<char>,
) -> SendNotificationsView {
    if key == "persistentOnly"@ {
        SendNotificationsView { persistent_only: flag_or(value, false), ..config }
    } else if key == "includeBody"@ {
        SendNotificationsView { include_body: flag_or(value, true), ..config }
    } else if key == "syncIcons"@ {
        SendNotificationsView { sync_icons: flag_or(value, true), ..config }
    } else if key == "minUrgency"@ {
        SendNotificationsView { min_urgency: urgency_or_low(value), ..config }
    } else if key == "useBlocklist"@ || key == "blacklistApps"@ {
        SendNotificationsView { use_blocklist: flag_or(value, true), ..config }
    } else {
        config
    }
}

/// The scan after one more line of the file: a section header says which
/// section follows; an entry of `General` sets a setting; an entry of
/// `Applications` adds an application, enabled unless it says `false`.
pub open spec fn sendnotifications_line(scan: NotificationScan, raw: Seq<char>) -> NotificationScan {
    let line = trimmed(raw);
    if is_blank(line) {
        scan
    } else {
        match section_of(line) {
            Some(section) => NotificationScan {
                in_general: section == "General"@,
                in_applications: section == "Applications"@,
                ..scan
            },
            None => match entry_of(line) {
                Some((key, value)) => if scan.in_general {
                    NotificationScan { config: general_entry(scan.config, key, value), ..scan }
                } else if scan.in_applications {
                    NotificationScan {
                        config: SendNotificationsView {
                            app_settings: scan.config.app_settings.push((key, flag_or(value, true))),
                            ..scan.config
                        },
                        ..scan
                    }
                } else {
                    scan
                },
                None => scan,
            },
        }
    }
}

/// The scan after the lines of the file, in order.
pub open spec fn sendnotifications_lines(lines: Seq<Seq<char>>) -> NotificationScan
    decreases lines.len(),
{
    if lines.len() == 0 {
        NotificationScan {
            config: sendnotifications_default(),
            in_general: false,
            in_applications: false,
        }
    } else {
        sendnotifications_line(sendnotifications_lines(lines.drop_last()), lines.last())
    }
}

/// The configuration that a file's text gives, starting from the default.
pub open spec fn sendnotifications_of(content: Option<Seq<char>>) -> SendNotificationsView {
    match content {
        Some(text) => sendnotifications_lines(split_on(text, '\n')).config,
        None => sendnotifications_default(),
    }
}

/// The lines of the section `Applications`.
pub open spec fn applications_text(apps: Seq<(Seq<char>, bool)>) -> Seq<char>
    decreases apps.len(),
{
    if apps.len() == 0 {
        Seq::empty()
    } else {
        applications_text(apps.drop_last()) + entry_line(apps.last().0, flag_text(apps.last().1))
    }
}

/// The file's text for a configuration.
pub open spec fn sendnotifications_text(config: SendNotificationsView) -> Seq<char> {
    let general = "[General]\n"@ + entry_line("persistentOnly"@, flag_text(config.persistent_only))
        + entry_line("includeBody"@, flag_text(config.include_body)) + entry_line(
        "syncIcons"@,
        flag_text(config.sync_icons),
    ) + entry_line("minUrgency"@, decimal_of_nat(urgency_number(config.min_urgency) as nat))
        + entry_line("useBlocklist"@, flag_text(config.use_blocklist)) + seq!['\n'];
    if config.app_settings.len() > 0 {
        general + "[Applications]\n"@ + applications_text(config.app_settings)
    } else {
        general
    }
}

impl Default for SendNotificationsPluginConfig {
    fn default() -> (r: Self)
        ensures
            r@ == sendnotifications_default(),
    {
        let r = SendNotificationsPluginConfig {
            persistent_only: false,
            include_body: true,
            sync_icons: true,
            min_urgency: UrgencyLevel::Low,
            app_settings: Vec::new(),
            use_blocklist: true,
        };
        proof {
            assert(views_of(r.app_settings@) =~= Seq::<(Seq<char>, bool)>::empty());
        }
        r
    }
}

impl SendNotificationsPluginConfig {
    /// The configuration that the text of a file gives; the default where
    /// there is no file.
    pub fn load(content: Option<&str>) -> (r: Self)
        ensures
            r@ == sendnotifications_of(
                match content {
                    Some(c) => Some(c@),
                    None => None,
                },
            ),
    {
        let mut config = Self::default();
        let text = match content {
            Some(c) => c,
            None => {
                return config;
            },
        };
        let all = chars_of(text);
        let lines = split_chars(&all, '\n');
        let ghost rows = texts_of(lines@);
        let mut in_general = false;
        let mut in_applications = false;
        let mut i: usize = 0;
        proof {
            assert(rows.take(0) =~= Seq::<Seq<char>>::empty());
        }
        while i < lines.len()
            invariant
                i <= lines.len(),
                rows == texts_of(lines@),
                (NotificationScan { config: config@, in_general, in_applications })
                    == sendnotifications_lines(rows.take(i as int)),
            decreases lines.len() - i,
        {
            proof {
                assert(rows.take(i + 1).drop_last() =~= rows.take(i as int));
                assert(rows.take(i + 1).last() == lines@[i as int]@);
            }
            let line = trim_chars(&lines[i]);
            if !blank_line(&line) {
                match read_section(&line) {
                    Some(section) => {
                        in_general = is_text(&section, "General");
                        in_applications = is_text(&section, "Applications");
                    },
                    None => {
                        match read_entry(&line) {
                            Some((key, value)) => {
                                if in_general {
                                    if is_text(&key, "persistentOnly") {
                                        config.persistent_only = read_flag(&value, false);
                                    } else if is_text(&key, "includeBody") {
                                        config.include_body = read_flag(&value, true);
                                    } else if is_text(&key, "syncIcons") {
                                        config.sync_icons = read_flag(&value, true);
                                    } else if is_text(&key, "minUrgency") {
                                        let number = match parse_i32(&value) {
                                            Some(n) => n,
                                            None => 0,
                                        };
                                        config.min_urgency = UrgencyLevel::from_i32(number);
                                    } else if is_text(&key, "useBlocklist") || is_text(
                                        &key,
                                        "blacklistApps",
                                    ) {
                                        config.use_blocklist = read_flag(&value, true);
                                    }
                                } else if in_applications {
                                    let ghost before = views_of(config.app_settings@);
                                    let enabled = read_flag(&value, true);
                                    config.app_settings.push(
                                        AppNotificationSetting { app_name: string_of(&key), enabled },
                                    );
                                    proof {
                                        assert(views_of(config.app_settings@) =~= before.push(
                                            (key@, enabled),
                                        ));
                                    }
                                }
                            },
                            None => {},
                        }
                    },
                }
            }
            i += 1;
        }
        proof {
            assert(rows.take(lines.len() as int) =~= rows);
        }
        config
    }

    /// The text of the file for this configuration.
    pub fn save(&self) -> (r: String)
        ensures
            r@ == sendnotifications_text(self@),
    {
        let mut out = String::from_str("[General]\n");
        push_flag_entry(&mut out, "persistentOnly", self.persistent_only);
        push_flag_entry(&mut out, "includeBody", self.include_body);
        push_flag_entry(&mut out, "syncIcons", self.sync_icons);
        push_text(&mut out, "minUrgency");
        out.push('=');
        push_decimal(&mut out, self.min_urgency.as_i32() as u64);
        out.push('\n');
        push_flag_entry(&mut out, "useBlocklist", self.use_blocklist);
        out.push('\n');
        let ghost general = out@;
        proof {
            assert(general =~= "[General]\n"@ + entry_line(
                "persistentOnly"@,
                flag_text(self.persistent_only),
            ) + entry_line("includeBody"@, flag_text(self.include_body)) + entry_line(
                "syncIcons"@,
                flag_text(self.sync_icons),
            ) + entry_line(
                "minUrgency"@,
                decimal_of_nat(urgency_number(self.min_urgency) as nat),
            ) + entry_line("useBlocklist"@, flag_text(self.use_blocklist)) + seq!['\n']);
        }
        let n = self.app_settings.len();
        if n > 0 {
            push_text(&mut out, "[Applications]\n");
            let ghost apps = views_of(self.app_settings@);
            let ghost head = out@;
            let mut i: usize = 0;
            proof {
                assert(apps.take(0) =~= Seq::<(Seq<char>, bool)>::empty());
                assert(head + applications_text(apps.take(0)) =~= head);
            }
            while i < n
                invariant
                    i <= n,
                    n == self.app_settings.len(),
                    apps == views_of(self.app_settings@),
                    out@ == head + applications_text(apps.take(i as int)),
                decreases n - i,
            {
                let app = &self.app_settings[i];
                let ghost before = out@;
                proof {
                    assert(apps.take(i + 1).drop_last() =~= apps.take(i as int));
                    assert(apps.take(i + 1).last() == app@);
                }
                push_flag_entry(&mut out, app.app_name.as_str(), app.enabled);
                proof {
                    assert(out@ =~= head + applications_text(apps.take(i + 1)));
                }
                i += 1;
            }
            proof {
                assert(apps.take(n as int) =~= apps);
            }
        }
        out
    }

    /// The path of the file for a device.
    pub fn get_config_path(home: &str, device_id: &str) -> (r: String)
        ensures
            r@ == config_path_of(home@, device_id@, "kdeconnect_sendnotifications"@),
    {
        config_path(home, device_id, "kdeconnect_sendnotifications")
    }
}

// ---------------------------------------------------------------------------
// All plugins
// ---------------------------------------------------------------------------

/// The text of the configuration file of each plugin for one device; none
/// where the file is missing or cannot be read.
pub struct PluginFiles {
    pub share: Option<String>,
    pub clipboard: Option<String>,
    pub runcommand: Option<String>,
    pub pausemusic: Option<String>,
    pub findmyphone: Option<String>,
    pub sendnotifications: Option<String>,
}

/// What the defaults depend on: the home directory, and which of the three
/// ringtone sounds the host has.
pub struct HostDefaults {
    pub home: String,
    pub has_incoming_call_sound: bool,
    pub has_bell_sound: bool,
    pub has_alarm_sound: bool,
}

/// All plugin configurations of a device.
pub struct PluginConfigs {
    pub share: SharePluginConfig,
    pub clipboard: ClipboardPluginConfig,
    pub runcommand: RunCommandPluginConfig,
    pub pausemusic: PauseMusicPluginConfig,
    pub findmyphone: FindMyPhonePluginConfig,
    pub sendnotifications: SendNotificationsPluginConfig,
}

fn text_ref(s: &Option<String>) -> (r: Option<&str>)
    ensures
        match r {
            Some(c) => text_of(*s) == Some(c@),
            None => text_of(*s) is None,
        },
{
    match s {
        Some(t) => Some(t.as_str()),
        None => None,
    }
}

impl PluginConfigs {
    /// Load all plugin configurations of a device from the texts of their
    /// files; a plugin without a file has its default.
    pub fn load(files: &PluginFiles, host: &HostDefaults) -> (r: Self)
        ensures
            r.share@ == share_of(text_of(files.share), host.home@),
            r.clipboard == clipboard_of(text_of(files.clipboard)),
            r.runcommand@ == runcommand_of(text_of(files.runcommand)),
            r.pausemusic == pausemusic_of(text_of(files.pausemusic)),
            r.findmyphone@ == findmyphone_of(
                text_of(files.findmyphone),
                default_ringtone(
                    host.has_incoming_call_sound,
                    host.has_bell_sound,
                    host.has_alarm_sound,
                ),
            ),
            r.sendnotifications@ == sendnotifications_of(text_of(files.sendnotifications)),
    {
        PluginConfigs {
            share: SharePluginConfig::load(text_ref(&files.share), host.home.as_str()),
            clipboard: ClipboardPluginConfig::load(text_ref(&files.clipboard)),
            runcommand: RunCommandPluginConfig::load(text_ref(&files.runcommand)),
            pausemusic: PauseMusicPluginConfig::load(text_ref(&files.pausemusic)),
            findmyphone: FindMyPhonePluginConfig::load(
                text_ref(&files.findmyphone),
                FindMyPhonePluginConfig::default_for(
                    host.has_incoming_call_sound,
                    host.has_bell_sound,
                    host.has_alarm_sound,
                ),
            ),
            sendnotifications: SendNotificationsPluginConfig::load(
                text_ref(&files.sendnotifications),
            ),
        }
    }

    /// The texts of the files for all plugin configurations of a device.
    pub fn save(&self) -> (r: PluginFiles)
        ensures
            text_of(r.share) == Some(share_text(self.share@)),
            text_of(r.clipboard) == Some(clipboard_text(self.clipboard)),
            text_of(r.runcommand) == Some(runcommand_text(self.runcommand@)),
            text_of(r.pausemusic) == Some(pausemusic_text(self.pausemusic)),
            text_of(r.findmyphone) == Some(findmyphone_text(self.findmyphone@)),
            text_of(r.sendnotifications) == Some(sendnotifications_text(self.sendnotifications@)),
    {
        PluginFiles {
            share: Some(self.share.save()),
            clipboard: Some(self.clipboard.save()),
            runcommand: Some(self.runcommand.save()),
            pausemusic: Some(self.pausemusic.save()),
            findmyphone: Some(self.findmyphone.save()),
            sendnotifications: Some(self.sendnotifications.save()),
        }
    }
}

} // verus!
