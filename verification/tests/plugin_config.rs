use cosmic_connect::plugin_config::{
    config_path, home_directory, AppNotificationSetting, ClipboardPluginConfig,
    FindMyPhonePluginConfig, HostDefaults, PauseMusicPluginConfig, PluginConfigs, PluginFiles,
    RemoteCommand, RunCommandPluginConfig, SendNotificationsPluginConfig, SharePluginConfig,
    UrgencyLevel,
};

fn host() -> HostDefaults {
    HostDefaults {
        home: "/home/ada".to_string(),
        has_incoming_call_sound: false,
        has_bell_sound: true,
        has_alarm_sound: true,
    }
}

fn no_files() -> PluginFiles {
    PluginFiles {
        share: None,
        clipboard: None,
        runcommand: None,
        pausemusic: None,
        findmyphone: None,
        sendnotifications: None,
    }
}

#[test]
fn test_default_config() {
    let config = SharePluginConfig::default_in(&home_directory(None));
    assert!(config.destination_path.ends_with("/Downloads"));
}

#[test]
fn home_falls_back_to_tmp() {
    assert_eq!(home_directory(None), "/tmp");
    assert_eq!(home_directory(Some("/home/ada".to_string())), "/home/ada");
    assert_eq!(SharePluginConfig::default_in("/home/ada").destination_path, "/home/ada/Downloads");
}

#[test]
fn config_paths() {
    assert_eq!(
        config_path("/home/ada", "dev1", "kdeconnect_share"),
        "/home/ada/.config/kdeconnect/dev1/kdeconnect_share/config"
    );
    assert_eq!(
        SharePluginConfig::get_config_path("/h", "d"),
        "/h/.config/kdeconnect/d/kdeconnect_share/config"
    );
    assert_eq!(
        ClipboardPluginConfig::get_config_path("/h", "d"),
        "/h/.config/kdeconnect/d/kdeconnect_clipboard/config"
    );
    assert_eq!(
        RunCommandPluginConfig::get_config_path("/h", "d"),
        "/h/.config/kdeconnect/d/kdeconnect_runcommand/config"
    );
    assert_eq!(
        PauseMusicPluginConfig::get_config_path("/h", "d"),
        "/h/.config/kdeconnect/d/kdeconnect_pausemusic/config"
    );
    assert_eq!(
        FindMyPhonePluginConfig::get_config_path("/h", "d"),
        "/h/.config/kdeconnect/d/kdeconnect_findmyphone/config"
    );
    assert_eq!(
        SendNotificationsPluginConfig::get_config_path("/h", "d"),
        "/h/.config/kdeconnect/d/kdeconnect_sendnotifications/config"
    );
}

#[test]
fn share_config_reads_either_key() {
    let text = "# received files\n[General]\n incomingPath = /data/in \nother=1\n";
    assert_eq!(SharePluginConfig::load(Some(text), "/h").destination_path, "/data/in");
    assert_eq!(SharePluginConfig::load(Some("destinationPath=/a=b"), "/h").destination_path, "/a=b");
    assert_eq!(SharePluginConfig::load(Some("incomingPath=/a\r\nincomingPath=/b\r\n"), "/h").destination_path, "/b");
    assert_eq!(SharePluginConfig::load(Some("#incomingPath=/a\n[incomingPath=/b\nincomingpath=/c"), "/h").destination_path, "/h/Downloads");
    assert_eq!(SharePluginConfig::load(Some(""), "/h").destination_path, "/h/Downloads");
    assert_eq!(SharePluginConfig::load(None, "/h").destination_path, "/h/Downloads");
    assert_eq!(SharePluginConfig::load(Some("incomingPath="), "/h").destination_path, "");
}

#[test]
fn share_config_round_trip() {
    let config = SharePluginConfig { destination_path: "/data/in".to_string() };
    let text = config.save();
    assert_eq!(text, "[General]\nincomingPath=/data/in\n");
    assert_eq!(SharePluginConfig::load(Some(&text), "/h").destination_path, "/data/in");
}

#[test]
fn clipboard_config() {
    assert_eq!(
        ClipboardPluginConfig::default(),
        ClipboardPluginConfig { auto_share: true, send_password: false }
    );
    assert_eq!(ClipboardPluginConfig::load(None), ClipboardPluginConfig::default());
    let config = ClipboardPluginConfig::load(Some("[General]\nautoShare=false\nsendPassword=true\n"));
    assert_eq!(config, ClipboardPluginConfig { auto_share: false, send_password: true });
    let config = ClipboardPluginConfig::load(Some("autoShare=no\nsendPassword=TRUE\n"));
    assert_eq!(config, ClipboardPluginConfig { auto_share: true, send_password: false });
    assert_eq!(config.save(), "[General]\nautoShare=true\nsendPassword=false\n");
    assert_eq!(ClipboardPluginConfig::load(Some(&config.save())), config);
}

#[test]
fn pausemusic_config() {
    let default = PauseMusicPluginConfig::default();
    assert!(default.pause_on_ringing && default.pause_media && default.resume_after_call);
    assert!(!default.pause_only_on_talking && !default.mute_system_sound);
    assert_eq!(PauseMusicPluginConfig::load(None), default);
    let config = PauseMusicPluginConfig::load(Some(
        "pause_on_ringing=false\npauseOnlyOnTalking=true\npause_media=false\nmuteSystemSound=true\nresumeAfterCall=false\n",
    ));
    assert_eq!(
        config,
        PauseMusicPluginConfig {
            pause_on_ringing: false,
            pause_only_on_talking: true,
            pause_media: false,
            mute_system_sound: true,
            resume_after_call: false,
        }
    );
    assert_eq!(
        config.save(),
        "[General]\npauseOnRinging=false\npauseOnlyOnTalking=true\npauseMedia=false\nmuteSystemSound=true\nresumeAfterCall=false\n"
    );
    assert_eq!(PauseMusicPluginConfig::load(Some(&config.save())), config);
    let config = PauseMusicPluginConfig::load(Some("pauseOnRinging=maybe\npauseMedia=\n"));
    assert_eq!(config, default);
}

#[test]
fn findmyphone_config() {
    let sounds = "/usr/share/sounds/freedesktop/stereo/";
    assert_eq!(
        FindMyPhonePluginConfig::default_for(true, true, true).ringtone_path,
        format!("{}phone-incoming-call.oga", sounds)
    );
    assert_eq!(
        FindMyPhonePluginConfig::default_for(false, true, true).ringtone_path,
        format!("{}bell.oga", sounds)
    );
    assert_eq!(
        FindMyPhonePluginConfig::default_for(false, false, true).ringtone_path,
        format!("{}alarm-clock-elapsed.oga", sounds)
    );
    assert_eq!(FindMyPhonePluginConfig::default_for(false, false, false).ringtone_path, "");
    let default = || FindMyPhonePluginConfig::default_for(false, false, false);
    assert_eq!(FindMyPhonePluginConfig::load(Some("ringtone=/a.oga"), default()).ringtone_path, "/a.oga");
    assert_eq!(FindMyPhonePluginConfig::load(Some("ringtonePath = /b.oga "), default()).ringtone_path, "/b.oga");
    assert_eq!(FindMyPhonePluginConfig::load(Some("volume=3"), default()).ringtone_path, "");
    assert_eq!(FindMyPhonePluginConfig::load(None, FindMyPhonePluginConfig::default_for(false, true, false)).ringtone_path, format!("{}bell.oga", sounds));
    assert_eq!(
        FindMyPhonePluginConfig { ringtone_path: "/a.oga".to_string() }.save(),
        "[General]\nringtone=/a.oga\n"
    );
}

#[test]
fn urgency_levels() {
    assert_eq!(UrgencyLevel::from_i32(0), UrgencyLevel::Low);
    assert_eq!(UrgencyLevel::from_i32(1), UrgencyLevel::Normal);
    assert_eq!(UrgencyLevel::from_i32(2), UrgencyLevel::Critical);
    assert_eq!(UrgencyLevel::from_i32(3), UrgencyLevel::Normal);
    assert_eq!(UrgencyLevel::from_i32(-1), UrgencyLevel::Normal);
    assert_eq!(UrgencyLevel::from_i32(i32::MIN), UrgencyLevel::Normal);
    assert_eq!(UrgencyLevel::Low.to_string(), "Low");
    assert_eq!(UrgencyLevel::Normal.to_string(), "Normal");
    assert_eq!(UrgencyLevel::Critical.to_string(), "Critical");
    assert_eq!(UrgencyLevel::Low.as_i32(), 0);
    assert_eq!(UrgencyLevel::Normal.as_i32(), 1);
    assert_eq!(UrgencyLevel::Critical.as_i32(), 2);
}

fn commands(config: &RunCommandPluginConfig) -> Vec<(String, String, String)> {
    config.commands.iter().map(|c| (c.id.clone(), c.name.clone(), c.command.clone())).collect()
}

fn command(id: &str, name: &str, line: &str) -> (String, String, String) {
    (id.to_string(), name.to_string(), line.to_string())
}

#[test]
fn runcommand_default_locks_the_screen() {
    let expected = vec![command("lock-screen", "Lock Screen", "loginctl lock-session")];
    assert_eq!(commands(&RunCommandPluginConfig::default()), expected);
    assert_eq!(commands(&RunCommandPluginConfig::load(None)), expected);
}

#[test]
fn runcommand_reads_complete_sections() {
    let text = "# commands\n[command_0]\nname=Lock\ncommand=loginctl lock-session\n\n[half]\nname=No command\n[command_1]\ncommand = echo a=b \nname = Echo\nextra=1\n";
    assert_eq!(
        commands(&RunCommandPluginConfig::load(Some(text))),
        vec![command("command_0", "Lock", "loginctl lock-session"), command("command_1", "Echo", "echo a=b")]
    );
    assert!(RunCommandPluginConfig::load(Some("")).commands.is_empty());
    assert!(RunCommandPluginConfig::load(Some("name=a\ncommand=b\n")).commands.is_empty());
    assert_eq!(
        commands(&RunCommandPluginConfig::load(Some("[]\nname=a\ncommand=b\n[open\n"))),
        vec![command("", "a", "b")]
    );
}

#[test]
fn runcommand_writes_numbered_sections() {
    let config = RunCommandPluginConfig {
        commands: vec![
            RemoteCommand { id: "x".to_string(), name: "Lock".to_string(), command: "lock".to_string() },
            RemoteCommand { id: "y".to_string(), name: "Echo".to_string(), command: "echo hi".to_string() },
        ],
    };
    let text = config.save();
    assert_eq!(text, "[command_0]\nname=Lock\ncommand=lock\n\n[command_1]\nname=Echo\ncommand=echo hi\n\n");
    assert_eq!(
        commands(&RunCommandPluginConfig::load(Some(&text))),
        vec![command("command_0", "Lock", "lock"), command("command_1", "Echo", "echo hi")]
    );
    assert_eq!(RunCommandPluginConfig { commands: vec![] }.save(), "");
}

fn apps(config: &SendNotificationsPluginConfig) -> Vec<(String, bool)> {
    config.app_settings.iter().map(|a| (a.app_name.clone(), a.enabled)).collect()
}

#[test]
fn sendnotifications_default() {
    let config = SendNotificationsPluginConfig::default();
    assert!(!config.persistent_only);
    assert!(config.include_body);
    assert!(config.sync_icons);
    assert_eq!(config.min_urgency, UrgencyLevel::Low);
    assert!(config.app_settings.is_empty());
    assert!(config.use_blocklist);
    assert_eq!(
        config.save(),
        "[General]\npersistentOnly=false\nincludeBody=true\nsyncIcons=true\nminUrgency=0\nuseBlocklist=true\n\n"
    );
}

#[test]
fn sendnotifications_reads_sections() {
    let text = "persistentOnly=true\n[General]\npersistentOnly=true\nincludeBody=false\nsyncIcons=false\nminUrgency=2\nblacklistApps=false\n\n[Applications]\nfirefox=false\nmail = true\nchat=perhaps\n[Other]\nignored=true\n";
    let config = SendNotificationsPluginConfig::load(Some(text));
    assert!(config.persistent_only);
    assert!(!config.include_body);
    assert!(!config.sync_icons);
    assert_eq!(config.min_urgency, UrgencyLevel::Critical);
    assert!(!config.use_blocklist);
    assert_eq!(
        apps(&config),
        vec![("firefox".to_string(), false), ("mail".to_string(), true), ("chat".to_string(), true)]
    );
    let config = SendNotificationsPluginConfig::load(Some("persistentOnly=true\nfirefox=false\n"));
    assert!(!config.persistent_only);
    assert!(config.app_settings.is_empty());
}

#[test]
fn sendnotifications_urgency_values() {
    let urgency = |value: &str| {
        SendNotificationsPluginConfig::load(Some(&format!("[General]\nminUrgency={}\n", value))).min_urgency
    };
    assert_eq!(urgency("0"), UrgencyLevel::Low);
    assert_eq!(urgency("1"), UrgencyLevel::Normal);
    assert_eq!(urgency("2"), UrgencyLevel::Critical);
    assert_eq!(urgency("+2"), UrgencyLevel::Critical);
    assert_eq!(urgency("7"), UrgencyLevel::Normal);
    assert_eq!(urgency("-1"), UrgencyLevel::Normal);
    assert_eq!(urgency("high"), UrgencyLevel::Low);
    assert_eq!(urgency(""), UrgencyLevel::Low);
    assert_eq!(urgency("2147483648"), UrgencyLevel::Low);
    assert_eq!(urgency("2147483647"), UrgencyLevel::Normal);
}

#[test]
fn sendnotifications_round_trip() {
    let config = SendNotificationsPluginConfig {
        persistent_only: true,
        include_body: false,
        sync_icons: true,
        min_urgency: UrgencyLevel::Normal,
        app_settings: vec![
            AppNotificationSetting { app_name: "firefox".to_string(), enabled: false },
            AppNotificationSetting { app_name: "mail".to_string(), enabled: true },
        ],
        use_blocklist: false,
    };
    let text = config.save();
    assert_eq!(
        text,
        "[General]\npersistentOnly=true\nincludeBody=false\nsyncIcons=true\nminUrgency=1\nuseBlocklist=false\n\n[Applications]\nfirefox=false\nmail=true\n"
    );
    let read = SendNotificationsPluginConfig::load(Some(&text));
    assert_eq!(read.min_urgency, UrgencyLevel::Normal);
    assert_eq!(apps(&read), apps(&config));
    assert!(read.persistent_only && !read.include_body && read.sync_icons && !read.use_blocklist);
}

#[test]
fn all_plugins_without_files_have_their_defaults() {
    let configs = PluginConfigs::load(&no_files(), &host());
    assert_eq!(configs.share.destination_path, "/home/ada/Downloads");
    assert_eq!(configs.clipboard, ClipboardPluginConfig::default());
    assert_eq!(configs.runcommand.commands.len(), 1);
    assert_eq!(configs.pausemusic, PauseMusicPluginConfig::default());
    assert_eq!(configs.findmyphone.ringtone_path, "/usr/share/sounds/freedesktop/stereo/bell.oga");
    assert!(configs.sendnotifications.app_settings.is_empty());
}

#[test]
fn all_plugins_write_and_read_back() {
    let mut files = no_files();
    files.share = Some("incomingPath=/in".to_string());
    files.clipboard = Some("autoShare=false".to_string());
    files.findmyphone = Some("ringtone=/r.oga".to_string());
    let configs = PluginConfigs::load(&files, &host());
    assert_eq!(configs.share.destination_path, "/in");
    assert!(!configs.clipboard.auto_share);
    assert_eq!(configs.findmyphone.ringtone_path, "/r.oga");
    let written = configs.save();
    assert_eq!(written.share, Some("[General]\nincomingPath=/in\n".to_string()));
    assert_eq!(written.findmyphone, Some("[General]\nringtone=/r.oga\n".to_string()));
    assert_eq!(
        written.runcommand,
        Some("[command_0]\nname=Lock Screen\ncommand=loginctl lock-session\n\n".to_string())
    );
    assert!(written.clipboard.is_some() && written.pausemusic.is_some() && written.sendnotifications.is_some());
    let again = PluginConfigs::load(&written, &host());
    assert_eq!(again.share.destination_path, "/in");
    assert_eq!(again.clipboard, configs.clipboard);
    assert_eq!(again.pausemusic, configs.pausemusic);
}
