use piforma_panel::system_status::{
    connectivity_from_nmcli, get_system_status, network_settings_commands, parse_first_percent,
    set_system_volume, ssid_from_iwgetid, ssid_from_nmcli, unescape_nmcli_value, VolumePlan,
    VolumeTools,
};

#[test]
fn parses_percentage_output() {
    assert_eq!(parse_first_percent("front-left: 32768 / 50% / -18.06 dB"), Some(50));
    assert_eq!(parse_first_percent("Mono: Playback 74 [74%]"), Some(74));
}

#[test]
fn percentages_are_capped_and_oversized_numbers_skipped() {
    assert_eq!(parse_first_percent("boost 150%"), Some(100));
    assert_eq!(parse_first_percent("999% then 30%"), Some(30));
    assert_eq!(parse_first_percent("% 007%"), Some(7));
    assert_eq!(parse_first_percent("no percentage here"), None);
    assert_eq!(parse_first_percent(""), None);
}

#[test]
fn unescapes_nmcli_ssid() {
    assert_eq!(unescape_nmcli_value("Green\\:Ice"), "Green:Ice");
}

#[test]
fn unescaping_keeps_plain_values_and_a_trailing_backslash() {
    assert_eq!(unescape_nmcli_value("Cafe Wifi"), "Cafe Wifi");
    assert_eq!(unescape_nmcli_value("a\\\\b"), "a\\b");
    assert_eq!(unescape_nmcli_value("end\\"), "end\\");
}

#[test]
fn active_ssid_comes_from_the_first_active_line() {
    let output = "no:Neighbour\nyes:  Green\\:Ice \nyes:Other\n";
    assert_eq!(ssid_from_nmcli(output), Some("Green:Ice".to_string()));
    assert_eq!(ssid_from_nmcli("yes:\nno:Other"), None);
    assert_eq!(ssid_from_iwgetid("  HomeNet\n"), Some("HomeNet".to_string()));
    assert_eq!(ssid_from_iwgetid(" \n"), None);
}

#[test]
fn connectivity_words_are_read() {
    assert_eq!(connectivity_from_nmcli("FULL\n"), Some(true));
    assert_eq!(connectivity_from_nmcli("portal"), Some(false));
    assert_eq!(connectivity_from_nmcli("unknown"), None);
}

#[test]
fn status_needs_wifi_for_internet_and_defaults_volume() {
    let status = get_system_status(None, true, None);
    assert!(!status.internet_available);
    assert_eq!(status.volume, 0);
    assert!(!status.audio_available);
    let status = get_system_status(Some("HomeNet".to_string()), true, Some(40));
    assert!(status.internet_available);
    assert_eq!(status.volume, 40);
    assert!(status.audio_available);
}

#[test]
fn volume_is_clamped_and_set_with_the_first_tool() {
    let plan = set_system_volume(
        250,
        VolumeTools { wpctl: true, pactl: true, amixer: true },
    );
    match plan {
        VolumePlan::AllOf(commands) => assert_eq!(
            commands,
            vec![
                vec!["wpctl", "set-volume", "@DEFAULT_AUDIO_SINK@", "100%"],
                vec!["wpctl", "set-mute", "@DEFAULT_AUDIO_SINK@", "0"],
            ]
        ),
        _ => panic!("wpctl sets the volume"),
    }
    match set_system_volume(0, VolumeTools { wpctl: false, pactl: true, amixer: true }) {
        VolumePlan::AllOf(commands) => assert_eq!(
            commands[1],
            vec!["pactl", "set-sink-mute", "@DEFAULT_SINK@", "1"]
        ),
        _ => panic!("pactl sets the volume"),
    }
    match set_system_volume(35, VolumeTools { wpctl: false, pactl: false, amixer: true }) {
        VolumePlan::FirstOf(commands) => assert_eq!(
            commands,
            vec![
                vec!["amixer", "-q", "sset", "Master", "35%", "unmute"],
                vec!["amixer", "-q", "sset", "PCM", "35%", "unmute"],
            ]
        ),
        _ => panic!("amixer sets the volume"),
    }
    match set_system_volume(35, VolumeTools { wpctl: false, pactl: false, amixer: false }) {
        VolumePlan::Unsupported(message) => assert_eq!(
            message,
            "no supported system volume tool found; expected wpctl, pactl, or amixer"
        ),
        _ => panic!("no tool is installed"),
    }
}

#[test]
fn network_settings_tools_are_tried_in_order() {
    let commands = network_settings_commands();
    assert_eq!(commands.len(), 5);
    assert_eq!(commands[0], vec!["nm-connection-editor"]);
    assert_eq!(commands[4], vec!["lxterminal", "-e", "nmtui"]);
}
