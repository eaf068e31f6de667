use cosmic_connect_applet::device::{
    build_device, capability_plugins, clamp_volume, device_path, file_url, merge, plugin_path,
    volume_down, volume_up, Device, DeviceMap, DeviceReads, MediaPlayerInfo, MediaReads,
};

fn reads(plugins: &[&str]) -> DeviceReads {
    DeviceReads {
        name: Some("Pixel".to_string()),
        device_type: Some("phone".to_string()),
        is_reachable: Some(true),
        is_paired: Some(true),
        plugins: plugins.iter().map(|p| p.to_string()).collect(),
        battery_charge: Some(80),
        battery_charging: Some(true),
        signal_strength: Some(3),
        network_type: Some("LTE".to_string()),
        pairing_requests: Some(0),
    }
}

fn info(player: &str, title: &str) -> MediaPlayerInfo {
    MediaPlayerInfo {
        player: player.to_string(),
        title: title.to_string(),
        artist: String::new(),
        album: String::new(),
        is_playing: true,
        length: 1000,
        position: 10,
        volume: 40,
        can_pause: true,
        can_play: true,
        can_go_next: true,
        can_go_previous: true,
        can_seek: false,
    }
}

fn device(id: &str, name: &str) -> Device {
    let mut r = reads(&["kdeconnect_mprisremote"]);
    r.name = Some(name.to_string());
    build_device(id.to_string(), r)
}

#[test]
fn reachable_paired_device_without_battery_plugin() {
    let r = DeviceReads {
        name: Some("Phone".to_string()),
        device_type: Some("phone".to_string()),
        is_reachable: Some(true),
        is_paired: Some(true),
        plugins: vec!["kdeconnect_sftp".to_string()],
        battery_charge: Some(55),
        battery_charging: Some(false),
        signal_strength: None,
        network_type: None,
        pairing_requests: None,
    };
    let d = build_device("abc123".to_string(), r);
    assert_eq!(d.id, "abc123");
    assert!(d.is_reachable);
    assert!(d.is_paired);
    assert_eq!(d.battery_level, None);
    assert_eq!(d.is_charging, None);
    assert!(d.has_sftp);
    assert!(!d.has_share);
}

#[test]
fn failed_reads_take_their_defaults() {
    let r = DeviceReads {
        name: None,
        device_type: None,
        is_reachable: None,
        is_paired: None,
        plugins: vec![],
        battery_charge: None,
        battery_charging: None,
        signal_strength: None,
        network_type: None,
        pairing_requests: None,
    };
    let d = build_device("x".to_string(), r);
    assert_eq!(d.name, "Unknown");
    assert_eq!(d.device_type, "phone");
    assert!(!d.is_reachable);
    assert!(!d.is_paired);
    assert_eq!(d.pairing_requests, 0);
    assert!(d.available_players.is_empty());
    assert!(d.current_player.is_none());
    assert!(d.media_info.is_none());
}

#[test]
fn battery_and_signal_kept_with_their_plugins() {
    let d = build_device(
        "p".to_string(),
        reads(&["kdeconnect_battery", "kdeconnect_connectivity_report", "kdeconnect_ping"]),
    );
    assert!(d.has_battery);
    assert!(d.has_ping);
    assert_eq!(d.battery_level, Some(80));
    assert_eq!(d.is_charging, Some(true));
    assert_eq!(d.signal_strength, Some(3));
    assert_eq!(d.network_type.as_deref(), Some("LTE"));
    let e = build_device("q".to_string(), reads(&["kdeconnect_battery"]));
    assert_eq!(e.signal_strength, None);
    assert_eq!(e.network_type, None);
}

#[test]
fn capability_plugin_list() {
    let names = capability_plugins();
    assert_eq!(names.len(), 14);
    assert_eq!(names[0], "kdeconnect_battery");
    assert_eq!(names[13], "kdeconnect_connectivity_report");
}

#[test]
fn media_reads_defaults() {
    let m = MediaPlayerInfo::from_reads(MediaReads {
        player: None,
        title: Some("Song".to_string()),
        artist: None,
        album: None,
        is_playing: None,
        length: None,
        position: None,
        volume: None,
        can_pause: None,
        can_play: Some(false),
        can_go_next: None,
        can_go_previous: None,
        can_seek: None,
    });
    assert_eq!(m.player, "");
    assert_eq!(m.title, "Song");
    assert_eq!(m.volume, 50);
    assert!(m.can_pause);
    assert!(!m.can_play);
    assert!(!m.can_seek);
    assert_eq!(m.length, 0);
}

#[test]
fn merge_keeps_media_session_of_common_devices() {
    let first = merge(&DeviceMap::new(), vec![device("a", "A"), device("b", "B")]);
    let mut previous = first;
    previous.set_media_info("a", Some(info("spotify", "Track")));
    previous.set_players("a", vec!["spotify".to_string(), "vlc".to_string()]);
    let merged = merge(&previous, vec![device("a", "A renamed"), device("c", "C")]);
    assert_eq!(merged.len(), 2);
    let a = merged.get("a").unwrap();
    assert_eq!(a.name, "A renamed");
    assert_eq!(a.media_info.as_ref().unwrap().title, "Track");
    assert_eq!(a.current_player.as_deref(), Some("spotify"));
    assert_eq!(a.available_players, vec!["spotify".to_string(), "vlc".to_string()]);
    assert!(merged.get("b").is_none());
    assert!(merged.get("c").unwrap().media_info.is_none());
}

#[test]
fn merge_of_repeated_id_keeps_the_later_record() {
    let merged = merge(&DeviceMap::new(), vec![device("a", "first"), device("a", "second")]);
    assert_eq!(merged.len(), 1);
    assert_eq!(merged.get("a").unwrap().name, "second");
}

#[test]
fn media_info_without_player_name_keeps_current_player() {
    let mut map = merge(&DeviceMap::new(), vec![device("a", "A")]);
    map.set_media_info("a", Some(info("vlc", "x")));
    map.set_media_info("a", Some(info("", "y")));
    let a = map.get("a").unwrap();
    assert_eq!(a.current_player.as_deref(), Some("vlc"));
    assert_eq!(a.media_info.as_ref().unwrap().title, "y");
    map.set_media_info("missing", None);
    assert_eq!(map.len(), 1);
}

#[test]
fn media_capable_devices() {
    let mut off = device("b", "B");
    off.is_reachable = false;
    let map = merge(&DeviceMap::new(), vec![device("a", "A"), off]);
    assert_eq!(map.media_capable_ids(), vec!["a".to_string()]);
}

#[test]
fn volume_steps_and_clamp() {
    assert_eq!(volume_up(40), 50);
    assert_eq!(volume_up(95), 100);
    assert_eq!(volume_up(i32::MAX), 100);
    assert_eq!(volume_down(40), 30);
    assert_eq!(volume_down(5), 0);
    assert_eq!(volume_down(i32::MIN), 0);
    assert_eq!(clamp_volume(-3), 0);
    assert_eq!(clamp_volume(130), 100);
    assert_eq!(clamp_volume(70), 70);
}

#[test]
fn object_paths_and_file_urls() {
    assert_eq!(device_path("abc"), "/modules/kdeconnect/devices/abc");
    assert_eq!(plugin_path("abc", "sftp"), "/modules/kdeconnect/devices/abc/sftp");
    assert_eq!(file_url("/home/u/a.txt"), "file:///home/u/a.txt");
    assert_eq!(file_url("file:///tmp/b"), "file:///tmp/b");
}
