//! Device records: how one snapshot of daemon-reported properties becomes a
//! [`Device`], and how the media-session fields that no snapshot carries are
//! kept and replaced.

use vstd::prelude::*;
use crate::text::{begins_with, joined, same_text, strip_prefix_text};

verus! {

/// What the phone's media player reports.
#[derive(Debug, Clone)]
pub struct MediaPlayerInfo {
    pub player: String,
    pub title: String,
    pub artist: String,
    pub album: String,
    pub is_playing: bool,
    pub length: i64,
    pub position: i64,
    pub volume: i32,
    pub can_pause: bool,
    pub can_play: bool,
    pub can_go_next: bool,
    pub can_go_previous: bool,
    pub can_seek: bool,
}

/// The media-player properties as read one by one; `None` where a read failed.
#[derive(Debug, Clone)]
pub struct MediaReads {
    pub player: Option<String>,
    pub title: Option<String>,
    pub artist: Option<String>,
    pub album: Option<String>,
    pub is_playing: Option<bool>,
    pub length: Option<i64>,
    pub position: Option<i64>,
    pub volume: Option<i32>,
    pub can_pause: Option<bool>,
    pub can_play: Option<bool>,
    pub can_go_next: Option<bool>,
    pub can_go_previous: Option<bool>,
    pub can_seek: Option<bool>,
}

/// The text held, or `default` when there is none.
pub open spec fn text_or(o: Option<String>, default: Seq<char>) -> Seq<char> {
    match o {
        Some(s) => s@,
        None => default,
    }
}

/// The value held, or `default` when there is none.
pub open spec fn or_value<T>(o: Option<T>, default: T) -> T {
    match o {
        Some(v) => v,
        None => default,
    }
}

fn text_or_default(o: Option<String>, default: &str) -> (r: String)
    ensures
        r@ == text_or(o, default@),
{
    match o {
        Some(s) => s,
        None => default.to_string(),
    }
}

impl MediaPlayerInfo {
    /// Builds the player record from the properties read, each failed read
    /// taking its default: empty texts, not playing, zero length and position,
    /// volume 50, and every capability but seeking.
    pub fn from_reads(reads: MediaReads) -> (r: MediaPlayerInfo)
        ensures
            r.player@ == text_or(reads.player, Seq::empty()),
            r.title@ == text_or(reads.title, Seq::empty()),
            r.artist@ == text_or(reads.artist, Seq::empty()),
            r.album@ == text_or(reads.album, Seq::empty()),
            r.is_playing == or_value(reads.is_playing, false),
            r.length == or_value(reads.length, 0),
            r.position == or_value(reads.position, 0),
            r.volume == or_value(reads.volume, 50),
            r.can_pause == or_value(reads.can_pause, true),
            r.can_play == or_value(reads.can_play, true),
            r.can_go_next == or_value(reads.can_go_next, true),
            r.can_go_previous == or_value(reads.can_go_previous, true),
            r.can_seek == or_value(reads.can_seek, false),
    {
        proof {
            reveal_strlit("");
        }
        MediaPlayerInfo {
            player: text_or_default(reads.player, ""),
            title: text_or_default(reads.title, ""),
            artist: text_or_default(reads.artist, ""),
            album: text_or_default(reads.album, ""),
            is_playing: match reads.is_playing {
                Some(v) => v,
                None => false,
            },
            length: match reads.length {
                Some(v) => v,
                None => 0,
            },
            position: match reads.position {
                Some(v) => v,
                None => 0,
            },
            volume: match reads.volume {
                Some(v) => v,
                None => 50,
            },
            can_pause: match reads.can_pause {
                Some(v) => v,
                None => true,
            },
            can_play: match reads.can_play {
                Some(v) => v,
                None => true,
            },
            can_go_next: match reads.can_go_next {
                Some(v) => v,
                None => true,
            },
            can_go_previous: match reads.can_go_previous {
                Some(v) => v,
                None => true,
            },
            can_seek: match reads.can_seek {
                Some(v) => v,
                None => false,
            },
        }
    }

    /// A field-for-field copy.
    pub fn duplicate(&self) -> (r: MediaPlayerInfo)
        ensures
            r == *self,
    {
        MediaPlayerInfo {
            player: self.player.clone(),
            title: self.title.clone(),
            artist: self.artist.clone(),
            album: self.album.clone(),
            is_playing: self.is_playing,
            length: self.length,
            position: self.position,
            volume: self.volume,
            can_pause: self.can_pause,
            can_play: self.can_play,
            can_go_next: self.can_go_next,
            can_go_previous: self.can_go_previous,
            can_seek: self.can_seek,
        }
    }
}

/// A copy of an optional player record.
pub fn duplicate_media(info: &Option<MediaPlayerInfo>) -> (r: Option<MediaPlayerInfo>)
    ensures
        r == *info,
{
    match info {
        Some(i) => Some(i.duplicate()),
        None => None,
    }
}

/// A copy of an optional text.
pub fn duplicate_text(t: &Option<String>) -> (r: Option<String>)
    ensures
        r == *t,
{
    match t {
        Some(s) => Some(s.clone()),
        None => None,
    }
}

/// A copy of a list of texts.
pub fn duplicate_texts(v: &Vec<String>) -> (r: Vec<String>)
    ensures
        r@ == v@,
{
    let r = v.clone();
    assert(r@ =~= v@);
    r
}

/// A paired or reachable device as this client knows it: the daemon-reported
/// fields of the latest snapshot, and the media-session fields kept locally.
#[derive(Debug, Clone)]
pub struct Device {
    pub id: String,
    pub name: String,
    pub device_type: String,
    pub is_reachable: bool,
    pub is_paired: bool,
    pub battery_level: Option<i32>,
    pub is_charging: Option<bool>,
    pub has_battery: bool,
    pub has_ping: bool,
    pub has_share: bool,
    pub has_findmyphone: bool,
    pub has_sms: bool,
    pub has_clipboard: bool,
    pub has_contacts: bool,
    pub has_mpris: bool,
    pub has_remote_keyboard: bool,
    pub has_sftp: bool,
    pub has_presenter: bool,
    pub has_lockdevice: bool,
    pub has_virtualmonitor: bool,
    pub pairing_requests: i32,
    pub signal_strength: Option<i32>,
    pub network_type: Option<String>,
    pub available_players: Vec<String>,
    pub current_player: Option<String>,
    pub media_info: Option<MediaPlayerInfo>,
}

/// One device's properties as read from the daemon; `None` where a read
/// failed. `plugins` names the capability plugins the daemon reported present.
#[derive(Debug, Clone)]
pub struct DeviceReads {
    pub name: Option<String>,
    pub device_type: Option<String>,
    pub is_reachable: Option<bool>,
    pub is_paired: Option<bool>,
    pub plugins: Vec<String>,
    pub battery_charge: Option<i32>,
    pub battery_charging: Option<bool>,
    pub signal_strength: Option<i32>,
    pub network_type: Option<String>,
    pub pairing_requests: Option<i32>,
}

/// The capability plugins a snapshot asks the daemon about, in asking order.
pub open spec fn capability_plugin_names() -> Seq<Seq<char>> {
    seq![
        "kdeconnect_battery"@,
        "kdeconnect_ping"@,
        "kdeconnect_share"@,
        "kdeconnect_findmyphone"@,
        "kdeconnect_sms"@,
        "kdeconnect_clipboard"@,
        "kdeconnect_contacts"@,
        "kdeconnect_mprisremote"@,
        "kdeconnect_remotekeyboard"@,
        "kdeconnect_sftp"@,
        "kdeconnect_presenter"@,
        "kdeconnect_lockdevice"@,
        "kdeconnect_virtualmonitor"@,
        "kdeconnect_connectivity_report"@,
    ]
}

/// The capability plugins to ask the daemon about for each device.
pub fn capability_plugins() -> (r: Vec<&'static str>)
    ensures
        r@.map_values(|s: &str| s@) == capability_plugin_names(),
{
    let r = vec![
        "kdeconnect_battery",
        "kdeconnect_ping",
        "kdeconnect_share",
        "kdeconnect_findmyphone",
        "kdeconnect_sms",
        "kdeconnect_clipboard",
        "kdeconnect_contacts",
        "kdeconnect_mprisremote",
        "kdeconnect_remotekeyboard",
        "kdeconnect_sftp",
        "kdeconnect_presenter",
        "kdeconnect_lockdevice",
        "kdeconnect_virtualmonitor",
        "kdeconnect_connectivity_report",
    ];
    assert(r@.map_values(|s: &str| s@) =~= capability_plugin_names());
    r
}

/// Whether `name` is among `names`.
pub open spec fn listed(names: Seq<String>, name: Seq<char>) -> bool {
    exists|i: int| 0 <= i < names.len() && #[trigger] names[i]@ == name
}

/// Whether `name` is among `names`.
pub fn is_listed(names: &Vec<String>, name: &str) -> (r: bool)
    ensures
        r == listed(names@, name@),
{
    let mut i: usize = 0;
    while i < names.len()
        invariant
            i <= names@.len(),
            forall|j: int| 0 <= j < i ==> #[trigger] names@[j]@ != name@,
        decreases names@.len() - i,
    {
        if same_text(names[i].as_str(), name) {
            return true;
        }
        i = i + 1;
    }
    false
}

/// Builds the device record of one snapshot. A failed name read gives
/// "Unknown", a failed type read "phone", a failed flag read `false`, a failed
/// pairing-request count 0. Battery values are kept only when the battery
/// plugin is present, signal values only when the connectivity-report plugin
/// is; the media-session fields start empty.
pub fn build_device(id: String, reads: DeviceReads) -> (r: Device)
    ensures
        r.id == id,
        r.name@ == text_or(reads.name, "Unknown"@),
        r.device_type@ == text_or(reads.device_type, "phone"@),
        r.is_reachable == or_value(reads.is_reachable, false),
        r.is_paired == or_value(reads.is_paired, false),
        r.has_battery == listed(reads.plugins@, "kdeconnect_battery"@),
        r.has_ping == listed(reads.plugins@, "kdeconnect_ping"@),
        r.has_share == listed(reads.plugins@, "kdeconnect_share"@),
        r.has_findmyphone == listed(reads.plugins@, "kdeconnect_findmyphone"@),
        r.has_sms == listed(reads.plugins@, "kdeconnect_sms"@),
        r.has_clipboard == listed(reads.plugins@, "kdeconnect_clipboard"@),
        r.has_contacts == listed(reads.plugins@, "kdeconnect_contacts"@),
        r.has_mpris == listed(reads.plugins@, "kdeconnect_mprisremote"@),
        r.has_remote_keyboard == listed(reads.plugins@, "kdeconnect_remotekeyboard"@),
        r.has_sftp == listed(reads.plugins@, "kdeconnect_sftp"@),
        r.has_presenter == listed(reads.plugins@, "kdeconnect_presenter"@),
        r.has_lockdevice == listed(reads.plugins@, "kdeconnect_lockdevice"@),
        r.has_virtualmonitor == listed(reads.plugins@, "kdeconnect_virtualmonitor"@),
        r.battery_level == (if r.has_battery {
            reads.battery_charge
        } else {
            None
        }),
        r.is_charging == (if r.has_battery {
            reads.battery_charging
        } else {
            None
        }),
        r.signal_strength == (if listed(reads.plugins@, "kdeconnect_connectivity_report"@) {
            reads.signal_strength
        } else {
            None
        }),
        r.network_type == (if listed(reads.plugins@, "kdeconnect_connectivity_report"@) {
            reads.network_type
        } else {
            None
        }),
        r.pairing_requests == or_value(reads.pairing_requests, 0),
        r.available_players@.len() == 0,
        r.current_player is None,
        r.media_info is None,
{
    let plugins = &reads.plugins;
    let has_battery = is_listed(plugins, "kdeconnect_battery");
    let has_connectivity = is_listed(plugins, "kdeconnect_connectivity_report");
    let (battery_level, is_charging) = if has_battery {
        (reads.battery_charge, reads.battery_charging)
    } else {
        (None, None)
    };
    let (signal_strength, network_type) = if has_connectivity {
        (reads.signal_strength, reads.network_type)
    } else {
        (None, None)
    };
    Device {
        id,
        name: text_or_default(reads.name, "Unknown"),
        device_type: text_or_default(reads.device_type, "phone"),
        is_reachable: match reads.is_reachable {
            Some(v) => v,
            None => false,
        },
        is_paired: match reads.is_paired {
            Some(v) => v,
            None => false,
        },
        battery_level,
        is_charging,
        has_battery,
        has_ping: is_listed(plugins, "kdeconnect_ping"),
        has_share: is_listed(plugins, "kdeconnect_share"),
        has_findmyphone: is_listed(plugins, "kdeconnect_findmyphone"),
        has_sms: is_listed(plugins, "kdeconnect_sms"),
        has_clipboard: is_listed(plugins, "kdeconnect_clipboard"),
        has_contacts: is_listed(plugins, "kdeconnect_contacts"),
        has_mpris: is_listed(plugins, "kdeconnect_mprisremote"),
        has_remote_keyboard: is_listed(plugins, "kdeconnect_remotekeyboard"),
        has_sftp: is_listed(plugins, "kdeconnect_sftp"),
        has_presenter: is_listed(plugins, "kdeconnect_presenter"),
        has_lockdevice: is_listed(plugins, "kdeconnect_lockdevice"),
        has_virtualmonitor: is_listed(plugins, "kdeconnect_virtualmonitor"),
        pairing_requests: match reads.pairing_requests {
            Some(v) => v,
            None => 0,
        },
        signal_strength,
        network_type,
        available_players: Vec::new(),
        current_player: None,
        media_info: None,
    }
}

/// The daemon-reported fields of `a` and `b` agree.
pub open spec fn same_snapshot(a: Device, b: Device) -> bool {
    &&& a.id@ == b.id@
    &&& a.name@ == b.name@
    &&& a.device_type@ == b.device_type@
    &&& a.is_reachable == b.is_reachable
    &&& a.is_paired == b.is_paired
    &&& a.battery_level == b.battery_level
    &&& a.is_charging == b.is_charging
    &&& a.has_battery == b.has_battery
    &&& a.has_ping == b.has_ping
    &&& a.has_share == b.has_share
    &&& a.has_findmyphone == b.has_findmyphone
    &&& a.has_sms == b.has_sms
    &&& a.has_clipboard == b.has_clipboard
    &&& a.has_contacts == b.has_contacts
    &&& a.has_mpris == b.has_mpris
    &&& a.has_remote_keyboard == b.has_remote_keyboard
    &&& a.has_sftp == b.has_sftp
    &&& a.has_presenter == b.has_presenter
    &&& a.has_lockdevice == b.has_lockdevice
    &&& a.has_virtualmonitor == b.has_virtualmonitor
    &&& a.pairing_requests == b.pairing_requests
    &&& a.signal_strength == b.signal_strength
    &&& a.network_type == b.network_type
}

/// The media-session fields of `a` and `b` agree.
pub open spec fn same_session(a: Device, b: Device) -> bool {
    &&& a.available_players@ == b.available_players@
    &&& a.current_player == b.current_player
    &&& a.media_info == b.media_info
}

/// `a` and `b` hold the same values in every field.
pub open spec fn same_device(a: Device, b: Device) -> bool {
    same_snapshot(a, b) && same_session(a, b)
}

impl Device {
    /// A field-for-field copy.
    pub fn duplicate(&self) -> (r: Device)
        ensures
            same_device(r, *self),
    {
        Device {
            id: self.id.clone(),
            name: self.name.clone(),
            device_type: self.device_type.clone(),
            is_reachable: self.is_reachable,
            is_paired: self.is_paired,
            battery_level: self.battery_level,
            is_charging: self.is_charging,
            has_battery: self.has_battery,
            has_ping: self.has_ping,
            has_share: self.has_share,
            has_findmyphone: self.has_findmyphone,
            has_sms: self.has_sms,
            has_clipboard: self.has_clipboard,
            has_contacts: self.has_contacts,
            has_mpris: self.has_mpris,
            has_remote_keyboard: self.has_remote_keyboard,
            has_sftp: self.has_sftp,
            has_presenter: self.has_presenter,
            has_lockdevice: self.has_lockdevice,
            has_virtualmonitor: self.has_virtualmonitor,
            pairing_requests: self.pairing_requests,
            signal_strength: self.signal_strength,
            network_type: duplicate_text(&self.network_type),
            available_players: duplicate_texts(&self.available_players),
            current_player: duplicate_text(&self.current_player),
            media_info: duplicate_media(&self.media_info),
        }
    }
}

/// A list of devices read as a map from id to device; of two entries with one
/// id the later one stands.
pub open spec fn keyed(s: Seq<Device>) -> Map<Seq<char>, Device>
    decreases s.len(),
{
    if s.len() == 0 {
        Map::empty()
    } else {
        keyed(s.drop_last()).insert(s.last().id@, s.last())
    }
}

/// No two entries of `s` share an id.
pub open spec fn unique_ids(s: Seq<Device>) -> bool {
    forall|a: int, b: int|
        0 <= a < s.len() && 0 <= b < s.len() && a != b ==> #[trigger] s[a].id@ != #[trigger] s[b].id@
}

/// What a merge makes of the fresh record `f` of id `k`: its snapshot fields,
/// and the session fields of the previous record of that id if there was one.
pub open spec fn carried(m: Device, f: Device, previous: Map<Seq<char>, Device>, k: Seq<char>) -> bool {
    &&& same_snapshot(m, f)
    &&& if previous.contains_key(k) {
        same_session(m, previous[k])
    } else {
        same_session(m, f)
    }
}

/// The entries of `s` hold exactly the keys of `keyed(s)`, and with unique ids
/// each entry is the value of its key.
pub proof fn lemma_keyed(s: Seq<Device>)
    ensures
        forall|k: Seq<char>| #[trigger]
            keyed(s).contains_key(k) <==> exists|a: int| 0 <= a < s.len() && s[a].id@ == k,
        unique_ids(s) ==> forall|a: int| 0 <= a < s.len() ==> #[trigger] keyed(s)[s[a].id@] == s[a],
    decreases s.len(),
{
    if s.len() > 0 {
        let t = s.drop_last();
        lemma_keyed(t);
        assert forall|k: Seq<char>| #[trigger]
            keyed(s).contains_key(k) <==> exists|a: int| 0 <= a < s.len() && s[a].id@ == k by {
            assert(keyed(s) == keyed(t).insert(s.last().id@, s.last()));
            if keyed(s).contains_key(k) && k != s.last().id@ {
                assert(keyed(t).contains_key(k));
                let a = choose|a: int| 0 <= a < t.len() && t[a].id@ == k;
                assert(s[a] == t[a]);
            }
            if exists|a: int| 0 <= a < s.len() && s[a].id@ == k {
                let a = choose|a: int| 0 <= a < s.len() && s[a].id@ == k;
                if a < t.len() {
                    assert(t[a] == s[a]);
                }
            }
        }
        if unique_ids(s) {
            assert(unique_ids(t)) by {
                assert forall|a: int, b: int|
                    0 <= a < t.len() && 0 <= b < t.len() && a != b implies #[trigger] t[a].id@
                    != #[trigger] t[b].id@ by {
                    assert(t[a] == s[a] && t[b] == s[b]);
                }
            }
            assert forall|a: int| 0 <= a < s.len() implies #[trigger] keyed(s)[s[a].id@] == s[a] by {
                assert(keyed(s) == keyed(t).insert(s.last().id@, s.last()));
                if a < t.len() {
                    assert(t[a] == s[a]);
                    assert(s[a].id@ != s[s.len() - 1].id@);
                    assert(keyed(t)[t[a].id@] == t[a]);
                }
            }
        }
    }
}

/// Devices keyed by id, with no two entries of one id.
pub struct DeviceMap {
    entries: Vec<Device>,
}

impl DeviceMap {
    #[verifier::type_invariant]
    spec fn inv(self) -> bool {
        unique_ids(self.entries@)
    }

    /// The devices by id.
    pub closed spec fn view(&self) -> Map<Seq<char>, Device> {
        keyed(self.entries@)
    }

    /// A map with no device.
    pub fn new() -> (r: DeviceMap)
        ensures
            r@ == Map::<Seq<char>, Device>::empty(),
    {
        DeviceMap { entries: Vec::new() }
    }

    /// The entries, one per id.
    pub fn devices(&self) -> (r: &Vec<Device>)
        ensures
            keyed(r@) == self@,
            unique_ids(r@),
    {
        proof {
            use_type_invariant(self);
        }
        &self.entries
    }

    /// The number of devices.
    pub fn len(&self) -> (r: usize)
        ensures
            r == self@.len(),
    {
        proof {
            use_type_invariant(self);
            lemma_keyed(self.entries@);
            lemma_unique_len(self.entries@);
        }
        self.entries.len()
    }

    /// Where the entry of id `id` stands.
    fn position(&self, id: &str) -> (r: Option<usize>)
        ensures
            r is Some <==> self@.contains_key(id@),
            r matches Some(i) ==> i < self.entries@.len() && self.entries@[i as int].id@ == id@
                && self@[id@] == self.entries@[i as int],
    {
        proof {
            use_type_invariant(self);
            lemma_keyed(self.entries@);
        }
        find_device(&self.entries, id)
    }

    /// The device of id `id`, if there is one.
    pub fn get(&self, id: &str) -> (r: Option<&Device>)
        ensures
            r is Some <==> self@.contains_key(id@),
            r matches Some(d) ==> *d == self@[id@],
    {
        match self.position(id) {
            Some(i) => Some(&self.entries[i]),
            None => None,
        }
    }
}

proof fn lemma_unique_len(s: Seq<Device>)
    requires
        unique_ids(s),
    ensures
        keyed(s).len() == s.len(),
        keyed(s).dom().finite(),
    decreases s.len(),
{
    if s.len() > 0 {
        let t = s.drop_last();
        assert(unique_ids(t)) by {
            assert forall|a: int, b: int|
                0 <= a < t.len() && 0 <= b < t.len() && a != b implies #[trigger] t[a].id@
                != #[trigger] t[b].id@ by {
                assert(t[a] == s[a] && t[b] == s[b]);
            }
        }
        lemma_unique_len(t);
        lemma_keyed(t);
        if keyed(t).contains_key(s.last().id@) {
            let a = choose|a: int| 0 <= a < t.len() && t[a].id@ == s.last().id@;
            assert(s[a] == t[a]);
        }
    }
}

/// Some entry of `s` has id `k`.
pub open spec fn holds_id(s: Seq<Device>, k: Seq<char>) -> bool {
    exists|a: int| 0 <= a < s.len() && s[a].id@ == k
}

/// The first entry of `s` with id `id`.
fn find_device(s: &Vec<Device>, id: &str) -> (r: Option<usize>)
    ensures
        r is Some <==> holds_id(s@, id@),
        r matches Some(i) ==> i < s@.len() && s@[i as int].id@ == id@,
{
    let mut i: usize = 0;
    while i < s.len()
        invariant
            i <= s@.len(),
            forall|j: int| 0 <= j < i ==> #[trigger] s@[j].id@ != id@,
        decreases s@.len() - i,
    {
        if same_text(s[i].id.as_str(), id) {
            return Some(i);
        }
        i = i + 1;
    }
    None
}

/// The fresh record `d` with the session fields of the previous device of its
/// id, when there was one.
fn carry_session(previous: &DeviceMap, d: &Device) -> (m: Device)
    ensures
        carried(m, *d, previous@, d.id@),
{
    let mut m = d.duplicate();
    match previous.get(d.id.as_str()) {
        Some(p) => {
            m.available_players = duplicate_texts(&p.available_players);
            m.current_player = duplicate_text(&p.current_player);
            m.media_info = duplicate_media(&p.media_info);
        },
        None => {},
    }
    m
}

/// Stores `m` under its id, in place of the entry of that id if there is one.
fn put_device(out: &mut Vec<Device>, m: Device)
    requires
        unique_ids(old(out)@),
    ensures
        unique_ids(final(out)@),
        keyed(final(out)@) == keyed(old(out)@).insert(m.id@, m),
{
    let ghost before = out@;
    proof {
        lemma_keyed(before);
    }
    match find_device(out, m.id.as_str()) {
        Some(j) => {
            let ghost k = m.id@;
            out.set(j, m);
            assert forall|a: int, b: int|
                0 <= a < out@.len() && 0 <= b < out@.len() && a != b implies #[trigger] out@[a].id@
                != #[trigger] out@[b].id@ by {
                assert(before[a].id@ != before[b].id@);
            }
            proof {
                lemma_keyed(out@);
                assert forall|x: Seq<char>| #[trigger]
                    keyed(out@).contains_key(x) <==> keyed(before).insert(k, out@[j as int]).contains_key(x) by {
                    if holds_id(before, x) {
                        let a = choose|a: int| 0 <= a < before.len() && before[a].id@ == x;
                        assert(out@[a].id@ == x);
                    }
                    if holds_id(out@, x) {
                        let a = choose|a: int| 0 <= a < out@.len() && out@[a].id@ == x;
                        assert(before[a].id@ == x);
                    }
                }
                assert forall|x: Seq<char>| #[trigger] keyed(out@).contains_key(x) implies keyed(out@)[x]
                    == keyed(before).insert(k, out@[j as int])[x] by {
                    let a = choose|a: int| 0 <= a < out@.len() && out@[a].id@ == x;
                    assert(keyed(out@)[out@[a].id@] == out@[a]);
                    if a != j {
                        assert(before[a].id@ != before[j as int].id@);
                        assert(keyed(before)[before[a].id@] == before[a]);
                    }
                }
                assert(keyed(out@) =~= keyed(before).insert(k, out@[j as int]));
            }
        },
        None => {
            out.push(m);
            assert forall|a: int, b: int|
                0 <= a < out@.len() && 0 <= b < out@.len() && a != b implies #[trigger] out@[a].id@
                != #[trigger] out@[b].id@ by {
                if a < before.len() && b < before.len() {
                    assert(before[a].id@ != before[b].id@);
                } else if a < before.len() {
                    assert(out@[a] == before[a]);
                } else {
                    assert(out@[b] == before[b]);
                }
            }
            assert(out@.drop_last() =~= before);
        },
    }
}

/// Merges a fresh snapshot into the previous device map. The result holds
/// exactly the ids of `fresh` (of two records with one id the later stands);
/// each device has its fresh daemon-reported fields, and keeps the
/// available players, current player and media info of the previous device
/// of its id when there was one.
pub fn merge(previous: &DeviceMap, fresh: Vec<Device>) -> (r: DeviceMap)
    ensures
        r@.dom() == keyed(fresh@).dom(),
        forall|k: Seq<char>| #[trigger]
            r@.contains_key(k) ==> carried(r@[k], keyed(fresh@)[k], previous@, k),
{
    let mut out: Vec<Device> = Vec::new();
    let mut i: usize = 0;
    while i < fresh.len()
        invariant
            i <= fresh@.len(),
            unique_ids(out@),
            keyed(out@).dom() == keyed(fresh@.subrange(0, i as int)).dom(),
            forall|k: Seq<char>| #[trigger]
                keyed(out@).contains_key(k) ==> carried(
                    keyed(out@)[k],
                    keyed(fresh@.subrange(0, i as int))[k],
                    previous@,
                    k,
                ),
        decreases fresh@.len() - i,
    {
        let m = carry_session(previous, &fresh[i]);
        let ghost prefix = fresh@.subrange(0, i as int);
        let ghost next = fresh@.subrange(0, i + 1);
        assert(next.drop_last() =~= prefix);
        put_device(&mut out, m);
        assert(keyed(next) == keyed(prefix).insert(fresh@[i as int].id@, fresh@[i as int]));
        assert(keyed(out@).dom() =~= keyed(next).dom());
        i = i + 1;
    }
    assert(fresh@.subrange(0, fresh@.len() as int) =~= fresh@);
    DeviceMap { entries: out }
}

/// A merge never loses media-session state: whenever the previous map and
/// the fresh snapshot share an id, the merged device keeps the previous media
/// info, available players and current player of that id.
pub proof fn lemma_merge_keeps_session(
    previous: Map<Seq<char>, Device>,
    fresh: Seq<Device>,
    merged: Map<Seq<char>, Device>,
    k: Seq<char>,
)
    requires
        merged.dom() == keyed(fresh).dom(),
        forall|x: Seq<char>| #[trigger]
            merged.contains_key(x) ==> carried(merged[x], keyed(fresh)[x], previous, x),
        previous.contains_key(k),
        keyed(fresh).contains_key(k),
    ensures
        merged[k].media_info == previous[k].media_info,
        merged[k].available_players@ == previous[k].available_players@,
        merged[k].current_player == previous[k].current_player,
{
    assert(merged.contains_key(k));
}

/// The current player after a media info update.
pub open spec fn player_after(info: Option<MediaPlayerInfo>, current: Option<String>) -> Option<String> {
    match info {
        Some(i) => if i.player@.len() > 0 {
            Some(i.player)
        } else {
            current
        },
        None => current,
    }
}

/// `d` with media info `info`, whose player, when named, becomes current.
fn with_media_info(d: &Device, info: Option<MediaPlayerInfo>) -> (r: Device)
    ensures
        same_snapshot(r, *d),
        r.available_players@ == d.available_players@,
        r.media_info == info,
        r.current_player == player_after(info, d.current_player),
{
    let mut r = d.duplicate();
    let player = match &info {
        Some(inf) => if inf.player.as_str().unicode_len() > 0 {
            Some(inf.player.clone())
        } else {
            None
        },
        None => None,
    };
    r.media_info = info;
    match player {
        Some(p) => {
            r.current_player = Some(p);
        },
        None => {},
    }
    r
}

impl DeviceMap {
    /// Replaces the media info of device `id`; a reported player name that is
    /// not empty also becomes its current player. Other devices, and every
    /// other field, stay as they were; an unknown id changes nothing.
    pub fn set_media_info(&mut self, id: &str, info: Option<MediaPlayerInfo>)
        ensures
            !old(self)@.contains_key(id@) ==> final(self)@ == old(self)@,
            old(self)@.contains_key(id@) ==> final(self)@ == old(self)@.insert(
                id@,
                final(self)@[id@],
            ),
            old(self)@.contains_key(id@) ==> {
                let before = old(self)@[id@];
                let after = final(self)@[id@];
                &&& same_snapshot(after, before)
                &&& after.available_players@ == before.available_players@
                &&& after.media_info == info
                &&& after.current_player == player_after(info, before.current_player)
            },
    {
        proof {
            use_type_invariant(&*self);
        }
        match self.position(id) {
            Some(i) => {
                let d = with_media_info(&self.entries[i], info);
                let mut entries: Vec<Device> = Vec::new();
                std::mem::swap(&mut self.entries, &mut entries);
                put_device(&mut entries, d);
                self.entries = entries;
            },
            None => {},
        }
    }

    /// Replaces the list of media players of device `id`. Other devices, and
    /// every other field, stay as they were; an unknown id changes nothing.
    pub fn set_players(&mut self, id: &str, players: Vec<String>)
        ensures
            !old(self)@.contains_key(id@) ==> final(self)@ == old(self)@,
            old(self)@.contains_key(id@) ==> final(self)@ == old(self)@.insert(
                id@,
                final(self)@[id@],
            ),
            old(self)@.contains_key(id@) ==> {
                let before = old(self)@[id@];
                let after = final(self)@[id@];
                &&& same_snapshot(after, before)
                &&& after.available_players@ == players@
                &&& after.media_info == before.media_info
                &&& after.current_player == before.current_player
            },
    {
        proof {
            use_type_invariant(&*self);
        }
        match self.position(id) {
            Some(i) => {
                let mut d = self.entries[i].duplicate();
                d.available_players = players;
                let mut entries: Vec<Device> = Vec::new();
                std::mem::swap(&mut self.entries, &mut entries);
                put_device(&mut entries, d);
                self.entries = entries;
            },
            None => {},
        }
    }

    /// The ids of the devices whose media players can be queried: reachable,
    /// paired, and with the media-remote plugin.
    pub fn media_capable_ids(&self) -> (r: Vec<String>)
        ensures
            forall|k: Seq<char>|
                #![trigger listed(r@, k)]
                listed(r@, k) <==> (self@.contains_key(k) && self@[k].has_mpris
                    && self@[k].is_reachable && self@[k].is_paired),
    {
        proof {
            use_type_invariant(self);
            lemma_keyed(self.entries@);
        }
        let ghost s = self.entries@;
        let mut r: Vec<String> = Vec::new();
        let mut i: usize = 0;
        while i < self.entries.len()
            invariant
                s == self.entries@,
                unique_ids(s),
                i <= s.len(),
                forall|a: int| 0 <= a < s.len() ==> #[trigger] keyed(s)[s[a].id@] == s[a],
                forall|k: Seq<char>|
                    #![trigger listed(r@, k)]
                    listed(r@, k) <==> exists|a: int|
                        0 <= a < i && s[a].id@ == k && s[a].has_mpris && s[a].is_reachable
                            && s[a].is_paired,
            decreases s.len() - i,
        {
            let d = &self.entries[i];
            let ghost before = r@;
            if d.has_mpris && d.is_reachable && d.is_paired {
                r.push(d.id.clone());
                assert forall|k: Seq<char>| #![trigger listed(r@, k)] listed(r@, k) <==> (listed(before, k)
                    || k == d.id@) by {
                    if listed(r@, k) {
                        let j = choose|j: int| 0 <= j < r@.len() && #[trigger] r@[j]@ == k;
                        if j < before.len() {
                            assert(before[j] == r@[j]);
                        }
                    }
                    if listed(before, k) {
                        let j = choose|j: int| 0 <= j < before.len() && #[trigger] before[j]@ == k;
                        assert(r@[j] == before[j]);
                    }
                    if k == d.id@ {
                        assert(r@[before.len() as int]@ == k);
                    }
                }
            }
            i = i + 1;
        }
        proof {
            assert forall|k: Seq<char>| #![trigger listed(r@, k)] listed(r@, k) <==> (self@.contains_key(k)
                && self@[k].has_mpris && self@[k].is_reachable && self@[k].is_paired) by {
                if self@.contains_key(k) {
                    let a = choose|a: int| 0 <= a < s.len() && s[a].id@ == k;
                    assert(keyed(s)[s[a].id@] == s[a]);
                }
            }
        }
        r
    }
}

/// The volume one step up: ten more, at most 100.
pub fn volume_up(volume: i32) -> (r: i32)
    ensures
        r == (if volume + 10 < 100 {
            volume + 10
        } else {
            100
        }),
{
    if volume < 90 {
        volume + 10
    } else {
        100
    }
}

/// The volume one step down: ten less, at least 0.
pub fn volume_down(volume: i32) -> (r: i32)
    ensures
        r == (if volume - 10 > 0 {
            volume - 10
        } else {
            0
        }),
{
    if volume > 10 {
        volume - 10
    } else {
        0
    }
}

/// A volume brought into the range 0 to 100.
pub fn clamp_volume(volume: i32) -> (r: i32)
    ensures
        r == (if volume < 0 {
            0
        } else if volume > 100 {
            100
        } else {
            volume
        }),
{
    if volume < 0 {
        0
    } else if volume > 100 {
        100
    } else {
        volume
    }
}

/// The daemon's object path of device `device_id`.
pub open spec fn device_path_of(device_id: Seq<char>) -> Seq<char> {
    "/modules/kdeconnect/devices/"@ + device_id
}

/// The daemon's object path of device `device_id`.
pub fn device_path(device_id: &str) -> (r: String)
    ensures
        r@ == device_path_of(device_id@),
{
    joined("/modules/kdeconnect/devices/", device_id)
}

/// The daemon's object path of plugin `plugin` of device `device_id`.
pub fn plugin_path(device_id: &str, plugin: &str) -> (r: String)
    ensures
        r@ == device_path_of(device_id@) + "/"@ + plugin@,
{
    let mut r = device_path(device_id);
    r.append("/");
    r.append(plugin);
    r
}

/// The URL a file is shared by: the path itself when it already is a
/// `file://` URL, else the path behind that scheme.
pub fn file_url(path: &str) -> (r: String)
    ensures
        begins_with(path@, "file://"@) ==> r@ == path@,
        !begins_with(path@, "file://"@) ==> r@ == "file://"@ + path@,
{
    match strip_prefix_text(path, "file://") {
        Some(_) => path.to_string(),
        None => joined("file://", path),
    }
}

} // verus!
