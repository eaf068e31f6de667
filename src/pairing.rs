//! Pairing-request detection. In signal mode every report of the state
//! "requested by peer" is announced; in polling mode a remembered flag per
//! device makes each false-to-true edge of "peer requested pairing" announce
//! once, however long the request stays pending.

use vstd::prelude::*;
use crate::text::{last_path_segment, last_segment, same_text};

verus! {

/// The pairing relationship between this host and a device, as the daemon
/// reports it.
#[derive(Debug, Clone, Copy, PartialEq, Eq, Structural)]
pub enum PairState {
    NotPaired,
    RequestedByUs,
    RequestedByPeer,
    Paired,
}

/// The state of a daemon state code: 0 to 3 in the order of [`PairState`].
pub open spec fn state_of_code(code: i32) -> Option<PairState> {
    if code == 0 {
        Some(PairState::NotPaired)
    } else if code == 1 {
        Some(PairState::RequestedByUs)
    } else if code == 2 {
        Some(PairState::RequestedByPeer)
    } else if code == 3 {
        Some(PairState::Paired)
    } else {
        None
    }
}

/// The state of a daemon state code, if the code is one.
pub fn pair_state_from_code(code: i32) -> (r: Option<PairState>)
    ensures
        r == state_of_code(code),
{
    if code == 0 {
        Some(PairState::NotPaired)
    } else if code == 1 {
        Some(PairState::RequestedByUs)
    } else if code == 2 {
        Some(PairState::RequestedByPeer)
    } else if code == 3 {
        Some(PairState::Paired)
    } else {
        None
    }
}

/// A device asks to pair; announced once to the user interface.
#[derive(Debug, Clone)]
pub struct PairingNotification {
    pub device_id: String,
    pub device_name: String,
    pub device_type: String,
}

impl PairingNotification {
    /// The announcement for device `device_id`, with its name and type as read;
    /// an unreadable name reads "Unknown Device", an unreadable type "unknown".
    pub fn from_info(device_id: String, name: Option<String>, device_type: Option<String>) -> (r: PairingNotification)
        ensures
            r.device_id == device_id,
            r.device_name@ == (match name {
                Some(n) => n@,
                None => "Unknown Device"@,
            }),
            r.device_type@ == (match device_type {
                Some(t) => t@,
                None => "unknown"@,
            }),
    {
        PairingNotification {
            device_id,
            device_name: match name {
                Some(n) => n,
                None => "Unknown Device".to_string(),
            },
            device_type: match device_type {
                Some(t) => t,
                None => "unknown".to_string(),
            },
        }
    }
}

/// The device id of a device object path: its last segment.
pub fn extract_device_id_from_path(path: &str) -> (r: String)
    ensures
        r@ == last_segment(path@),
{
    last_path_segment(path)
}

/// What a pair-state-changed signal from object `path` with state code
/// `code` asks for: the id of the device to announce when the new state is
/// "requested by peer", nothing otherwise.
pub fn pairing_signal_target(path: &str, code: i32) -> (r: Option<String>)
    ensures
        state_of_code(code) == Some(PairState::RequestedByPeer) ==> (r matches Some(id) && id@
            == last_segment(path@)),
        state_of_code(code) != Some(PairState::RequestedByPeer) ==> r is None,
{
    match pair_state_from_code(code) {
        Some(PairState::RequestedByPeer) => Some(extract_device_id_from_path(path)),
        _ => None,
    }
}

/// The flag remembered for a device.
#[derive(Debug)]
pub struct KnownRequest {
    pub device_id: String,
    pub requesting: bool,
}

/// Remembered flags by device id; of two entries of one id the later stands.
pub open spec fn remembered(s: Seq<KnownRequest>) -> Map<Seq<char>, bool>
    decreases s.len(),
{
    if s.len() == 0 {
        Map::empty()
    } else {
        remembered(s.drop_last()).insert(s.last().device_id@, s.last().requesting)
    }
}

/// No two entries share a device id.
pub open spec fn one_entry_per_device(s: Seq<KnownRequest>) -> bool {
    forall|a: int, b: int|
        0 <= a < s.len() && 0 <= b < s.len() && a != b ==> #[trigger] s[a].device_id@
            != #[trigger] s[b].device_id@
}

/// Whether device `id` was last seen requesting to pair.
pub open spec fn was_requesting(known: Map<Seq<char>, bool>, id: Seq<char>) -> bool {
    known.contains_key(id) && known[id]
}

proof fn lemma_remembered(s: Seq<KnownRequest>)
    ensures
        forall|k: Seq<char>| #[trigger]
            remembered(s).contains_key(k) <==> exists|a: int| 0 <= a < s.len() && s[a].device_id@ == k,
        one_entry_per_device(s) ==> forall|a: int|
            0 <= a < s.len() ==> #[trigger] remembered(s)[s[a].device_id@] == s[a].requesting,
    decreases s.len(),
{
    if s.len() > 0 {
        let t = s.drop_last();
        lemma_remembered(t);
        assert(remembered(s) == remembered(t).insert(s.last().device_id@, s.last().requesting));
        assert forall|k: Seq<char>| #[trigger]
            remembered(s).contains_key(k) <==> exists|a: int| 0 <= a < s.len() && s[a].device_id@ == k by {
            if remembered(s).contains_key(k) && k != s.last().device_id@ {
                assert(remembered(t).contains_key(k));
                let a = choose|a: int| 0 <= a < t.len() && t[a].device_id@ == k;
                assert(s[a] == t[a]);
            }
            if exists|a: int| 0 <= a < s.len() && s[a].device_id@ == k {
                let a = choose|a: int| 0 <= a < s.len() && s[a].device_id@ == k;
                if a < t.len() {
                    assert(t[a] == s[a]);
                }
            }
        }
        if one_entry_per_device(s) {
            assert forall|a: int, b: int|
                0 <= a < t.len() && 0 <= b < t.len() && a != b implies #[trigger] t[a].device_id@
                != #[trigger] t[b].device_id@ by {
                assert(t[a] == s[a] && t[b] == s[b]);
            }
            assert forall|a: int| 0 <= a < s.len() implies #[trigger] remembered(s)[s[a].device_id@]
                == s[a].requesting by {
                if a < t.len() {
                    assert(t[a] == s[a]);
                    assert(s[a].device_id@ != s[s.len() - 1].device_id@);
                    assert(remembered(t)[t[a].device_id@] == t[a].requesting);
                }
            }
        }
    }
}

/// The polling mode's memory: whether each device was last seen requesting
/// to pair.
pub struct PairingTracker {
    known: Vec<KnownRequest>,
}

impl PairingTracker {
    #[verifier::type_invariant]
    spec fn inv(self) -> bool {
        one_entry_per_device(self.known@)
    }

    /// The remembered flag of each device seen so far.
    pub closed spec fn view(&self) -> Map<Seq<char>, bool> {
        remembered(self.known@)
    }

    /// A tracker that has seen no device.
    pub fn new() -> (r: PairingTracker)
        ensures
            r@ == Map::<Seq<char>, bool>::empty(),
    {
        PairingTracker { known: Vec::new() }
    }

    /// Records one poll of device `device_id`: `requesting` tells whether the
    /// peer now asks to pair. Returns whether to announce it, that is whether
    /// this is a false-to-true edge (a device never seen counts as not
    /// requesting).
    pub fn observe(&mut self, device_id: &str, requesting: bool) -> (r: bool)
        ensures
            r == (requesting && !was_requesting(old(self)@, device_id@)),
            final(self)@ == old(self)@.insert(device_id@, requesting),
    {
        proof {
            use_type_invariant(&*self);
            lemma_remembered(self.known@);
        }
        let ghost before = self.known@;
        let mut i: usize = 0;
        while i < self.known.len()
            invariant
                before == self.known@,
                before == old(self).known@,
                one_entry_per_device(before),
                i <= before.len(),
                forall|j: int| 0 <= j < i ==> #[trigger] before[j].device_id@ != device_id@,
            decreases before.len() - i,
        {
            if same_text(self.known[i].device_id.as_str(), device_id) {
                let was = self.known[i].requesting;
                let mut known: Vec<KnownRequest> = Vec::new();
                std::mem::swap(&mut self.known, &mut known);
                known.set(i, KnownRequest { device_id: device_id.to_string(), requesting });
                proof {
                    lemma_remembered(before);
                    assert(before[i as int].device_id@ == device_id@);
                    assert(remembered(before).contains_key(device_id@));
                    assert(remembered(before)[before[i as int].device_id@] == was);
                    assert forall|a: int, b: int|
                        0 <= a < known@.len() && 0 <= b < known@.len() && a != b implies #[trigger] known@[a].device_id@
                        != #[trigger] known@[b].device_id@ by {
                        assert(before[a].device_id@ != before[b].device_id@);
                    }
                    lemma_remembered(known@);
                    assert forall|k: Seq<char>| #[trigger] remembered(known@).contains_key(k) <==> remembered(
                        before,
                    ).insert(device_id@, requesting).contains_key(k) by {
                        if exists|a: int| 0 <= a < before.len() && before[a].device_id@ == k {
                            let a = choose|a: int| 0 <= a < before.len() && before[a].device_id@ == k;
                            assert(known@[a].device_id@ == k);
                        }
                        if exists|a: int| 0 <= a < known@.len() && known@[a].device_id@ == k {
                            let a = choose|a: int| 0 <= a < known@.len() && known@[a].device_id@ == k;
                            assert(before[a].device_id@ == k);
                        }
                    }
                    assert forall|k: Seq<char>| #[trigger] remembered(known@).contains_key(k) implies remembered(
                        known@,
                    )[k] == remembered(before).insert(device_id@, requesting)[k] by {
                        let a = choose|a: int| 0 <= a < known@.len() && known@[a].device_id@ == k;
                        assert(remembered(known@)[known@[a].device_id@] == known@[a].requesting);
                        if a != i {
                            assert(before[a].device_id@ != before[i as int].device_id@);
                            assert(remembered(before)[before[a].device_id@] == before[a].requesting);
                        }
                    }
                    assert(remembered(known@) =~= remembered(before).insert(device_id@, requesting));
                }
                self.known = known;
                assert(self@ == remembered(before).insert(device_id@, requesting));
                return requesting && !was;
            }
            i = i + 1;
        }
        let mut known: Vec<KnownRequest> = Vec::new();
        std::mem::swap(&mut self.known, &mut known);
        known.push(KnownRequest { device_id: device_id.to_string(), requesting });
        proof {
            assert(known@.drop_last() =~= before);
            assert forall|a: int, b: int|
                0 <= a < known@.len() && 0 <= b < known@.len() && a != b implies #[trigger] known@[a].device_id@
                != #[trigger] known@[b].device_id@ by {
                if a < before.len() && b < before.len() {
                    assert(before[a].device_id@ != before[b].device_id@);
                } else if a < before.len() {
                    assert(known@[a] == before[a]);
                } else {
                    assert(known@[b] == before[b]);
                }
            }
            lemma_remembered(before);
        }
        self.known = known;
        requesting
    }
}

/// What polling announces when one device's "peer requested pairing" flag is
/// read as `flags`, one poll after another, starting from memory `known`.
pub open spec fn poll_announcements(known: Map<Seq<char>, bool>, id: Seq<char>, flags: Seq<bool>) -> Seq<bool>
    decreases flags.len(),
{
    if flags.len() == 0 {
        Seq::empty()
    } else {
        seq![flags[0] && !was_requesting(known, id)] + poll_announcements(
            known.insert(id, flags[0]),
            id,
            flags.drop_first(),
        )
    }
}

/// Polling announces a pairing request exactly on each false-to-true edge of
/// the device's flag: at the poll where the flag reads true and, at the poll
/// before (or in memory, for the first), read false.
pub proof fn lemma_poll_announces_rising_edges(known: Map<Seq<char>, bool>, id: Seq<char>, flags: Seq<bool>)
    ensures
        poll_announcements(known, id, flags).len() == flags.len(),
        forall|i: int|
            0 <= i < flags.len() ==> #[trigger] poll_announcements(known, id, flags)[i] == (flags[i]
                && !(if i == 0 {
                was_requesting(known, id)
            } else {
                flags[i - 1]
            })),
    decreases flags.len(),
{
    if flags.len() > 0 {
        let rest = flags.drop_first();
        let next = known.insert(id, flags[0]);
        lemma_poll_announces_rising_edges(next, id, rest);
        assert forall|i: int| 0 <= i < flags.len() implies #[trigger] poll_announcements(known, id, flags)[i]
            == (flags[i] && !(if i == 0 {
            was_requesting(known, id)
        } else {
            flags[i - 1]
        })) by {
            if i > 0 {
                assert(poll_announcements(known, id, flags)[i] == poll_announcements(next, id, rest)[i - 1]);
                assert(rest[i - 1] == flags[i]);
                if i > 1 {
                    assert(rest[i - 2] == flags[i - 1]);
                }
            }
        }
    }
}

/// How the pairing watcher currently learns of requests.
#[derive(Debug, Clone, Copy, PartialEq, Eq, Structural)]
pub enum WatchMode {
    Signals,
    Polling,
    Stopped,
}

/// What happened to the watcher's event source.
#[derive(Debug, Clone, Copy, PartialEq, Eq, Structural)]
pub enum WatchOutcome {
    /// The signal subscription could not be set up.
    SubscriptionFailed,
    /// The signal stream ended.
    StreamEnded,
    /// Nobody listens to the announcements any more.
    ReceiverGone,
}

/// The mode the watcher starts in: polling when asked for, else signals.
pub fn initial_mode(use_polling: bool) -> (r: WatchMode)
    ensures
        r == (if use_polling {
            WatchMode::Polling
        } else {
            WatchMode::Signals
        }),
{
    if use_polling {
        WatchMode::Polling
    } else {
        WatchMode::Signals
    }
}

/// The mode after `outcome`: a failed subscription falls back to polling
/// for good; an ended signal stream, or a listener gone, stops the watcher.
pub fn next_mode(mode: WatchMode, outcome: WatchOutcome) -> (r: WatchMode)
    ensures
        outcome == WatchOutcome::ReceiverGone ==> r == WatchMode::Stopped,
        mode == WatchMode::Signals && outcome == WatchOutcome::SubscriptionFailed ==> r
            == WatchMode::Polling,
        mode == WatchMode::Signals && outcome == WatchOutcome::StreamEnded ==> r == WatchMode::Stopped,
        mode == WatchMode::Polling && outcome != WatchOutcome::ReceiverGone ==> r == WatchMode::Polling,
        mode == WatchMode::Stopped ==> r == WatchMode::Stopped,
{
    match (mode, outcome) {
        (_, WatchOutcome::ReceiverGone) => WatchMode::Stopped,
        (WatchMode::Signals, WatchOutcome::SubscriptionFailed) => WatchMode::Polling,
        (WatchMode::Signals, WatchOutcome::StreamEnded) => WatchMode::Stopped,
        (WatchMode::Polling, _) => WatchMode::Polling,
        (WatchMode::Stopped, _) => WatchMode::Stopped,
    }
}

} // verus!
