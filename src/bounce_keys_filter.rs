//! Bounce keys: an accessibility feature for users who cannot help pressing a key again right
//! after releasing it. A key press that follows the release of the same key too closely is
//! dropped, together with its release.

use crate::input::{KeyboardType, Source, SOURCE_KEYBOARD};
use crate::input_filter::{
    device_ids, is_device_present, lemma_device_ids_step, DeviceInfo, KeyEvent, KeyEventAction,
    VIRTUAL_KEYBOARD_DEVICE_ID,
};
use std::collections::{HashMap, HashSet};
use vstd::prelude::*;

verus! {

broadcast use vstd::std_specs::hash::group_hash_axioms;

/// The last key release of a device.
#[derive(Clone, Copy, Debug, PartialEq, Eq, Structural)]
pub struct LastUpKeyEvent {
    pub keycode: i32,
    pub event_time: i64,
}

/// A key press that was dropped, whose release is to be dropped too.
#[derive(Clone, Copy, Debug, PartialEq, Eq, Structural)]
pub struct BlockedEvent {
    pub device_id: i32,
    pub keycode: i32,
}

/// What the filter knows.
pub struct BounceKeysState {
    /// The last release of each device, until a press of another key or a late press.
    pub last_up: Map<i32, LastUpKeyEvent>,
    /// The dropped presses whose releases have not come yet, oldest first.
    pub blocked: Seq<BlockedEvent>,
    /// The devices that the filter applies to.
    pub supported: Set<i32>,
    /// How long after a release a press of the same key is dropped.
    pub threshold: i64,
}

/// `true` when a press comes too soon after the release `last` of the same key.
pub open spec fn is_bounce(last: LastUpKeyEvent, event: KeyEvent, threshold: i64) -> bool {
    event.key_code == last.keycode && (event.event_time as int) < last.event_time as int
        + threshold as int
}

/// The filter's state after a key event, and the event that it passes on (`None`: dropped).
pub open spec fn bounce_keys_transition(s: BounceKeysState, event: KeyEvent) -> (
    BounceKeysState,
    Option<KeyEvent>,
) {
    let device = event.device_id;
    if !(s.supported.contains(device) && event.source.spec_intersects(Source(SOURCE_KEYBOARD))) {
        (s, Some(event))
    } else {
        match event.action {
            KeyEventAction::Down => if !s.last_up.contains_key(device) {
                (s, Some(event))
            } else if is_bounce(s.last_up[device], event, s.threshold) {
                (
                    BounceKeysState {
                        last_up: s.last_up,
                        blocked: s.blocked.push(
                            BlockedEvent { device_id: device, keycode: event.key_code },
                        ),
                        supported: s.supported,
                        threshold: s.threshold,
                    },
                    None,
                )
            } else {
                (
                    BounceKeysState {
                        last_up: s.last_up.remove(device),
                        blocked: s.blocked,
                        supported: s.supported,
                        threshold: s.threshold,
                    },
                    Some(event),
                )
            },
            KeyEventAction::Up => {
                let last_up = s.last_up.insert(
                    device,
                    LastUpKeyEvent { keycode: event.key_code, event_time: event.event_time },
                );
                match s.blocked.index_of_first(
                    BlockedEvent { device_id: device, keycode: event.key_code },
                ) {
                    Some(i) => (
                        BounceKeysState {
                            last_up,
                            blocked: s.blocked.remove(i),
                            supported: s.supported,
                            threshold: s.threshold,
                        },
                        None,
                    ),
                    None => (
                        BounceKeysState {
                            last_up,
                            blocked: s.blocked,
                            supported: s.supported,
                            threshold: s.threshold,
                        },
                        Some(event),
                    ),
                }
            },
            KeyEventAction::Multiple => (s, Some(event)),
        }
    }
}

/// A press of the key that the same device released last is dropped when it comes within the
/// threshold of that release, and passed on when it comes later.
pub proof fn lemma_press_right_after_release_is_dropped(
    s: BounceKeysState,
    up: KeyEvent,
    down: KeyEvent,
)
    requires
        up.action == KeyEventAction::Up,
        down.action == KeyEventAction::Down,
        up.device_id == down.device_id,
        up.key_code == down.key_code,
        s.supported.contains(up.device_id),
        up.source.spec_intersects(Source(SOURCE_KEYBOARD)),
        down.source.spec_intersects(Source(SOURCE_KEYBOARD)),
    ensures
        ({
            let after_up = bounce_keys_transition(s, up).0;
            bounce_keys_transition(after_up, down).1 == if (down.event_time as int)
                < up.event_time as int + s.threshold as int {
                None
            } else {
                Some(down)
            }
        }),
{
}

/// `true` for the devices that bounce keys applies to: alphabetic keyboards, and the external
/// non-alphabetic ones, but not the virtual keyboard.
pub open spec fn is_supported_device(info: DeviceInfo) -> bool {
    &&& info.device_id != VIRTUAL_KEYBOARD_DEVICE_ID
    &&& info.keyboard_type != KeyboardType::NonKeyboard
    &&& (info.external || info.keyboard_type == KeyboardType::Alphabetic)
}

/// The ids of the supported devices of a list.
pub open spec fn supported_ids(devices: Seq<DeviceInfo>) -> Set<i32> {
    Set::new(
        |id: i32|
            exists|i: int|
                0 <= i < devices.len() && #[trigger] devices[i].device_id == id
                    && is_supported_device(devices[i]),
    )
}

/// The filter's state after the list of connected devices changed.
pub open spec fn bounce_keys_devices_changed(s: BounceKeysState, devices: Seq<DeviceInfo>) -> BounceKeysState {
    let present = device_ids(devices);
    BounceKeysState {
        last_up: s.last_up.restrict(present),
        blocked: s.blocked.filter(|b: BlockedEvent| present.contains(b.device_id)),
        supported: supported_ids(devices),
        threshold: s.threshold,
    }
}

/// The bounce keys filter.
pub struct BounceKeysFilter {
    key_event_map: HashMap<i32, LastUpKeyEvent>,
    blocked_events: Vec<BlockedEvent>,
    supported_devices: HashSet<i32>,
    bounce_key_threshold_ns: i64,
}

impl BounceKeysFilter {
    pub closed spec fn state(&self) -> BounceKeysState {
        BounceKeysState {
            last_up: self.key_event_map@,
            blocked: self.blocked_events@,
            supported: self.supported_devices@,
            threshold: self.bounce_key_threshold_ns,
        }
    }

    /// A filter that applies to no device yet, and drops a press that comes less than
    /// `bounce_key_threshold_ns` after the release of the same key.
    pub fn new(bounce_key_threshold_ns: i64) -> (r: BounceKeysFilter)
        ensures
            r.state().last_up.is_empty(),
            r.state().blocked.len() == 0,
            r.state().supported.is_empty(),
            r.state().threshold == bounce_key_threshold_ns,
    {
        BounceKeysFilter {
            key_event_map: HashMap::new(),
            blocked_events: Vec::new(),
            supported_devices: HashSet::new(),
            bounce_key_threshold_ns,
        }
    }

    /// Takes in a key event; returns the event to pass on to the next filter, or `None` when
    /// the event is dropped.
    pub fn notify_key(&mut self, event: &KeyEvent) -> (r: Option<KeyEvent>)
        ensures
            final(self).state() == bounce_keys_transition(old(self).state(), *event).0,
            r == bounce_keys_transition(old(self).state(), *event).1,
    {
        let device = event.device_id;
        if !(self.supported_devices.contains(&device) && event.source.intersects(
            Source(SOURCE_KEYBOARD),
        )) {
            return Some(*event);
        }
        match event.action {
            KeyEventAction::Down => {
                if !self.key_event_map.contains_key(&device) {
                    return Some(*event);
                }
                let last = match self.key_event_map.get(&device) {
                    Some(last_up_event) => *last_up_event,
                    None => LastUpKeyEvent { keycode: 0, event_time: 0 },
                };
                let bounce = event.key_code == last.keycode && (event.event_time as i128) < (
                last.event_time as i128) + (self.bounce_key_threshold_ns as i128);
                if bounce {
                    // The last release was too recent.
                    self.blocked_events.push(
                        BlockedEvent { device_id: device, keycode: event.key_code },
                    );
                } else {
                    self.key_event_map.remove(&device);
                    assert(self.key_event_map@ =~= old(self).key_event_map@.remove(device));
                }
                assert(self.state() == bounce_keys_transition(old(self).state(), *event).0);
                if bounce {
                    None
                } else {
                    Some(*event)
                }
            },
            KeyEventAction::Up => {
                self.key_event_map.insert(
                    device,
                    LastUpKeyEvent { keycode: event.key_code, event_time: event.event_time },
                );
                assert(self.key_event_map@ =~= old(self).key_event_map@.insert(
                    device,
                    LastUpKeyEvent { keycode: event.key_code, event_time: event.event_time },
                ));
                let blocked = BlockedEvent { device_id: device, keycode: event.key_code };
                proof {
                    self.blocked_events@.index_of_first_ensures(blocked);
                }
                match self.find_blocked(blocked) {
                    Some(index) => {
                        // The press was dropped: its release is dropped too.
                        self.blocked_events.remove(index);
                        None
                    },
                    None => {
                        Some(*event)
                    },
                }
            },
            KeyEventAction::Multiple => Some(*event),
        }
    }

    /// Appends a description of the filter to `dump_str`.
    pub fn dump(&self, dump_str: String) -> (r: String)
        ensures
            dump_str@.len() < r@.len(),
            r@.subrange(0, dump_str@.len() as int) == dump_str@,
    {
        let ghost start = dump_str@;
        let mut result = dump_str;
        result.append("Bounce Keys filter: \n\tthreshold = ");
        result.append(self.bounce_key_threshold_ns.to_string().as_str());
        result.append("ns\n\tsupported devices = ");
        result.append(self.supported_devices.len().to_string().as_str());
        result.append("\n\tblocked events = ");
        result.append(self.blocked_events.len().to_string().as_str());
        result.append("\n");
        proof {
            reveal_strlit("\n");
        }
        assert(result@.subrange(0, start.len() as int) =~= start);
        result
    }

    /// The position of the first dropped press equal to `blocked`.
    fn find_blocked(&self, blocked: BlockedEvent) -> (r: Option<usize>)
        ensures
            r matches Some(i) ==> i < self.blocked_events@.len(),
            match r {
                Some(i) => self.blocked_events@.index_of_first(blocked) == Some(i as int),
                None => self.blocked_events@.index_of_first(blocked) is None,
            },
    {
        proof {
            self.blocked_events@.index_of_first_ensures(blocked);
        }
        let mut i: usize = 0;
        while i < self.blocked_events.len()
            invariant
                i <= self.blocked_events@.len(),
                forall|j: int| 0 <= j < i ==> self.blocked_events@[j] != blocked,
            decreases self.blocked_events@.len() - i,
        {
            if self.blocked_events[i] == blocked {
                proof {
                    self.blocked_events@.index_of_first_ensures(blocked);
                    let first = self.blocked_events@.index_of_first(blocked).unwrap();
                    assert(first == i as int);
                }
                return Some(i);
            }
            i = i + 1;
        }
        proof {
            self.blocked_events@.index_of_first_ensures(blocked);
            if self.blocked_events@.contains(blocked) {
                let k = choose|k: int|
                    0 <= k < self.blocked_events@.len() && self.blocked_events@[k] == blocked;
                assert(self.blocked_events@[k] != blocked);
            }
        }
        None
    }

    /// Takes in the new list of connected devices: forgets the devices that left, and works
    /// out anew which devices the filter applies to.
    pub fn notify_devices_changed(&mut self, device_infos: &[DeviceInfo])
        ensures
            final(self).state() == bounce_keys_devices_changed(old(self).state(), device_infos@),
    {
        let ghost present = device_ids(device_infos@);
        // Last releases of the devices that are still present.
        let mut key_event_map: HashMap<i32, LastUpKeyEvent> = HashMap::new();
        let mut i: usize = 0;
        while i < device_infos.len()
            invariant
                i <= device_infos@.len(),
                key_event_map@ == self.key_event_map@.restrict(
                    device_ids(device_infos@.subrange(0, i as int)),
                ),
            decreases device_infos@.len() - i,
        {
            let id = device_infos[i].device_id;
            proof {
                lemma_device_ids_step(device_infos@, i as int);
            }
            match self.key_event_map.get(&id) {
                Some(last) => {
                    key_event_map.insert(id, *last);
                },
                None => {},
            }
            assert(key_event_map@ =~= self.key_event_map@.restrict(
                device_ids(device_infos@.subrange(0, i + 1)),
            ));
            i = i + 1;
        }
        assert(device_infos@.subrange(0, i as int) =~= device_infos@);
        // Dropped presses of the devices that are still present.
        let ghost keep = |b: BlockedEvent| present.contains(b.device_id);
        let mut blocked_events: Vec<BlockedEvent> = Vec::new();
        let mut j: usize = 0;
        while j < self.blocked_events.len()
            invariant
                j <= self.blocked_events@.len(),
                present == device_ids(device_infos@),
                keep == (|b: BlockedEvent| present.contains(b.device_id)),
                blocked_events@ == self.blocked_events@.subrange(0, j as int).filter(keep),
            decreases self.blocked_events@.len() - j,
        {
            let b = self.blocked_events[j];
            let ghost before = self.blocked_events@.subrange(0, j as int);
            let ghost after = self.blocked_events@.subrange(0, j + 1);
            assert(after.drop_last() =~= before);
            assert(after.last() == b);
            proof {
                reveal(Seq::filter);
            }
            if is_device_present(device_infos, b.device_id) {
                blocked_events.push(b);
                assert(after.filter(keep) == before.filter(keep).push(b));
            } else {
                assert(after.filter(keep) == before.filter(keep));
            }
            j = j + 1;
        }
        assert(self.blocked_events@.subrange(0, j as int) =~= self.blocked_events@);
        // The supported devices.
        let mut supported_devices: HashSet<i32> = HashSet::new();
        let mut k: usize = 0;
        while k < device_infos.len()
            invariant
                k <= device_infos@.len(),
                supported_devices@ == supported_ids(device_infos@.subrange(0, k as int)),
            decreases device_infos@.len() - k,
        {
            let info = device_infos[k];
            let supported = info.device_id != VIRTUAL_KEYBOARD_DEVICE_ID && info.keyboard_type
                != KeyboardType::NonKeyboard && (info.external || info.keyboard_type
                == KeyboardType::Alphabetic);
            if supported {
                supported_devices.insert(info.device_id);
            }
            proof {
                lemma_supported_ids_step(device_infos@, k as int);
            }
            k = k + 1;
        }
        assert(device_infos@.subrange(0, k as int) =~= device_infos@);
        self.key_event_map = key_event_map;
        self.blocked_events = blocked_events;
        self.supported_devices = supported_devices;
    }
}

/// The supported ids of the first `i + 1` devices.
proof fn lemma_supported_ids_step(devices: Seq<DeviceInfo>, i: int)
    requires
        0 <= i < devices.len(),
    ensures
        supported_ids(devices.subrange(0, i + 1)) == (if is_supported_device(devices[i]) {
            supported_ids(devices.subrange(0, i)).insert(devices[i].device_id)
        } else {
            supported_ids(devices.subrange(0, i))
        }),
{
    let longer = devices.subrange(0, i + 1);
    let shorter = devices.subrange(0, i);
    let expected = if is_supported_device(devices[i]) {
        supported_ids(shorter).insert(devices[i].device_id)
    } else {
        supported_ids(shorter)
    };
    assert forall|id: i32| #[trigger] supported_ids(longer).contains(id) <==> expected.contains(
        id,
    ) by {
        if supported_ids(longer).contains(id) {
            let j = choose|j: int|
                0 <= j < longer.len() && #[trigger] longer[j].device_id == id
                    && is_supported_device(longer[j]);
            if j < i {
                assert(shorter[j].device_id == id);
            }
        }
        if supported_ids(shorter).contains(id) {
            let j = choose|j: int|
                0 <= j < shorter.len() && #[trigger] shorter[j].device_id == id
                    && is_supported_device(shorter[j]);
            assert(longer[j].device_id == id);
        }
        if id == devices[i].device_id && is_supported_device(devices[i]) {
            assert(longer[i].device_id == id);
        }
    }
    assert(supported_ids(longer) =~= expected);
}

} // verus!
