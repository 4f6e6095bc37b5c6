//! Sticky keys: an accessibility feature for users who cannot hold several keys at once. A
//! modifier key (Alt, Shift, Ctrl, Meta) that is pressed and released stays applied to the
//! following keys until a key that is no modifier is released; pressed and released twice, it
//! is locked until it is pressed and released a third time.

use crate::input::{
    has_bits, ModifierState, META_ALT_LEFT_ON, META_ALT_ON, META_ALT_RIGHT_ON, META_CTRL_LEFT_ON,
    META_CTRL_ON, META_CTRL_RIGHT_ON, META_META_LEFT_ON, META_META_ON, META_META_RIGHT_ON,
    META_SHIFT_LEFT_ON, META_SHIFT_ON, META_SHIFT_RIGHT_ON, MODIFIER_STATE_KNOWN_BITS,
};
use crate::input_filter::{
    device_ids, is_device_present, lemma_device_ids_step, DeviceInfo, FilterOutput, KeyEvent,
    KeyEventAction, ModifierStateChange,
};
use std::collections::{HashMap, HashSet};
use vstd::prelude::*;

verus! {

broadcast use vstd::std_specs::hash::group_hash_axioms;

// Key codes of the modifier keys.
pub const KEYCODE_ALT_LEFT: i32 = 57;
pub const KEYCODE_ALT_RIGHT: i32 = 58;
pub const KEYCODE_SHIFT_LEFT: i32 = 59;
pub const KEYCODE_SHIFT_RIGHT: i32 = 60;
pub const KEYCODE_SYM: i32 = 63;
pub const KEYCODE_CTRL_LEFT: i32 = 113;
pub const KEYCODE_CTRL_RIGHT: i32 = 114;
pub const KEYCODE_CAPS_LOCK: i32 = 115;
pub const KEYCODE_SCROLL_LOCK: i32 = 116;
pub const KEYCODE_META_LEFT: i32 = 117;
pub const KEYCODE_META_RIGHT: i32 = 118;
pub const KEYCODE_FUNCTION: i32 = 119;
pub const KEYCODE_NUM_LOCK: i32 = 143;

/// The meta state bits of the modifiers that sticky keys applies: Alt, Shift, Ctrl and Meta,
/// either side.
pub const EPHEMERAL_MODIFIER_BITS: u32 = 0x0007_70f3;

pub open spec fn spec_is_modifier_key(keycode: i32) -> bool {
    keycode == KEYCODE_ALT_LEFT || keycode == KEYCODE_ALT_RIGHT || keycode == KEYCODE_SHIFT_LEFT
        || keycode == KEYCODE_SHIFT_RIGHT || keycode == KEYCODE_CTRL_LEFT || keycode
        == KEYCODE_CTRL_RIGHT || keycode == KEYCODE_META_LEFT || keycode == KEYCODE_META_RIGHT
        || keycode == KEYCODE_SYM || keycode == KEYCODE_FUNCTION || keycode == KEYCODE_CAPS_LOCK
        || keycode == KEYCODE_NUM_LOCK || keycode == KEYCODE_SCROLL_LOCK
}

/// `true` for every modifier key, the toggles (Caps Lock, Num Lock, Scroll Lock, Function,
/// Sym) included.
#[verifier::when_used_as_spec(spec_is_modifier_key)]
pub fn is_modifier_key(keycode: i32) -> (r: bool)
    ensures
        r == spec_is_modifier_key(keycode),
{
    keycode == KEYCODE_ALT_LEFT || keycode == KEYCODE_ALT_RIGHT || keycode == KEYCODE_SHIFT_LEFT
        || keycode == KEYCODE_SHIFT_RIGHT || keycode == KEYCODE_CTRL_LEFT || keycode
        == KEYCODE_CTRL_RIGHT || keycode == KEYCODE_META_LEFT || keycode == KEYCODE_META_RIGHT
        || keycode == KEYCODE_SYM || keycode == KEYCODE_FUNCTION || keycode == KEYCODE_CAPS_LOCK
        || keycode == KEYCODE_NUM_LOCK || keycode == KEYCODE_SCROLL_LOCK
}

pub open spec fn spec_is_ephemeral_modifier_key(keycode: i32) -> bool {
    keycode == KEYCODE_ALT_LEFT || keycode == KEYCODE_ALT_RIGHT || keycode == KEYCODE_SHIFT_LEFT
        || keycode == KEYCODE_SHIFT_RIGHT || keycode == KEYCODE_CTRL_LEFT || keycode
        == KEYCODE_CTRL_RIGHT || keycode == KEYCODE_META_LEFT || keycode == KEYCODE_META_RIGHT
}

/// `true` for the modifier keys that sticky keys applies: Alt, Shift, Ctrl and Meta.
#[verifier::when_used_as_spec(spec_is_ephemeral_modifier_key)]
pub fn is_ephemeral_modifier_key(keycode: i32) -> (r: bool)
    ensures
        r == spec_is_ephemeral_modifier_key(keycode),
{
    keycode == KEYCODE_ALT_LEFT || keycode == KEYCODE_ALT_RIGHT || keycode == KEYCODE_SHIFT_LEFT
        || keycode == KEYCODE_SHIFT_RIGHT || keycode == KEYCODE_CTRL_LEFT || keycode
        == KEYCODE_CTRL_RIGHT || keycode == KEYCODE_META_LEFT || keycode == KEYCODE_META_RIGHT
}

pub open spec fn spec_ephemeral_modifier_key_mask(keycode: i32) -> u32 {
    if keycode == KEYCODE_ALT_LEFT {
        META_ALT_LEFT_ON | META_ALT_ON
    } else if keycode == KEYCODE_ALT_RIGHT {
        META_ALT_RIGHT_ON | META_ALT_ON
    } else if keycode == KEYCODE_SHIFT_LEFT {
        META_SHIFT_LEFT_ON | META_SHIFT_ON
    } else if keycode == KEYCODE_SHIFT_RIGHT {
        META_SHIFT_RIGHT_ON | META_SHIFT_ON
    } else if keycode == KEYCODE_CTRL_LEFT {
        META_CTRL_LEFT_ON | META_CTRL_ON
    } else if keycode == KEYCODE_CTRL_RIGHT {
        META_CTRL_RIGHT_ON | META_CTRL_ON
    } else if keycode == KEYCODE_META_LEFT {
        META_META_LEFT_ON | META_META_ON
    } else if keycode == KEYCODE_META_RIGHT {
        META_META_RIGHT_ON | META_META_ON
    } else {
        0
    }
}

/// The meta state bits that a modifier key sets: its side and its modifier.
pub fn get_ephemeral_modifier_key_mask(keycode: i32) -> (r: ModifierState)
    ensures
        r.0 == spec_ephemeral_modifier_key_mask(keycode),
{
    let bits = if keycode == KEYCODE_ALT_LEFT {
        META_ALT_LEFT_ON | META_ALT_ON
    } else if keycode == KEYCODE_ALT_RIGHT {
        META_ALT_RIGHT_ON | META_ALT_ON
    } else if keycode == KEYCODE_SHIFT_LEFT {
        META_SHIFT_LEFT_ON | META_SHIFT_ON
    } else if keycode == KEYCODE_SHIFT_RIGHT {
        META_SHIFT_RIGHT_ON | META_SHIFT_ON
    } else if keycode == KEYCODE_CTRL_LEFT {
        META_CTRL_LEFT_ON | META_CTRL_ON
    } else if keycode == KEYCODE_CTRL_RIGHT {
        META_CTRL_RIGHT_ON | META_CTRL_ON
    } else if keycode == KEYCODE_META_LEFT {
        META_META_LEFT_ON | META_META_ON
    } else if keycode == KEYCODE_META_RIGHT {
        META_META_RIGHT_ON | META_META_ON
    } else {
        0
    };
    ModifierState(bits)
}

pub open spec fn spec_symmetrical_modifier_key_mask(keycode: i32) -> u32 {
    if keycode == KEYCODE_ALT_LEFT || keycode == KEYCODE_ALT_RIGHT {
        META_ALT_LEFT_ON | META_ALT_RIGHT_ON | META_ALT_ON
    } else if keycode == KEYCODE_SHIFT_LEFT || keycode == KEYCODE_SHIFT_RIGHT {
        META_SHIFT_LEFT_ON | META_SHIFT_RIGHT_ON | META_SHIFT_ON
    } else if keycode == KEYCODE_CTRL_LEFT || keycode == KEYCODE_CTRL_RIGHT {
        META_CTRL_LEFT_ON | META_CTRL_RIGHT_ON | META_CTRL_ON
    } else if keycode == KEYCODE_META_LEFT || keycode == KEYCODE_META_RIGHT {
        META_META_LEFT_ON | META_META_RIGHT_ON | META_META_ON
    } else {
        0
    }
}

/// The meta state bits of a modifier key's modifier, both sides included.
pub fn get_symmetrical_modifier_key_mask(keycode: i32) -> (r: ModifierState)
    ensures
        r.0 == spec_symmetrical_modifier_key_mask(keycode),
{
    let bits = if keycode == KEYCODE_ALT_LEFT || keycode == KEYCODE_ALT_RIGHT {
        META_ALT_LEFT_ON | META_ALT_RIGHT_ON | META_ALT_ON
    } else if keycode == KEYCODE_SHIFT_LEFT || keycode == KEYCODE_SHIFT_RIGHT {
        META_SHIFT_LEFT_ON | META_SHIFT_RIGHT_ON | META_SHIFT_ON
    } else if keycode == KEYCODE_CTRL_LEFT || keycode == KEYCODE_CTRL_RIGHT {
        META_CTRL_LEFT_ON | META_CTRL_RIGHT_ON | META_CTRL_ON
    } else if keycode == KEYCODE_META_LEFT || keycode == KEYCODE_META_RIGHT {
        META_META_LEFT_ON | META_META_RIGHT_ON | META_META_ON
    } else {
        0
    };
    ModifierState(bits)
}

/// The meta state without the bits of Alt, Shift, Ctrl and Meta.
pub fn clear_ephemeral_modifier_state(modifier_state: ModifierState) -> (r: ModifierState)
    ensures
        r.0 == modifier_state.0 & !EPHEMERAL_MODIFIER_BITS,
{
    modifier_state.difference(ModifierState(EPHEMERAL_MODIFIER_BITS))
}

/// What the filter knows.
pub struct StickyKeysState {
    /// The keys that are down, by device.
    pub down_keys: Map<i32, Set<i32>>,
    /// The devices whose modifier keys made up the modifier state.
    pub contributing_devices: Set<i32>,
    /// The modifiers applied to the coming keys, locked or not.
    pub modifier_state: ModifierState,
    /// The locked modifiers, which stay applied until their key is pressed again.
    pub locked_modifier_state: ModifierState,
}

/// The event with another meta state.
pub open spec fn with_meta_state(event: KeyEvent, meta_state: i32) -> KeyEvent {
    KeyEvent {
        id: event.id,
        device_id: event.device_id,
        down_time: event.down_time,
        read_time: event.read_time,
        event_time: event.event_time,
        source: event.source,
        display_id: event.display_id,
        policy_flags: event.policy_flags,
        action: event.action,
        flags: event.flags,
        key_code: event.key_code,
        scan_code: event.scan_code,
        meta_state,
    }
}

/// The keys that are down after an event that has passed the check for a matching press.
pub open spec fn down_keys_after(down_keys: Map<i32, Set<i32>>, event: KeyEvent) -> Map<
    i32,
    Set<i32>,
> {
    let device = event.device_id;
    if event.action == KeyEventAction::Down {
        let current = if down_keys.contains_key(device) {
            down_keys[device]
        } else {
            Set::empty()
        };
        down_keys.insert(device, current.insert(event.key_code))
    } else {
        let rest = down_keys[device].remove(event.key_code);
        if rest.is_empty() {
            down_keys.remove(device)
        } else {
            down_keys.insert(device, rest)
        }
    }
}

/// The modifier state and locked modifier state after the release of a modifier key: a
/// locked modifier is unlocked; an applied one is locked, on the key's side only; any other
/// is applied.
pub open spec fn modifiers_after_release(modifier_state: u32, locked: u32, keycode: i32) -> (
    u32,
    u32,
) {
    let mask = spec_ephemeral_modifier_key_mask(keycode);
    let symmetrical = spec_symmetrical_modifier_key_mask(keycode);
    if locked & mask != 0 {
        (modifier_state & !symmetrical, locked & !symmetrical)
    } else if mask & modifier_state != 0 {
        ((modifier_state & !symmetrical) | mask, locked | mask)
    } else {
        (modifier_state | mask, locked)
    }
}

/// The filter's state after a key event, and what it gives.
pub open spec fn sticky_keys_transition(s: StickyKeysState, event: KeyEvent) -> (
    StickyKeysState,
    FilterOutput,
) {
    let device = event.device_id;
    let keycode = event.key_code;
    let up = event.action == KeyEventAction::Up;
    if event.action != KeyEventAction::Down && !(s.down_keys.contains_key(device)
        && s.down_keys[device].contains(keycode)) {
        // A release without its press passes unchanged.
        (s, FilterOutput { event: Some(event), modifier_state_change: None })
    } else {
        let down_keys = down_keys_after(s.down_keys, event);
        let ms = s.modifier_state.0;
        let locked = s.locked_modifier_state.0;
        let (forwarded, contributing, new_ms, new_locked) = if !spec_is_ephemeral_modifier_key(
            keycode,
        ) {
            // Other keys pass, with the sticky modifiers in place of their own; the release
            // of a key that is no modifier ends the modifiers that are not locked.
            let meta = ((event.meta_state as u32) & !EPHEMERAL_MODIFIER_BITS) | ms;
            (
                Some(with_meta_state(event, meta as i32)),
                s.contributing_devices,
                if up && !spec_is_modifier_key(keycode) {
                    (ms & !EPHEMERAL_MODIFIER_BITS) | locked
                } else {
                    ms
                },
                locked,
            )
        } else if up {
            let (m, l) = modifiers_after_release(ms, locked, keycode);
            (None, s.contributing_devices.insert(device), m, l)
        } else {
            (None, s.contributing_devices, ms, locked)
        };
        let change = if new_ms != ms || new_locked != locked {
            Some(
                ModifierStateChange {
                    modifier_state: ModifierState(new_ms),
                    locked_modifier_state: ModifierState(new_locked),
                },
            )
        } else {
            None
        };
        (
            StickyKeysState {
                down_keys,
                contributing_devices: contributing,
                modifier_state: ModifierState(new_ms),
                locked_modifier_state: ModifierState(new_locked),
            },
            FilterOutput { event: forwarded, modifier_state_change: change },
        )
    }
}

/// The filter's state after the list of connected devices changed, and the new modifier
/// state if it changed: when no contributing device is left, no modifier stays applied.
pub open spec fn sticky_keys_devices_changed(s: StickyKeysState, devices: Seq<DeviceInfo>) -> (
    StickyKeysState,
    Option<ModifierStateChange>,
) {
    let present = device_ids(devices);
    let contributing = s.contributing_devices.intersect(present);
    let down_keys = s.down_keys.restrict(present);
    if contributing.is_empty() && (s.modifier_state.0 != 0 || s.locked_modifier_state.0 != 0) {
        (
            StickyKeysState {
                down_keys,
                contributing_devices: contributing,
                modifier_state: ModifierState(0),
                locked_modifier_state: ModifierState(0),
            },
            Some(
                ModifierStateChange {
                    modifier_state: ModifierState(0),
                    locked_modifier_state: ModifierState(0),
                },
            ),
        )
    } else {
        (
            StickyKeysState {
                down_keys,
                contributing_devices: contributing,
                modifier_state: s.modifier_state,
                locked_modifier_state: s.locked_modifier_state,
            },
            None,
        )
    }
}

/// Left and right Alt.
pub const META_ALT_SIDES: u32 = 0x30;
/// Left and right Shift.
pub const META_SHIFT_SIDES: u32 = 0xc0;
/// Left and right Ctrl.
pub const META_CTRL_SIDES: u32 = 0x6000;
/// Left and right Meta.
pub const META_META_SIDES: u32 = 0x6_0000;

/// The modifier state and the locked modifier state agree: every locked modifier is applied,
/// and a modifier that is locked on one side is locked as a whole, with its generic bit.
pub open spec fn modifier_states_consistent(modifier_state: u32, locked: u32) -> bool {
    &&& has_bits(modifier_state, locked)
    &&& (locked & META_ALT_SIDES == 0 || locked & META_ALT_ON != 0)
    &&& (locked & META_SHIFT_SIDES == 0 || locked & META_SHIFT_ON != 0)
    &&& (locked & META_CTRL_SIDES == 0 || locked & META_CTRL_ON != 0)
    &&& (locked & META_META_SIDES == 0 || locked & META_META_ON != 0)
}

/// The release of a modifier key keeps the two states in agreement.
proof fn lemma_release_keeps_states_consistent(modifier_state: u32, locked: u32, keycode: i32)
    requires
        modifier_states_consistent(modifier_state, locked),
        spec_is_ephemeral_modifier_key(keycode),
    ensures
        ({
            let (m, l) = modifiers_after_release(modifier_state, locked, keycode);
            modifier_states_consistent(m, l)
        }),
{
    let mask = spec_ephemeral_modifier_key_mask(keycode);
    let sym = spec_symmetrical_modifier_key_mask(keycode);
    let ms = modifier_state;
    let l = locked;
    assert(0x10u32 | 0x2u32 == 0x12u32 && 0x20u32 | 0x2u32 == 0x22u32 && 0x40u32 | 0x1u32 == 0x41u32
        && 0x80u32 | 0x1u32 == 0x81u32 && 0x2000u32 | 0x1000u32 == 0x3000u32 && 0x4000u32
        | 0x1000u32 == 0x5000u32 && 0x2_0000u32 | 0x1_0000u32 == 0x3_0000u32 && 0x4_0000u32
        | 0x1_0000u32 == 0x5_0000u32 && 0x10u32 | 0x20u32 | 0x2u32 == 0x32u32 && 0x40u32 | 0x80u32
        | 0x1u32 == 0xc1u32 && 0x2000u32 | 0x4000u32 | 0x1000u32 == 0x7000u32 && 0x2_0000u32
        | 0x4_0000u32 | 0x1_0000u32 == 0x7_0000u32) by (bit_vector);
    assert({
        &&& (l & mask != 0 ==> {
            let m2 = ms & !sym;
            let l2 = l & !sym;
            &&& m2 & l2 == l2
            &&& (l2 & 0x30 == 0 || l2 & 0x2 != 0)
            &&& (l2 & 0xc0 == 0 || l2 & 0x1 != 0)
            &&& (l2 & 0x6000 == 0 || l2 & 0x1000 != 0)
            &&& (l2 & 0x60000 == 0 || l2 & 0x10000 != 0)
        })
        &&& (l & mask == 0 && mask & ms != 0 ==> {
            let m2 = (ms & !sym) | mask;
            let l2 = l | mask;
            &&& m2 & l2 == l2
            &&& (l2 & 0x30 == 0 || l2 & 0x2 != 0)
            &&& (l2 & 0xc0 == 0 || l2 & 0x1 != 0)
            &&& (l2 & 0x6000 == 0 || l2 & 0x1000 != 0)
            &&& (l2 & 0x60000 == 0 || l2 & 0x10000 != 0)
        })
        &&& (l & mask == 0 && mask & ms == 0 ==> {
            let m2 = ms | mask;
            m2 & l == l
        })
    }) by (bit_vector)
        requires
            ms & l == l,
            l & 0x30 == 0 || l & 0x2 != 0,
            l & 0xc0 == 0 || l & 0x1 != 0,
            l & 0x6000 == 0 || l & 0x1000 != 0,
            l & 0x60000 == 0 || l & 0x10000 != 0,
            (mask == 0x12 && sym == 0x32) || (mask == 0x22 && sym == 0x32) || (mask == 0x41
                && sym == 0xc1) || (mask == 0x81 && sym == 0xc1) || (mask == 0x3000 && sym
                == 0x7000) || (mask == 0x5000 && sym == 0x7000) || (mask == 0x3_0000 && sym
                == 0x7_0000) || (mask == 0x5_0000 && sym == 0x7_0000),
    ;
}

/// Locked modifiers stay applied: when the two states agree before a key event, they agree
/// after it, so the locked modifier state is a subset of the modifier state after every key
/// event.
pub proof fn lemma_locked_modifiers_stay_applied(s: StickyKeysState, event: KeyEvent)
    requires
        modifier_states_consistent(s.modifier_state.0, s.locked_modifier_state.0),
    ensures
        ({
            let after = sticky_keys_transition(s, event).0;
            &&& modifier_states_consistent(after.modifier_state.0, after.locked_modifier_state.0)
            &&& has_bits(after.modifier_state.0, after.locked_modifier_state.0)
        }),
{
    let ms = s.modifier_state.0;
    let l = s.locked_modifier_state.0;
    if spec_is_ephemeral_modifier_key(event.key_code) {
        if event.action == KeyEventAction::Up {
            lemma_release_keeps_states_consistent(ms, l, event.key_code);
        }
    } else {
        assert(((ms & !EPHEMERAL_MODIFIER_BITS) | l) & l == l) by (bit_vector);
    }
}

/// The two states agree after the list of connected devices changed.
pub proof fn lemma_devices_changed_keeps_states_consistent(
    s: StickyKeysState,
    devices: Seq<DeviceInfo>,
)
    requires
        modifier_states_consistent(s.modifier_state.0, s.locked_modifier_state.0),
    ensures
        ({
            let after = sticky_keys_devices_changed(s, devices).0;
            modifier_states_consistent(after.modifier_state.0, after.locked_modifier_state.0)
        }),
{
    assert(forall|x: u32| 0u32 & x == 0u32) by (bit_vector);
}

/// The state that the filter hands over when the filter chain is rebuilt.
pub struct StickyKeysData {
    /// The devices whose modifier keys made up the modifier state.
    pub contributing_devices: Vec<i32>,
    pub modifier_state: ModifierState,
    pub locked_modifier_state: ModifierState,
}

/// What the filters of a chain save, one entry for each kind of filter, to restore it in the
/// chain that replaces theirs.
pub struct SavedFilterState {
    pub sticky_keys_data: Option<StickyKeysData>,
}

impl SavedFilterState {
    /// Nothing saved.
    pub fn new() -> (r: SavedFilterState)
        ensures
            r.sticky_keys_data is None,
    {
        SavedFilterState { sticky_keys_data: None }
    }
}

/// The sticky keys filter.
pub struct StickyKeysFilter {
    contributing_devices: Vec<i32>,
    modifier_state: ModifierState,
    locked_modifier_state: ModifierState,
    down_key_map: HashMap<i32, HashSet<i32>>,
}

/// The sets of a map of key code sets.
pub open spec fn key_sets_view(m: HashMap<i32, HashSet<i32>>) -> Map<i32, Set<i32>> {
    m@.map_values(|s: HashSet<i32>| s@)
}

impl StickyKeysFilter {
    pub closed spec fn state(&self) -> StickyKeysState {
        StickyKeysState {
            down_keys: key_sets_view(self.down_key_map),
            contributing_devices: self.contributing_devices@.to_set(),
            modifier_state: self.modifier_state,
            locked_modifier_state: self.locked_modifier_state,
        }
    }

    /// A filter with no modifier applied and no key down.
    pub fn new() -> (r: StickyKeysFilter)
        ensures
            r.state().down_keys.is_empty(),
            r.state().contributing_devices.is_empty(),
            r.state().modifier_state.0 == 0,
            r.state().locked_modifier_state.0 == 0,
    {
        let r = StickyKeysFilter {
            contributing_devices: Vec::new(),
            modifier_state: ModifierState(0),
            locked_modifier_state: ModifierState(0),
            down_key_map: HashMap::new(),
        };
        assert(r.state().down_keys =~= Map::empty());
        assert(r.state().contributing_devices =~= Set::empty());
        r
    }

    /// The modifiers applied to the coming keys, locked or not.
    pub fn modifier_state(&self) -> (r: ModifierState)
        ensures
            r == self.state().modifier_state,
    {
        self.modifier_state
    }

    /// The locked modifiers.
    pub fn locked_modifier_state(&self) -> (r: ModifierState)
        ensures
            r == self.state().locked_modifier_state,
    {
        self.locked_modifier_state
    }

    /// Takes the key set of a device out of the map: empty when the device has none.
    fn take_keys(&mut self, device: i32) -> (r: HashSet<i32>)
        ensures
            final(self).state() == (StickyKeysState {
                down_keys: old(self).state().down_keys.remove(device),
                ..old(self).state()
            }),
            r@ == (if old(self).state().down_keys.contains_key(device) {
                old(self).state().down_keys[device]
            } else {
                Set::<i32>::empty()
            }),
    {
        let r = match self.down_key_map.remove(&device) {
            Some(s) => s,
            None => HashSet::new(),
        };
        assert(key_sets_view(self.down_key_map) =~= old(self).state().down_keys.remove(device));
        r
    }

    /// Puts the key set of a device into the map.
    fn put_keys(&mut self, device: i32, keys: HashSet<i32>)
        ensures
            final(self).state() == (StickyKeysState {
                down_keys: old(self).state().down_keys.insert(device, keys@),
                ..old(self).state()
            }),
    {
        self.down_key_map.insert(device, keys);
        assert(key_sets_view(self.down_key_map) =~= old(self).state().down_keys.insert(
            device,
            keys@,
        ));
    }

    /// Takes in a key event. Modifier keys are held back and change the modifier state;
    /// other keys are passed on with that state.
    pub fn notify_key(&mut self, event: &KeyEvent) -> (r: FilterOutput)
        requires
            (event.meta_state as u32) & !MODIFIER_STATE_KNOWN_BITS == 0,
        ensures
            final(self).state() == sticky_keys_transition(old(self).state(), *event).0,
            r == sticky_keys_transition(old(self).state(), *event).1,
    {
        let device = event.device_id;
        let keycode = event.key_code;
        let down = event.action == KeyEventAction::Down;
        let up = event.action == KeyEventAction::Up;
        let mut modifier_state = self.modifier_state;
        let mut locked_modifier_state = self.locked_modifier_state;
        let ghost before = self.state();
        if !down {
            let pressed = match self.down_key_map.get(&device) {
                Some(keys) => keys.contains(&keycode),
                None => false,
            };
            if !pressed {
                // A release without its press passes unchanged.
                return FilterOutput { event: Some(*event), modifier_state_change: None };
            }
        }
        let mut down_keys = self.take_keys(device);
        if down {
            down_keys.insert(keycode);
            self.put_keys(device, down_keys);
        } else {
            down_keys.remove(&keycode);
            if !down_keys.is_empty() {
                self.put_keys(device, down_keys);
            }
        }
        assert(self.state().down_keys =~= down_keys_after(before.down_keys, *event));
        let mut forwarded: Option<KeyEvent> = None;
        if !is_ephemeral_modifier_key(keycode) {
            // Keys other than Alt, Shift, Ctrl and Meta pass, with the sticky modifiers in
            // place of their own.
            let own = match ModifierState::from_bits(event.meta_state as u32) {
                Some(own) => own,
                None => ModifierState(0),
            };
            let mut new_event = *event;
            new_event.meta_state = clear_ephemeral_modifier_state(own).union(
                modifier_state,
            ).bits() as i32;
            forwarded = Some(new_event);
            if up && !is_modifier_key(keycode) {
                // A key was typed: the modifiers that are not locked end.
                modifier_state = clear_ephemeral_modifier_state(modifier_state).union(
                    locked_modifier_state,
                );
            }
        } else if up {
            if !self.contributing_devices_contains(device) {
                proof {
                    self.contributing_devices@.lemma_push_to_set_commute(device);
                }
                self.contributing_devices.push(device);
            }
            assert(self.contributing_devices@.to_set() =~= before.contributing_devices.insert(
                device,
            ));
            let modifier_key_mask = get_ephemeral_modifier_key_mask(keycode);
            let symmetrical_modifier_key_mask = get_symmetrical_modifier_key_mask(keycode);
            if locked_modifier_state.intersection(modifier_key_mask).bits() != 0 {
                locked_modifier_state = locked_modifier_state.difference(
                    symmetrical_modifier_key_mask,
                );
                modifier_state = modifier_state.difference(symmetrical_modifier_key_mask);
            } else if modifier_key_mask.intersection(modifier_state).bits() != 0 {
                locked_modifier_state = locked_modifier_state.union(modifier_key_mask);
                modifier_state = modifier_state.difference(symmetrical_modifier_key_mask).union(
                    modifier_key_mask,
                );
            } else {
                modifier_state = modifier_state.union(modifier_key_mask);
            }
        }
        let mut change: Option<ModifierStateChange> = None;
        if self.modifier_state != modifier_state || self.locked_modifier_state
            != locked_modifier_state {
            self.modifier_state = modifier_state;
            self.locked_modifier_state = locked_modifier_state;
            change = Some(ModifierStateChange { modifier_state, locked_modifier_state });
        }
        FilterOutput { event: forwarded, modifier_state_change: change }
    }

    /// Takes in the new list of connected devices: forgets the devices that left; when none
    /// of the contributing devices is left, no modifier stays applied. Returns the new
    /// modifier state if it changed.
    pub fn notify_devices_changed(&mut self, device_infos: &[DeviceInfo]) -> (r: Option<
        ModifierStateChange,
    >)
        ensures
            final(self).state() == sticky_keys_devices_changed(old(self).state(), device_infos@).0,
            r == sticky_keys_devices_changed(old(self).state(), device_infos@).1,
    {
        let ghost present = device_ids(device_infos@);
        let ghost before = self.state();
        // Contributing devices that are still present.
        let mut contributing: Vec<i32> = Vec::new();
        let mut i: usize = 0;
        while i < self.contributing_devices.len()
            invariant
                i <= self.contributing_devices@.len(),
                present == device_ids(device_infos@),
                contributing@.to_set() == self.contributing_devices@.subrange(
                    0,
                    i as int,
                ).to_set().intersect(present),
            decreases self.contributing_devices@.len() - i,
        {
            let id = self.contributing_devices[i];
            proof {
                assert(self.contributing_devices@.subrange(0, i + 1)
                    =~= self.contributing_devices@.subrange(0, i as int).push(id));
                self.contributing_devices@.subrange(0, i as int).lemma_push_to_set_commute(id);
                contributing@.lemma_push_to_set_commute(id);
            }
            if is_device_present(device_infos, id) {
                contributing.push(id);
            }
            assert(contributing@.to_set() =~= self.contributing_devices@.subrange(
                0,
                i + 1,
            ).to_set().intersect(present));
            i = i + 1;
        }
        assert(self.contributing_devices@.subrange(0, i as int) =~= self.contributing_devices@);
        // Keys down on the devices that are still present.
        let ghost old_keys = self.state().down_keys;
        let mut down_key_map: HashMap<i32, HashSet<i32>> = HashMap::new();
        let mut k: usize = 0;
        while k < device_infos.len()
            invariant
                k <= device_infos@.len(),
                self.state().contributing_devices == before.contributing_devices,
                self.state().modifier_state == before.modifier_state,
                self.state().locked_modifier_state == before.locked_modifier_state,
                key_sets_view(down_key_map) == old_keys.restrict(
                    device_ids(device_infos@.subrange(0, k as int)),
                ),
                self.state().down_keys == old_keys.remove_keys(
                    device_ids(device_infos@.subrange(0, k as int)),
                ),
            decreases device_infos@.len() - k,
        {
            let id = device_infos[k].device_id;
            proof {
                lemma_device_ids_step(device_infos@, k as int);
            }
            let ghost seen = device_ids(device_infos@.subrange(0, k as int));
            let ghost collected = key_sets_view(down_key_map);
            if self.down_key_map.contains_key(&id) {
                let keys = self.take_keys(id);
                assert(keys@ == old_keys[id]);
                down_key_map.insert(id, keys);
                assert(key_sets_view(down_key_map) =~= collected.insert(id, keys@));
                assert(!seen.contains(id));
                assert(old_keys.restrict(seen.insert(id)) =~= old_keys.restrict(seen).insert(
                    id,
                    old_keys[id],
                ));
            } else {
                assert(!self.state().down_keys.contains_key(id));
                assert(seen.contains(id) || !old_keys.contains_key(id));
                assert(old_keys.restrict(seen.insert(id)) =~= old_keys.restrict(seen));
            }
            assert(key_sets_view(down_key_map) =~= old_keys.restrict(
                device_ids(device_infos@.subrange(0, k + 1)),
            ));
            assert(self.state().down_keys =~= old_keys.remove_keys(
                device_ids(device_infos@.subrange(0, k + 1)),
            ));
            k = k + 1;
        }
        assert(device_infos@.subrange(0, k as int) =~= device_infos@);
        self.down_key_map = down_key_map;
        self.contributing_devices = contributing;
        proof {
            if self.contributing_devices@.len() > 0 {
                assert(self.contributing_devices@.to_set().contains(self.contributing_devices@[0]));
            } else {
                assert(self.contributing_devices@.to_set() =~= Set::empty());
            }
        }
        if self.contributing_devices.len() == 0 && (self.modifier_state.bits() != 0
            || self.locked_modifier_state.bits() != 0) {
            self.modifier_state = ModifierState(0);
            self.locked_modifier_state = ModifierState(0);
            return Some(
                ModifierStateChange {
                    modifier_state: ModifierState(0),
                    locked_modifier_state: ModifierState(0),
                },
            );
        }
        None
    }

    /// Saves the modifier state and the contributing devices into `state`.
    pub fn save(&self, state: SavedFilterState) -> (r: SavedFilterState)
        ensures
            r.sticky_keys_data matches Some(data) && data.contributing_devices@.to_set()
                == self.state().contributing_devices && data.modifier_state
                == self.state().modifier_state && data.locked_modifier_state
                == self.state().locked_modifier_state,
    {
        let mut contributing_devices: Vec<i32> = Vec::new();
        let mut i: usize = 0;
        while i < self.contributing_devices.len()
            invariant
                i <= self.contributing_devices@.len(),
                contributing_devices@ == self.contributing_devices@.subrange(0, i as int),
            decreases self.contributing_devices@.len() - i,
        {
            contributing_devices.push(self.contributing_devices[i]);
            assert(contributing_devices@ =~= self.contributing_devices@.subrange(0, i + 1));
            i = i + 1;
        }
        assert(contributing_devices@ =~= self.contributing_devices@);
        let data = StickyKeysData {
            contributing_devices,
            modifier_state: self.modifier_state,
            locked_modifier_state: self.locked_modifier_state,
        };
        SavedFilterState { sticky_keys_data: Some(data), ..state }
    }

    /// Takes back the modifier state and the contributing devices that `state` holds, if it
    /// holds any.
    pub fn restore(&mut self, state: &SavedFilterState)
        ensures
            final(self).state().down_keys == old(self).state().down_keys,
            match state.sticky_keys_data {
                Some(data) => {
                    &&& final(self).state().contributing_devices == data.contributing_devices@.to_set()
                    &&& final(self).state().modifier_state == data.modifier_state
                    &&& final(self).state().locked_modifier_state == data.locked_modifier_state
                },
                None => final(self).state() == old(self).state(),
            },
    {
        match &state.sticky_keys_data {
            Some(data) => {
                let mut contributing_devices: Vec<i32> = Vec::new();
                let mut i: usize = 0;
                while i < data.contributing_devices.len()
                    invariant
                        i <= data.contributing_devices@.len(),
                        contributing_devices@ == data.contributing_devices@.subrange(0, i as int),
                    decreases data.contributing_devices@.len() - i,
                {
                    contributing_devices.push(data.contributing_devices[i]);
                    assert(contributing_devices@ =~= data.contributing_devices@.subrange(
                        0,
                        i + 1,
                    ));
                    i = i + 1;
                }
                assert(contributing_devices@ =~= data.contributing_devices@);
                self.contributing_devices = contributing_devices;
                self.modifier_state = data.modifier_state;
                self.locked_modifier_state = data.locked_modifier_state;
            },
            None => {},
        }
    }

    /// Appends a description of the filter to `dump_str`.
    pub fn dump(&self, dump_str: String) -> (r: String)
        ensures
            dump_str@.len() < r@.len(),
            r@.subrange(0, dump_str@.len() as int) == dump_str@,
    {
        let ghost start = dump_str@;
        let mut result = dump_str;
        result.append("Sticky Keys filter: \n\tmodifier_state = ");
        result.append(self.modifier_state.bits().to_string().as_str());
        result.append("\n\tlocked_modifier_state = ");
        result.append(self.locked_modifier_state.bits().to_string().as_str());
        result.append("\n\tcontributing devices = ");
        result.append(self.contributing_devices.len().to_string().as_str());
        result.append("\n");
        proof {
            reveal_strlit("\n");
        }
        assert(result@.subrange(0, start.len() as int) =~= start);
        result
    }

    /// `true` when the device is one of the contributing devices.
    fn contributing_devices_contains(&self, device: i32) -> (r: bool)
        ensures
            r == self.contributing_devices@.contains(device),
    {
        let mut i: usize = 0;
        while i < self.contributing_devices.len()
            invariant
                i <= self.contributing_devices@.len(),
                forall|j: int| 0 <= j < i ==> self.contributing_devices@[j] != device,
            decreases self.contributing_devices@.len() - i,
        {
            if self.contributing_devices[i] == device {
                return true;
            }
            i = i + 1;
        }
        false
    }
}

} // verus!
