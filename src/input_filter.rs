//! The events and device descriptions that the key filters work on.

use crate::input::{KeyboardType, ModifierState, Source};
use vstd::prelude::*;

verus! {

/// Device id of the virtual keyboard that input methods use: no physical keyboard.
pub const VIRTUAL_KEYBOARD_DEVICE_ID: i32 = -1;

/// What a key event reports.
#[derive(Clone, Copy, Debug, PartialEq, Eq, Structural, Hash)]
pub enum KeyEventAction {
    Down,
    Up,
    Multiple,
}

/// A key event as it passes through the key filters.
#[derive(Clone, Copy, Debug, PartialEq, Eq, Structural, Hash)]
pub struct KeyEvent {
    pub id: i32,
    pub device_id: i32,
    pub down_time: i64,
    pub read_time: i64,
    pub event_time: i64,
    pub source: Source,
    pub display_id: i32,
    pub policy_flags: i32,
    pub action: KeyEventAction,
    pub flags: i32,
    pub key_code: i32,
    pub scan_code: i32,
    /// The meta state bits of the event, see `ModifierState`.
    pub meta_state: i32,
}

/// A connected input device, as the key filters see it.
#[derive(Clone, Copy, Debug, PartialEq, Eq, Structural, Hash)]
pub struct DeviceInfo {
    pub device_id: i32,
    pub external: bool,
    pub keyboard_type: KeyboardType,
}

/// A new modifier state, for the host to show or apply.
#[derive(Clone, Copy, Debug, PartialEq, Eq, Structural)]
pub struct ModifierStateChange {
    pub modifier_state: ModifierState,
    pub locked_modifier_state: ModifierState,
}

/// What a filter gives for a key event: the event to pass on (`None`: the event is held
/// back), and the new modifier state if it changed.
#[derive(Clone, Copy, Debug, PartialEq, Eq, Structural)]
pub struct FilterOutput {
    pub event: Option<KeyEvent>,
    pub modifier_state_change: Option<ModifierStateChange>,
}

/// The ids of the given devices.
pub open spec fn device_ids(devices: Seq<DeviceInfo>) -> Set<i32> {
    Set::new(|id: i32| exists|i: int| 0 <= i < devices.len() && #[trigger] devices[i].device_id == id)
}

/// `true` when a device of the list has the given id.
pub fn is_device_present(device_infos: &[DeviceInfo], device_id: i32) -> (r: bool)
    ensures
        r == device_ids(device_infos@).contains(device_id),
{
    let mut i: usize = 0;
    while i < device_infos.len()
        invariant
            i <= device_infos@.len(),
            forall|j: int| 0 <= j < i ==> (#[trigger] device_infos@[j]).device_id != device_id,
        decreases device_infos@.len() - i,
    {
        if device_infos[i].device_id == device_id {
            return true;
        }
        i = i + 1;
    }
    false
}

/// The ids of the first `i + 1` devices are those of the first `i` and the id of device `i`.
pub(crate) proof fn lemma_device_ids_step(devices: Seq<DeviceInfo>, i: int)
    requires
        0 <= i < devices.len(),
    ensures
        device_ids(devices.subrange(0, i + 1)) == device_ids(devices.subrange(0, i)).insert(
            devices[i].device_id,
        ),
{
    let longer = devices.subrange(0, i + 1);
    let shorter = devices.subrange(0, i);
    assert forall|id: i32| #[trigger] device_ids(longer).contains(id) <==> device_ids(
        shorter,
    ).insert(devices[i].device_id).contains(id) by {
        if device_ids(longer).contains(id) {
            let j = choose|j: int| 0 <= j < longer.len() && #[trigger] longer[j].device_id == id;
            if j < i {
                assert(shorter[j].device_id == id);
            }
        }
        if device_ids(shorter).contains(id) {
            let j = choose|j: int| 0 <= j < shorter.len() && #[trigger] shorter[j].device_id == id;
            assert(longer[j].device_id == id);
        }
        if id == devices[i].device_id {
            assert(longer[i].device_id == id);
        }
    }
    assert(device_ids(longer) =~= device_ids(shorter).insert(devices[i].device_id));
}

} // verus!
