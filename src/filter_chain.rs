//! The chain of key filters between the devices and the host: bounce keys first, then sticky
//! keys. Each filter passes on to the next what it does not hold back; the host gets what
//! leaves the last one. When the settings change, the chain is rebuilt and the new chain takes
//! over what the old one saved.

use crate::bounce_keys_filter::{
    bounce_keys_devices_changed, bounce_keys_transition, BounceKeysFilter, BounceKeysState,
};
use crate::input::MODIFIER_STATE_KNOWN_BITS;
use crate::input_filter::{DeviceInfo, FilterOutput, KeyEvent, ModifierStateChange};
use crate::sticky_keys_filter::{
    sticky_keys_devices_changed, sticky_keys_transition, SavedFilterState, StickyKeysFilter,
    StickyKeysState,
};
use vstd::prelude::*;

verus! {

/// What the filters of a chain know; `None` for a filter that the chain does not have.
pub struct FilterChainState {
    pub bounce_keys: Option<BounceKeysState>,
    pub sticky_keys: Option<StickyKeysState>,
}

/// The chain's state after a key event, and what reaches the host.
pub open spec fn filter_chain_transition(c: FilterChainState, event: KeyEvent) -> (
    FilterChainState,
    FilterOutput,
) {
    let (bounce_keys, passed) = match c.bounce_keys {
        Some(b) => {
            let (b2, out) = bounce_keys_transition(b, event);
            (Some(b2), out)
        },
        None => (None, Some(event)),
    };
    match passed {
        None => (
            FilterChainState { bounce_keys, sticky_keys: c.sticky_keys },
            FilterOutput { event: None, modifier_state_change: None },
        ),
        Some(e) => match c.sticky_keys {
            Some(s) => {
                let (s2, out) = sticky_keys_transition(s, e);
                (FilterChainState { bounce_keys, sticky_keys: Some(s2) }, out)
            },
            None => (
                FilterChainState { bounce_keys, sticky_keys: None },
                FilterOutput { event: Some(e), modifier_state_change: None },
            ),
        },
    }
}

/// The chain's state after the list of connected devices changed, and the new modifier
/// state if it changed.
pub open spec fn filter_chain_devices_changed(c: FilterChainState, devices: Seq<DeviceInfo>) -> (
    FilterChainState,
    Option<ModifierStateChange>,
) {
    let bounce_keys = match c.bounce_keys {
        Some(b) => Some(bounce_keys_devices_changed(b, devices)),
        None => None,
    };
    match c.sticky_keys {
        Some(s) => {
            let (s2, change) = sticky_keys_devices_changed(s, devices);
            (FilterChainState { bounce_keys, sticky_keys: Some(s2) }, change)
        },
        None => (FilterChainState { bounce_keys, sticky_keys: None }, None),
    }
}

/// The chain of key filters.
pub struct FilterChain {
    bounce_keys: Option<BounceKeysFilter>,
    sticky_keys: Option<StickyKeysFilter>,
}

impl FilterChain {
    pub closed spec fn state(&self) -> FilterChainState {
        FilterChainState {
            bounce_keys: match self.bounce_keys {
                Some(b) => Some(b.state()),
                None => None,
            },
            sticky_keys: match self.sticky_keys {
                Some(s) => Some(s.state()),
                None => None,
            },
        }
    }

    /// A chain with bounce keys when the threshold is positive, and with sticky keys when
    /// they are enabled.
    pub fn new(bounce_keys_threshold_ns: i64, sticky_keys_enabled: bool) -> (r: FilterChain)
        ensures
            (bounce_keys_threshold_ns > 0) == r.state().bounce_keys is Some,
            r.state().bounce_keys matches Some(b) ==> {
                &&& b.last_up.is_empty()
                &&& b.blocked.len() == 0
                &&& b.supported.is_empty()
                &&& b.threshold == bounce_keys_threshold_ns
            },
            sticky_keys_enabled == r.state().sticky_keys is Some,
            r.state().sticky_keys matches Some(s) ==> {
                &&& s.down_keys.is_empty()
                &&& s.contributing_devices.is_empty()
                &&& s.modifier_state.0 == 0
                &&& s.locked_modifier_state.0 == 0
            },
    {
        let bounce_keys = if bounce_keys_threshold_ns > 0 {
            Some(BounceKeysFilter::new(bounce_keys_threshold_ns))
        } else {
            None
        };
        let sticky_keys = if sticky_keys_enabled {
            Some(StickyKeysFilter::new())
        } else {
            None
        };
        FilterChain { bounce_keys, sticky_keys }
    }

    /// Passes a key event through the chain; returns what reaches the host.
    pub fn notify_key(&mut self, event: &KeyEvent) -> (r: FilterOutput)
        requires
            (event.meta_state as u32) & !MODIFIER_STATE_KNOWN_BITS == 0,
        ensures
            final(self).state() == filter_chain_transition(old(self).state(), *event).0,
            r == filter_chain_transition(old(self).state(), *event).1,
    {
        let passed = match &mut self.bounce_keys {
            Some(bounce_keys) => bounce_keys.notify_key(event),
            None => Some(*event),
        };
        match passed {
            None => FilterOutput { event: None, modifier_state_change: None },
            Some(e) => match &mut self.sticky_keys {
                Some(sticky_keys) => sticky_keys.notify_key(&e),
                None => FilterOutput { event: Some(e), modifier_state_change: None },
            },
        }
    }

    /// Passes the new list of connected devices to every filter; returns the new modifier
    /// state if it changed.
    pub fn notify_devices_changed(&mut self, device_infos: &[DeviceInfo]) -> (r: Option<
        ModifierStateChange,
    >)
        ensures
            final(self).state() == filter_chain_devices_changed(old(self).state(), device_infos@).0,
            r == filter_chain_devices_changed(old(self).state(), device_infos@).1,
    {
        match &mut self.bounce_keys {
            Some(bounce_keys) => bounce_keys.notify_devices_changed(device_infos),
            None => {},
        }
        match &mut self.sticky_keys {
            Some(sticky_keys) => sticky_keys.notify_devices_changed(device_infos),
            None => None,
        }
    }

    /// Appends a description of every filter of the chain to `dump_str`, first filter first.
    pub fn dump(&self, dump_str: String) -> (r: String)
        ensures
            r@.subrange(0, dump_str@.len() as int) == dump_str@,
            self.state().bounce_keys is None && self.state().sticky_keys is None ==> r@
                == dump_str@,
            self.state().bounce_keys is Some || self.state().sticky_keys is Some ==> dump_str@.len()
                < r@.len(),
    {
        let ghost start = dump_str@;
        let mut result = dump_str;
        match &self.bounce_keys {
            Some(bounce_keys) => {
                result = bounce_keys.dump(result);
            },
            None => {},
        }
        let ghost middle = result@;
        match &self.sticky_keys {
            Some(sticky_keys) => {
                result = sticky_keys.dump(result);
                assert(result@.subrange(0, start.len() as int) =~= middle.subrange(
                    0,
                    start.len() as int,
                ));
            },
            None => {},
        }
        result
    }

    /// Takes the chain apart when the host no longer filters keys: no filter is left, and
    /// every key passes unchanged.
    pub fn destroy(&mut self)
        ensures
            final(self).state().bounce_keys is None,
            final(self).state().sticky_keys is None,
    {
        self.bounce_keys = None;
        self.sticky_keys = None;
    }

    /// Saves what the filters hand over to the chain that replaces this one.
    pub fn save(&self) -> (r: SavedFilterState)
        ensures
            match self.state().sticky_keys {
                Some(s) => r.sticky_keys_data matches Some(data)
                    && data.contributing_devices@.to_set() == s.contributing_devices
                    && data.modifier_state == s.modifier_state && data.locked_modifier_state
                    == s.locked_modifier_state,
                None => r.sticky_keys_data is None,
            },
    {
        let state = SavedFilterState::new();
        match &self.sticky_keys {
            Some(sticky_keys) => sticky_keys.save(state),
            None => state,
        }
    }

    /// Takes over what a previous chain saved.
    pub fn restore(&mut self, state: &SavedFilterState)
        ensures
            final(self).state().bounce_keys == old(self).state().bounce_keys,
            match (old(self).state().sticky_keys, final(self).state().sticky_keys) {
                (Some(before), Some(after)) => {
                    &&& after.down_keys == before.down_keys
                    &&& match state.sticky_keys_data {
                        Some(data) => {
                            &&& after.contributing_devices == data.contributing_devices@.to_set()
                            &&& after.modifier_state == data.modifier_state
                            &&& after.locked_modifier_state == data.locked_modifier_state
                        },
                        None => after == before,
                    }
                },
                (None, None) => true,
                _ => false,
            },
    {
        match &mut self.sticky_keys {
            Some(sticky_keys) => sticky_keys.restore(state),
            None => {},
        }
    }
}

} // verus!
