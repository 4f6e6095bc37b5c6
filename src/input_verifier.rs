//! The input verifier: checks a stream of motion events, device by device, against the rules of
//! the pointer protocol and of button presses and releases.

use crate::input::{
    bit_count, lemma_bit_count_split, DeviceId, MotionAction, MotionButton, MotionFlags, Source, SourceClass,
    MOTION_FLAG_CANCELED,
};
use std::collections::HashMap;
use std::collections::HashSet;
use vstd::prelude::*;

verus! {

broadcast use vstd::std_specs::hash::group_hash_axioms;

/// One pointer of a motion event.
#[derive(Clone, Copy, Debug, PartialEq, Eq, Structural, Hash)]
pub struct RustPointerProperties {
    /// The pointer's id, stable for as long as the pointer is down or hovering.
    pub id: i32,
}

/// A movement or a state change reported by a pointer device.
#[derive(Clone, Copy)]
pub struct NotifyMotionArgs<'a> {
    /// The device that emitted the event.
    pub device_id: DeviceId,
    /// The kind of device that emitted the event.
    pub source: Source,
    /// What took place.
    pub action: MotionAction,
    /// The pointers of the event.
    pub pointer_properties: &'a [RustPointerProperties],
    /// Flags of the event.
    pub flags: MotionFlags,
    /// Every button that is pressed at the time of the event.
    ///
    /// A DOWN may hold buttons for which no BUTTON_PRESS came yet. It must then be followed at
    /// once by one BUTTON_PRESS for each of them, building up to the state of the DOWN.
    pub button_state: MotionButton,
}

/// The ids of the given pointers, in order.
pub open spec fn pointer_ids(pointers: Seq<RustPointerProperties>) -> Seq<i32> {
    pointers.map_values(|p: RustPointerProperties| p.id)
}

/// What holds of every well-formed event, whatever came before it.
pub open spec fn event_is_well_formed(event: NotifyMotionArgs, verify_buttons: bool) -> bool {
    let count = event.pointer_properties@.len();
    &&& count >= 1
    &&& match event.action {
        MotionAction::Down | MotionAction::HoverEnter | MotionAction::HoverExit
        | MotionAction::HoverMove | MotionAction::Up => count == 1,
        MotionAction::Cancel => event.flags.spec_contains(MotionFlags(MOTION_FLAG_CANCELED)),
        MotionAction::PointerDown { action_index } | MotionAction::PointerUp { action_index } =>
            action_index < count,
        MotionAction::ButtonPress { action_button }
        | MotionAction::ButtonRelease { action_button } => verify_buttons ==> bit_count(
            action_button.0,
        ) == 1,
        _ => true,
    }
}

/// Checks the properties of an event that hold whatever the current state.
pub fn verify_event(event: NotifyMotionArgs<'_>, verify_buttons: bool) -> (r: Result<(), String>)
    ensures
        r.is_ok() == event_is_well_formed(event, verify_buttons),
        r matches Err(message) ==> message@.len() > 0,
{
    let pointer_count = event.pointer_properties.len();
    if pointer_count < 1 {
        proof {
            reveal_strlit("Invalid motion event: no pointers");
        }
        return Err("Invalid motion event: no pointers".to_string());
    }
    match event.action {
        MotionAction::Down
        | MotionAction::HoverEnter
        | MotionAction::HoverExit
        | MotionAction::HoverMove
        | MotionAction::Up => {
            if pointer_count != 1 {
                proof {
                    reveal_strlit("Invalid ");
                    reveal_strlit(" event: there is more than one pointer in the event");
                }
                let mut message = "Invalid ".to_string();
                message.append(event.action.name());
                message.append(" event: there is more than one pointer in the event");
                return Err(message);
            }
        },
        MotionAction::Cancel => {
            if !event.flags.contains(MotionFlags(MOTION_FLAG_CANCELED)) {
                proof {
                    reveal_strlit("For ACTION_CANCEL, must set FLAG_CANCELED");
                }
                return Err("For ACTION_CANCEL, must set FLAG_CANCELED".to_string());
            }
        },
        MotionAction::PointerDown { action_index }
        | MotionAction::PointerUp { action_index } => {
            if action_index >= pointer_count {
                proof {
                    reveal_strlit("Got ");
                    reveal_strlit(", but the action index is past the event's pointers");
                }
                let mut message = "Got ".to_string();
                message.append(event.action.name());
                message.append(", but the action index is past the event's pointers");
                return Err(message);
            }
        },
        MotionAction::ButtonPress { action_button }
        | MotionAction::ButtonRelease { action_button } => {
            if verify_buttons {
                let button_count = action_button.count();
                if button_count != 1 {
                    proof {
                        reveal_strlit("Invalid ");
                        reveal_strlit(" event: must specify a single action button");
                    }
                    let mut message = "Invalid ".to_string();
                    message.append(event.action.name());
                    message.append(" event: must specify a single action button");
                    return Err(message);
                }
            }
        },
        _ => {},
    }
    Ok(())
}

/// The button state of one device, checked against each of its events.
#[derive(Clone, Copy, Debug, PartialEq, Eq, Structural)]
pub struct ButtonVerifier {
    /// The buttons that are pressed.
    pub button_state: MotionButton,
    /// The buttons of the last DOWN's state for which no BUTTON_PRESS came yet.
    pub pending_buttons: MotionButton,
}

impl ButtonVerifier {
    /// A device with no button pressed.
    pub open spec fn initial() -> ButtonVerifier {
        ButtonVerifier { button_state: MotionButton(0), pending_buttons: MotionButton(0) }
    }

    pub fn new() -> (r: ButtonVerifier)
        ensures
            r == ButtonVerifier::initial(),
    {
        ButtonVerifier { button_state: MotionButton(0), pending_buttons: MotionButton(0) }
    }

    /// The first check: while buttons are pending, only a BUTTON_PRESS of one of them is valid,
    /// and it is no longer pending. `None` when the action is refused.
    pub open spec fn after_pending(self, action: MotionAction) -> Option<ButtonVerifier> {
        if self.pending_buttons.0 == 0 {
            Some(self)
        } else {
            match action {
                MotionAction::ButtonPress { action_button } => if self.pending_buttons.spec_contains(
                    action_button,
                ) {
                    Some(
                        ButtonVerifier {
                            button_state: self.button_state,
                            pending_buttons: self.pending_buttons.spec_difference(action_button),
                        },
                    )
                } else {
                    None
                },
                _ => None,
            }
        }
    }

    /// The button state that an event with this action must report, from the state `self`
    /// (`state` is what the event reports). `None` when the action itself is refused: a DOWN
    /// that drops a pressed button, a press of a pressed button, a release of a button that
    /// is not pressed.
    pub open spec fn expected_state(self, action: MotionAction, state: MotionButton) -> Option<
        MotionButton,
    > {
        match action {
            MotionAction::Down => if self.button_state.spec_difference(state).0 != 0 {
                None
            } else {
                Some(state)
            },
            MotionAction::ButtonPress { action_button } => if self.button_state.spec_contains(
                action_button,
            ) {
                None
            } else {
                Some(self.button_state.spec_union(action_button))
            },
            MotionAction::ButtonRelease { action_button } => if !self.button_state.spec_contains(
                action_button,
            ) {
                None
            } else {
                Some(self.button_state.spec_difference(action_button))
            },
            _ => Some(self.button_state),
        }
    }

    /// The state after an event with `action` and button state `state`, and whether the event
    /// is valid.
    pub open spec fn transition(self, action: MotionAction, state: MotionButton) -> (
        ButtonVerifier,
        bool,
    ) {
        match self.after_pending(action) {
            None => (self, false),
            Some(v) => {
                // A DOWN may bring new buttons: they become pending, and the state waits for
                // their presses.
                let v2 = if action is Down && v.expected_state(action, state) is Some {
                    ButtonVerifier {
                        button_state: v.button_state,
                        pending_buttons: state.spec_difference(v.button_state),
                    }
                } else {
                    v
                };
                match v.expected_state(action, state) {
                    None => (v2, false),
                    Some(expected) => if state != expected {
                        (v2, false)
                    } else if action is Down {
                        (v2, true)
                    } else {
                        (ButtonVerifier { button_state: state, pending_buttons: v2.pending_buttons }, true)
                    },
                }
            },
        }
    }

    /// Checks an event against the button state of its device, and updates that state.
    pub fn process_event(&mut self, event: NotifyMotionArgs<'_>) -> (r: Result<(), String>)
        ensures
            *final(self) == old(self).transition(event.action, event.button_state).0,
            r.is_ok() == old(self).transition(event.action, event.button_state).1,
            r matches Err(message) ==> message@.len() > 0,
    {
        if !self.pending_buttons.is_empty() {
            // A DOWN with further buttons in its state must be followed at once by the
            // BUTTON_PRESS events of those buttons.
            match event.action {
                MotionAction::ButtonPress { action_button } => {
                    if self.pending_buttons.contains(action_button) {
                        self.pending_buttons = self.pending_buttons.difference(action_button);
                    } else {
                        proof {
                            reveal_strlit("After DOWN event, expected BUTTON_PRESS event(s) for the pending buttons");
                        }
                        return Err(
                            "After DOWN event, expected BUTTON_PRESS event(s) for the pending buttons".to_string(),
                        );
                    }
                },
                _ => {
                    proof {
                        reveal_strlit("After DOWN event, expected BUTTON_PRESS event(s) for the pending buttons, but got ");
                    }
                    let mut message =
                        "After DOWN event, expected BUTTON_PRESS event(s) for the pending buttons, but got ".to_string();
                    message.append(event.action.name());
                    return Err(message);
                },
            }
        }
        let expected_state = match event.action {
            MotionAction::Down => {
                if !self.button_state.difference(event.button_state).is_empty() {
                    proof {
                        reveal_strlit("DOWN event button state is missing pressed buttons");
                    }
                    return Err("DOWN event button state is missing pressed buttons".to_string());
                }
                self.pending_buttons = event.button_state.difference(self.button_state);
                // Extra buttons are valid on a DOWN: its state is the expected one.
                event.button_state
            },
            MotionAction::ButtonPress { action_button } => {
                if self.button_state.contains(action_button) {
                    proof {
                        reveal_strlit("Duplicate BUTTON_PRESS; button state already contains the button");
                    }
                    return Err(
                        "Duplicate BUTTON_PRESS; button state already contains the button".to_string(),
                    );
                }
                self.button_state.union(action_button)
            },
            MotionAction::ButtonRelease { action_button } => {
                if !self.button_state.contains(action_button) {
                    proof {
                        reveal_strlit("Invalid BUTTON_RELEASE; button state doesn't contain the button");
                    }
                    return Err(
                        "Invalid BUTTON_RELEASE; button state doesn't contain the button".to_string(),
                    );
                }
                self.button_state.difference(action_button)
            },
            _ => self.button_state,
        };
        if event.button_state != expected_state {
            proof {
                reveal_strlit("Unexpected button state for ");
                reveal_strlit(" event");
            }
            let mut message = "Unexpected button state for ".to_string();
            message.append(event.action.name());
            message.append(" event");
            return Err(message);
        }
        // A DOWN can leave buttons pending: its state is taken on by their presses.
        if event.action != MotionAction::Down {
            self.button_state = event.button_state;
        }
        Ok(())
    }
}


/// The pointer sets of one kind (touching or hovering) of every device.
pub type PointerSets = Map<i32, Set<i32>>;

/// `true` when the event's pointers are exactly the device's touching pointers, each once.
pub open spec fn pointers_match(sets: PointerSets, device: i32, ids: Seq<i32>) -> bool {
    &&& sets.contains_key(device)
    &&& ids.len() == sets[device].len()
    &&& sets[device] == ids.to_set()
}

/// The touching pointers after an event, and whether the event is valid for them.
pub open spec fn touching_transition(
    sets: PointerSets,
    device: i32,
    action: MotionAction,
    ids: Seq<i32>,
) -> (PointerSets, bool) {
    match action {
        MotionAction::Down => if sets.contains_key(device) {
            (sets, false)
        } else {
            (sets.insert(device, set![ids[0]]), true)
        },
        MotionAction::PointerDown { action_index } => if !sets.contains_key(device) || sets[device].len()
            + 1 != ids.len() || sets[device].contains(ids[action_index as int]) {
            (sets, false)
        } else {
            (sets.insert(device, sets[device].insert(ids[action_index as int])), true)
        },
        MotionAction::Move => (sets, pointers_match(sets, device, ids)),
        MotionAction::PointerUp { action_index } => if pointers_match(sets, device, ids) {
            (sets.insert(device, sets[device].remove(ids[action_index as int])), true)
        } else {
            (sets, false)
        },
        MotionAction::Up => if sets.contains_key(device) && sets[device].len() == 1
            && sets[device].contains(ids[0]) {
            (sets.remove(device), true)
        } else {
            (sets, false)
        },
        MotionAction::Cancel => if pointers_match(sets, device, ids) {
            (sets.remove(device), true)
        } else {
            (sets, false)
        },
        _ => (sets, true),
    }
}

/// The hovering pointers after an event, and whether the event is valid for them. Only one
/// pointer can hover at a time.
pub open spec fn hovering_transition(
    sets: PointerSets,
    device: i32,
    action: MotionAction,
    ids: Seq<i32>,
) -> (PointerSets, bool) {
    match action {
        MotionAction::HoverEnter => if sets.contains_key(device) {
            (sets, false)
        } else {
            (sets.insert(device, set![ids[0]]), true)
        },
        // A HOVER_MOVE without a HOVER_ENTER before it starts a hovering pointer.
        MotionAction::HoverMove => {
            let current = if sets.contains_key(device) {
                sets[device]
            } else {
                Set::empty()
            };
            (sets.insert(device, current.insert(ids[0])), true)
        },
        MotionAction::HoverExit => if !sets.contains_key(device) {
            (sets, false)
        } else if !sets[device].remove(ids[0]).is_empty() {
            (sets.insert(device, sets[device].remove(ids[0])), false)
        } else {
            (sets.remove(device), true)
        },
        _ => (sets, true),
    }
}

/// What the verifier knows of every device.
pub struct VerifierState {
    pub touching: PointerSets,
    pub hovering: PointerSets,
    pub buttons: Map<i32, ButtonVerifier>,
}

/// The button state of a device: the initial one until it sends an event.
pub open spec fn buttons_of(buttons: Map<i32, ButtonVerifier>, device: i32) -> ButtonVerifier {
    if buttons.contains_key(device) {
        buttons[device]
    } else {
        ButtonVerifier::initial()
    }
}

/// The verifier's state after a motion event, and whether the event is valid.
pub open spec fn movement_transition(
    state: VerifierState,
    verify_buttons: bool,
    event: NotifyMotionArgs,
) -> (VerifierState, bool) {
    let device = event.device_id.0;
    let ids = pointer_ids(event.pointer_properties@);
    if !event_is_well_formed(event, verify_buttons) {
        (state, false)
    } else if !event.source.spec_is_from_class(SourceClass::Pointer) {
        // Events of other sources, such as relative mouse moves, are checked for their shape
        // only.
        (state, true)
    } else {
        let (buttons, buttons_ok) = if verify_buttons {
            let (b, ok) = buttons_of(state.buttons, device).transition(
                event.action,
                event.button_state,
            );
            (state.buttons.insert(device, b), ok)
        } else {
            (state.buttons, true)
        };
        if !buttons_ok {
            (VerifierState { touching: state.touching, hovering: state.hovering, buttons }, false)
        } else {
            let (touching, touching_ok) = touching_transition(
                state.touching,
                device,
                event.action,
                ids,
            );
            let (hovering, hovering_ok) = hovering_transition(
                state.hovering,
                device,
                event.action,
                ids,
            );
            (VerifierState { touching, hovering, buttons }, touching_ok && hovering_ok)
        }
    }
}

/// Validates a stream of motion events.
pub struct InputVerifier {
    name: String,
    should_log: bool,
    verify_buttons: bool,
    touching_pointer_ids_by_device: HashMap<i32, HashSet<i32>>,
    hovering_pointer_ids_by_device: HashMap<i32, HashSet<i32>>,
    button_verifier_by_device: HashMap<i32, ButtonVerifier>,
}

/// `true` when every set of the map is finite.
pub open spec fn all_finite(sets: PointerSets) -> bool {
    forall|d: i32| #[trigger] sets.contains_key(d) ==> sets[d].finite()
}

/// The sets of a map of pointer id sets.
pub open spec fn sets_view(m: HashMap<i32, HashSet<i32>>) -> PointerSets {
    m@.map_values(|s: HashSet<i32>| s@)
}

impl InputVerifier {
    /// Every pointer set that the verifier holds is finite.
    pub closed spec fn wf(&self) -> bool {
        &&& all_finite(sets_view(self.touching_pointer_ids_by_device))
        &&& all_finite(sets_view(self.hovering_pointer_ids_by_device))
    }

    pub closed spec fn state(&self) -> VerifierState {
        VerifierState {
            touching: sets_view(self.touching_pointer_ids_by_device),
            hovering: sets_view(self.hovering_pointer_ids_by_device),
            buttons: self.button_verifier_by_device@,
        }
    }

    /// Whether the host asked for the events to be logged.
    pub fn should_log(&self) -> bool {
        self.should_log
    }

    /// Whether button presses and releases are checked.
    pub closed spec fn verifies_buttons(&self) -> bool {
        self.verify_buttons
    }

    /// The name that the verifier's messages start with.
    pub closed spec fn name(&self) -> Seq<char> {
        self.name@
    }

    /// Creates a verifier that knows of no device.
    pub fn new(name: &str, should_log: bool, verify_buttons: bool) -> (r: InputVerifier)
        ensures
            r.state().touching.is_empty(),
            r.state().hovering.is_empty(),
            r.state().buttons.is_empty(),
            r.verifies_buttons() == verify_buttons,
            r.name() == name@,
            r.wf(),
    {
        let r = InputVerifier {
            name: name.to_string(),
            should_log,
            verify_buttons,
            touching_pointer_ids_by_device: HashMap::new(),
            hovering_pointer_ids_by_device: HashMap::new(),
            button_verifier_by_device: HashMap::new(),
        };
        assert(r.state().touching =~= Map::empty());
        assert(r.state().hovering =~= Map::empty());
        assert(sets_view(r.touching_pointer_ids_by_device) =~= Map::empty());
        assert(sets_view(r.hovering_pointer_ids_by_device) =~= Map::empty());
        r
    }

    /// Checks a motion event against the state of its device and updates that state. An
    /// invalid event gives an error that describes the violation.
    pub fn process_movement(&mut self, event: NotifyMotionArgs<'_>) -> (r: Result<(), String>)
        requires
            old(self).wf(),
        ensures
            final(self).wf(),
            final(self).state() == movement_transition(
                old(self).state(),
                old(self).verifies_buttons(),
                event,
            ).0,
            r.is_ok() == movement_transition(
                old(self).state(),
                old(self).verifies_buttons(),
                event,
            ).1,
            final(self).verifies_buttons() == old(self).verifies_buttons(),
            final(self).name() == old(self).name(),
            r matches Err(message) ==> message@.len() > 0,
    {
        let checked = verify_event(event, self.verify_buttons);
        if checked.is_err() {
            return checked;
        }
        if !event.source.is_from_class(SourceClass::Pointer) {
            // Relative mouse moves and other non-pointer sources are checked for their shape
            // only.
            return Ok(());
        }
        if self.verify_buttons {
            let device = event.device_id.0;
            let mut buttons = match self.button_verifier_by_device.get(&device) {
                Some(b) => *b,
                None => ButtonVerifier::new(),
            };
            let result = buttons.process_event(event);
            self.button_verifier_by_device.insert(device, buttons);
            if result.is_err() {
                return result;
            }
        }
        let touching = self.process_touching(event);
        let hovering = self.process_hovering(event);
        if touching.is_err() {
            return touching;
        }
        hovering
    }

    /// Takes the pointer set of a device out of a map: empty when the device has none.
    fn take_set(m: &mut HashMap<i32, HashSet<i32>>, device: i32) -> (r: HashSet<i32>)
        requires
            all_finite(sets_view(*old(m))),
        ensures
            all_finite(sets_view(*final(m))),
            r@.finite(),
            sets_view(*final(m)) == sets_view(*old(m)).remove(device),
            r@ == (if sets_view(*old(m)).contains_key(device) {
                sets_view(*old(m))[device]
            } else {
                Set::<i32>::empty()
            }),
    {
        let r = match m.remove(&device) {
            Some(s) => s,
            None => HashSet::new(),
        };
        assert(sets_view(*m) =~= sets_view(*old(m)).remove(device));
        r
    }

    /// Puts the pointer set of a device into a map.
    fn put_set(m: &mut HashMap<i32, HashSet<i32>>, device: i32, s: HashSet<i32>)
        requires
            all_finite(sets_view(*old(m))),
            s@.finite(),
        ensures
            all_finite(sets_view(*final(m))),
            sets_view(*final(m)) == sets_view(*old(m)).insert(device, s@),
    {
        m.insert(device, s);
        assert(sets_view(*m) =~= sets_view(*old(m)).insert(device, s@));
    }

    /// `true` when the event's pointers are exactly the touching pointers of its device.
    fn ensure_touching_pointers_match(
        &self,
        device_id: DeviceId,
        pointer_properties: &[RustPointerProperties],
    ) -> (r: bool)
        requires
            self.wf(),
        ensures
            r == pointers_match(self.state().touching, device_id.0, pointer_ids(pointer_properties@)),
    {
        let ghost ids = pointer_ids(pointer_properties@);
        let pointers = match self.touching_pointer_ids_by_device.get(&device_id.0) {
            Some(p) => p,
            None => {
                return false;
            },
        };
        if pointers.len() != pointer_properties.len() {
            return false;
        }
        let mut incoming: HashSet<i32> = HashSet::new();
        let mut i: usize = 0;
        while i < pointer_properties.len()
            invariant
                i <= pointer_properties@.len(),
                ids == pointer_ids(pointer_properties@),
                incoming@ == ids.subrange(0, i as int).to_set(),
                pointers@ == self.state().touching[device_id.0],
            decreases pointer_properties@.len() - i,
        {
            proof {
                assert(ids.subrange(0, i + 1) =~= ids.subrange(0, i as int).push(ids[i as int]));
                ids.subrange(0, i as int).lemma_push_to_set_commute(ids[i as int]);
            }
            incoming.insert(pointer_properties[i].id);
            i = i + 1;
        }
        assert(ids.subrange(0, i as int) =~= ids);
        if pointers.len() != incoming.len() {
            return false;
        }
        let mut j: usize = 0;
        while j < pointer_properties.len()
            invariant
                j <= pointer_properties@.len(),
                ids == pointer_ids(pointer_properties@),
                forall|k: int| 0 <= k < j ==> pointers@.contains(#[trigger] ids[k]),
                self.state().touching.contains_key(device_id.0),
                pointers@ == self.state().touching[device_id.0],
            decreases pointer_properties@.len() - j,
        {
            if !pointers.contains(&pointer_properties[j].id) {
                assert(ids.to_set().contains(ids[j as int]));
                return false;
            }
            j = j + 1;
        }
        proof {
            broadcast use vstd::seq_lib::seq_to_set_is_finite;

            assert(self.state().touching.contains_key(device_id.0));
            assert(pointers@.finite());
            assert(incoming@.subset_of(pointers@));
            vstd::set_lib::lemma_subset_equality(incoming@, pointers@);
        }
        true
    }

    /// The part of `process_movement` on touching pointers.
    fn process_touching(&mut self, event: NotifyMotionArgs<'_>) -> (r: Result<(), String>)
        requires
            old(self).wf(),
            event_is_well_formed(event, old(self).verify_buttons),
        ensures
            final(self).wf(),
            final(self).state().touching == touching_transition(
                old(self).state().touching,
                event.device_id.0,
                event.action,
                pointer_ids(event.pointer_properties@),
            ).0,
            r.is_ok() == touching_transition(
                old(self).state().touching,
                event.device_id.0,
                event.action,
                pointer_ids(event.pointer_properties@),
            ).1,
            final(self).state().hovering == old(self).state().hovering,
            final(self).state().buttons == old(self).state().buttons,
            final(self).verify_buttons == old(self).verify_buttons,
            final(self).name == old(self).name,
            r matches Err(message) ==> message@.len() > 0,
    {
        let ghost ids = pointer_ids(event.pointer_properties@);
        let device = event.device_id.0;
        match event.action {
            MotionAction::Down => {
                if self.touching_pointer_ids_by_device.contains_key(&device) {
                    proof {
                        reveal_strlit(": Invalid DOWN event - pointers already down for the device");
                    }
                    let mut message = self.name.clone();
                    message.append(": Invalid DOWN event - pointers already down for the device");
                    return Err(message);
                }
                let mut it: HashSet<i32> = HashSet::new();
                it.insert(event.pointer_properties[0].id);
                assert(it@ =~= set![ids[0]]);
                Self::put_set(&mut self.touching_pointer_ids_by_device, device, it);
            },
            MotionAction::PointerDown { action_index } => {
                if !self.touching_pointer_ids_by_device.contains_key(&device) {
                    proof {
                        reveal_strlit(": Received POINTER_DOWN but no pointers are currently down for the device");
                    }
                    let mut message = self.name.clone();
                    message.append(
                        ": Received POINTER_DOWN but no pointers are currently down for the device",
                    );
                    return Err(message);
                }
                let count = match self.touching_pointer_ids_by_device.get(&device) {
                    Some(p) => p.len(),
                    None => 0,
                };
                if count != event.pointer_properties.len() - 1 {
                    proof {
                        reveal_strlit(": The number of touching pointers does not match the incoming POINTER_DOWN event");
                    }
                    let mut message = self.name.clone();
                    message.append(
                        ": The number of touching pointers does not match the incoming POINTER_DOWN event",
                    );
                    return Err(message);
                }
                let pointer_id = event.pointer_properties[action_index].id;
                let mut it = Self::take_set(&mut self.touching_pointer_ids_by_device, device);
                if it.contains(&pointer_id) {
                    Self::put_set(&mut self.touching_pointer_ids_by_device, device, it);
                    assert(sets_view(self.touching_pointer_ids_by_device) =~= old(
                        self,
                    ).state().touching);
                    proof {
                        reveal_strlit(": Pointer with the POINTER_DOWN id is already down");
                    }
                    let mut message = self.name.clone();
                    message.append(": Pointer with the POINTER_DOWN id is already down");
                    return Err(message);
                }
                it.insert(pointer_id);
                Self::put_set(&mut self.touching_pointer_ids_by_device, device, it);
                assert(sets_view(self.touching_pointer_ids_by_device) =~= old(
                    self,
                ).state().touching.insert(device, old(self).state().touching[device].insert(ids[action_index as int])));
            },
            MotionAction::Move => {
                if !self.ensure_touching_pointers_match(event.device_id, event.pointer_properties) {
                    proof {
                        reveal_strlit(": ACTION_MOVE touching pointers don't match");
                    }
                    let mut message = self.name.clone();
                    message.append(": ACTION_MOVE touching pointers don't match");
                    return Err(message);
                }
            },
            MotionAction::PointerUp { action_index } => {
                if !self.ensure_touching_pointers_match(event.device_id, event.pointer_properties) {
                    proof {
                        reveal_strlit(": ACTION_POINTER_UP touching pointers don't match");
                    }
                    let mut message = self.name.clone();
                    message.append(": ACTION_POINTER_UP touching pointers don't match");
                    return Err(message);
                }
                let pointer_id = event.pointer_properties[action_index].id;
                let mut it = Self::take_set(&mut self.touching_pointer_ids_by_device, device);
                it.remove(&pointer_id);
                Self::put_set(&mut self.touching_pointer_ids_by_device, device, it);
                assert(sets_view(self.touching_pointer_ids_by_device) =~= old(
                    self,
                ).state().touching.insert(device, old(self).state().touching[device].remove(ids[action_index as int])));
            },
            MotionAction::Up => {
                let pointer_id = event.pointer_properties[0].id;
                let valid = match self.touching_pointer_ids_by_device.get(&device) {
                    Some(it) => it.len() == 1 && it.contains(&pointer_id),
                    None => false,
                };
                if !valid {
                    proof {
                        reveal_strlit(": Got ACTION_UP, but the pointer is not the only touching pointer of the device");
                    }
                    let mut message = self.name.clone();
                    message.append(
                        ": Got ACTION_UP, but the pointer is not the only touching pointer of the device",
                    );
                    return Err(message);
                }
                let _ = Self::take_set(&mut self.touching_pointer_ids_by_device, device);
            },
            MotionAction::Cancel => {
                if !self.ensure_touching_pointers_match(event.device_id, event.pointer_properties) {
                    proof {
                        reveal_strlit(": Got ACTION_CANCEL, but the pointers don't match");
                    }
                    let mut message = self.name.clone();
                    message.append(": Got ACTION_CANCEL, but the pointers don't match");
                    return Err(message);
                }
                let _ = Self::take_set(&mut self.touching_pointer_ids_by_device, device);
            },
            _ => {},
        }
        Ok(())
    }

    /// The part of `process_movement` on hovering pointers.
    fn process_hovering(&mut self, event: NotifyMotionArgs<'_>) -> (r: Result<(), String>)
        requires
            old(self).wf(),
            event_is_well_formed(event, old(self).verify_buttons),
        ensures
            final(self).wf(),
            final(self).state().hovering == hovering_transition(
                old(self).state().hovering,
                event.device_id.0,
                event.action,
                pointer_ids(event.pointer_properties@),
            ).0,
            r.is_ok() == hovering_transition(
                old(self).state().hovering,
                event.device_id.0,
                event.action,
                pointer_ids(event.pointer_properties@),
            ).1,
            final(self).state().touching == old(self).state().touching,
            final(self).state().buttons == old(self).state().buttons,
            final(self).verify_buttons == old(self).verify_buttons,
            final(self).name == old(self).name,
            r matches Err(message) ==> message@.len() > 0,
    {
        let ghost ids = pointer_ids(event.pointer_properties@);
        let device = event.device_id.0;
        // Hovering takes a single pointer: there are no hover events for further pointers.
        match event.action {
            MotionAction::HoverEnter => {
                if self.hovering_pointer_ids_by_device.contains_key(&device) {
                    proof {
                        reveal_strlit(": Invalid HOVER_ENTER event - pointers already hovering for the device");
                    }
                    let mut message = self.name.clone();
                    message.append(
                        ": Invalid HOVER_ENTER event - pointers already hovering for the device",
                    );
                    return Err(message);
                }
                let mut it: HashSet<i32> = HashSet::new();
                it.insert(event.pointer_properties[0].id);
                assert(it@ =~= set![ids[0]]);
                Self::put_set(&mut self.hovering_pointer_ids_by_device, device, it);
            },
            MotionAction::HoverMove => {
                // A HOVER_MOVE without a HOVER_ENTER before it starts a hovering pointer.
                let mut it = Self::take_set(&mut self.hovering_pointer_ids_by_device, device);
                it.insert(event.pointer_properties[0].id);
                Self::put_set(&mut self.hovering_pointer_ids_by_device, device, it);
                assert(sets_view(self.hovering_pointer_ids_by_device) =~= hovering_transition(
                    old(self).state().hovering,
                    device,
                    event.action,
                    ids,
                ).0);
            },
            MotionAction::HoverExit => {
                if !self.hovering_pointer_ids_by_device.contains_key(&device) {
                    proof {
                        reveal_strlit(": Invalid HOVER_EXIT event - no pointers are hovering for the device");
                    }
                    let mut message = self.name.clone();
                    message.append(": Invalid HOVER_EXIT event - no pointers are hovering for the device");
                    return Err(message);
                }
                let pointer_id = event.pointer_properties[0].id;
                let mut it = Self::take_set(&mut self.hovering_pointer_ids_by_device, device);
                it.remove(&pointer_id);
                if !it.is_empty() {
                    Self::put_set(&mut self.hovering_pointer_ids_by_device, device, it);
                    assert(sets_view(self.hovering_pointer_ids_by_device) =~= old(
                        self,
                    ).state().hovering.insert(device, old(self).state().hovering[device].remove(ids[0])));
                    proof {
                        reveal_strlit(": Removed the hovering pointer, but pointers are still hovering");
                    }
                    let mut message = self.name.clone();
                    message.append(": Removed the hovering pointer, but pointers are still hovering");
                    return Err(message);
                }
            },
            _ => {},
        }
        Ok(())
    }

    /// Forgets what the verifier knows of a device, whose next events start a new gesture.
    pub fn reset_device(&mut self, device_id: DeviceId)
        requires
            old(self).wf(),
        ensures
            final(self).wf(),
            final(self).state().touching == old(self).state().touching.remove(device_id.0),
            final(self).state().hovering == old(self).state().hovering.remove(device_id.0),
            final(self).state().buttons == old(self).state().buttons.remove(device_id.0),
            final(self).verifies_buttons() == old(self).verifies_buttons(),
            final(self).name() == old(self).name(),
    {
        let _ = Self::take_set(&mut self.touching_pointer_ids_by_device, device_id.0);
        let _ = Self::take_set(&mut self.hovering_pointer_ids_by_device, device_id.0);
        self.button_verifier_by_device.remove(&device_id.0);
    }
}

/// A DOWN is refused while its device already has touching pointers: gestures of one device do
/// not overlap.
pub proof fn lemma_down_refused_while_touching(
    state: VerifierState,
    verify_buttons: bool,
    event: NotifyMotionArgs,
)
    requires
        event.action == MotionAction::Down,
        event.source.spec_is_from_class(SourceClass::Pointer),
        state.touching.contains_key(event.device_id.0),
    ensures
        !movement_transition(state, verify_buttons, event).1,
{
}

/// A MOVE, CANCEL or POINTER_UP is accepted only when its pointers are exactly the touching
/// pointers of its device.
pub proof fn lemma_pointers_must_match(
    state: VerifierState,
    verify_buttons: bool,
    event: NotifyMotionArgs,
)
    requires
        event.action is Move || event.action is Cancel || event.action is PointerUp,
        event.source.spec_is_from_class(SourceClass::Pointer),
        movement_transition(state, verify_buttons, event).1,
    ensures
        pointers_match(state.touching, event.device_id.0, pointer_ids(event.pointer_properties@)),
{
}

/// When buttons are checked, an accepted event reports the button state that the verifier
/// expects; after any accepted event but a DOWN, that state is the device's button state.
pub proof fn lemma_button_state_is_expected(state: VerifierState, event: NotifyMotionArgs)
    requires
        event.source.spec_is_from_class(SourceClass::Pointer),
        movement_transition(state, true, event).1,
    ensures
        ({
            let device = event.device_id.0;
            let before = buttons_of(state.buttons, device);
            let after = movement_transition(state, true, event).0.buttons[device];
            &&& before.after_pending(event.action) is Some
            &&& before.after_pending(event.action).unwrap().expected_state(
                event.action,
                event.button_state,
            ) == Some(event.button_state)
            &&& !(event.action is Down) ==> after.button_state == event.button_state
        }),
{
}

/// An accepted DOWN makes pending the buttons of its state that were not pressed before.
pub proof fn lemma_down_makes_new_buttons_pending(state: VerifierState, event: NotifyMotionArgs)
    requires
        event.action == MotionAction::Down,
        event.source.spec_is_from_class(SourceClass::Pointer),
        movement_transition(state, true, event).1,
    ensures
        ({
            let device = event.device_id.0;
            let after = movement_transition(state, true, event).0.buttons[device];
            &&& after.pending_buttons == event.button_state.spec_difference(
                buttons_of(state.buttons, device).button_state,
            )
            &&& after.button_state == buttons_of(state.buttons, device).button_state
        }),
{
}

/// While buttons are pending, the only event accepted is a BUTTON_PRESS of one of them, and it
/// leaves exactly one button fewer pending: a DOWN that brings N new buttons must be followed
/// by N presses before anything else.
pub proof fn lemma_pending_buttons_drain_one_by_one(state: VerifierState, event: NotifyMotionArgs)
    requires
        event.source.spec_is_from_class(SourceClass::Pointer),
        buttons_of(state.buttons, event.device_id.0).pending_buttons.0 != 0,
        movement_transition(state, true, event).1,
    ensures
        ({
            let device = event.device_id.0;
            let before = buttons_of(state.buttons, device).pending_buttons;
            let after = movement_transition(state, true, event).0.buttons[device].pending_buttons;
            &&& event.action matches MotionAction::ButtonPress { action_button }
                && before.spec_contains(action_button)
            &&& bit_count(after.0) + 1 == bit_count(before.0)
        }),
{
    let device = event.device_id.0;
    let before = buttons_of(state.buttons, device).pending_buttons;
    if let MotionAction::ButtonPress { action_button } = event.action {
        lemma_bit_count_split(before.0, action_button.0);
        assert(before.0 & action_button.0 == action_button.0);
    }
}

} // verus!
