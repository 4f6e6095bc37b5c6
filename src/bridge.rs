//! Entry points for a host that hands over raw integers: flag sets, actions and classes are
//! decoded here before they reach the verifier and the classifier.
//!
//! Raw values with bits that no known flag, button, source, class or meta state has, or with an
//! unknown action, mean that the host and this library disagree on the protocol: callers must
//! not pass them.

use crate::input::{
    DeviceClass, DeviceId, InputDevice, ModifierState, MotionAction, MotionButton, MotionFlags,
    RustInputDeviceIdentifier, Source, DEVICE_CLASS_KNOWN_BITS, MODIFIER_STATE_KNOWN_BITS,
    MOTION_ACTION_MAX_CODE, MOTION_BUTTON_KNOWN_BITS, MOTION_FLAGS_KNOWN_BITS, SOURCE_KNOWN_BITS,
};
use crate::input_verifier::{
    movement_transition, InputVerifier, NotifyMotionArgs, RustPointerProperties,
};
use crate::keyboard_classifier::KeyboardClassifier;
use vstd::prelude::*;

verus! {

/// Creates a verifier that knows of no device.
pub fn create_input_verifier(name: String, verify_buttons: bool) -> (r: Box<InputVerifier>)
    ensures
        r.state().touching.is_empty(),
        r.state().hovering.is_empty(),
        r.state().buttons.is_empty(),
        r.verifies_buttons() == verify_buttons,
        r.name() == name@,
        r.wf(),
{
    Box::new(InputVerifier::new(name.as_str(), false, verify_buttons))
}

/// The event that raw values describe.
pub open spec fn raw_event<'a>(
    device_id: i32,
    source: u32,
    action: u32,
    action_button: u32,
    pointer_properties: &'a [RustPointerProperties],
    flags: u32,
    button_state: u32,
) -> NotifyMotionArgs<'a> {
    NotifyMotionArgs {
        device_id: DeviceId(device_id),
        source: Source(source),
        action: MotionAction::spec_from_code(action, MotionButton(action_button)),
        pointer_properties,
        flags: MotionFlags(flags),
        button_state: MotionButton(button_state),
    }
}

/// The message for an event whose action carries an action button but is no button action.
pub open spec fn non_button_action_message(action: MotionAction) -> Seq<char> {
    "Invalid "@ + action.spec_name() + " event: has an action button but is not a button action"@
}

/// Checks a motion event given as raw values. Returns an empty string when the event is
/// valid, and otherwise the verifier's description of the violation, which is never empty.
/// Only button actions may carry an action button.
pub fn process_movement(
    verifier: &mut InputVerifier,
    device_id: i32,
    source: u32,
    action: u32,
    action_button: u32,
    pointer_properties: &[RustPointerProperties],
    flags: u32,
    button_state: u32,
) -> (r: String)
    requires
        old(verifier).wf(),
        source & !SOURCE_KNOWN_BITS == 0,
        flags & !MOTION_FLAGS_KNOWN_BITS == 0,
        action_button & !MOTION_BUTTON_KNOWN_BITS == 0,
        button_state & !MOTION_BUTTON_KNOWN_BITS == 0,
        action & 0xff <= MOTION_ACTION_MAX_CODE,
    ensures
        final(verifier).wf(),
        final(verifier).verifies_buttons() == old(verifier).verifies_buttons(),
        ({
            let event = raw_event(
                device_id,
                source,
                action,
                action_button,
                pointer_properties,
                flags,
                button_state,
            );
            if action_button != 0 && !event.action.spec_is_button_action() {
                &&& final(verifier).state() == old(verifier).state()
                &&& r@ == non_button_action_message(event.action)
            } else {
                let (state, valid) = movement_transition(
                    old(verifier).state(),
                    old(verifier).verifies_buttons(),
                    event,
                );
                &&& final(verifier).state() == state
                &&& (r@.len() == 0 <==> valid)
            }
        }),
{
    let converted_source = match Source::from_bits(source) {
        Some(s) => s,
        None => Source(0),
    };
    let motion_flags = match MotionFlags::from_bits(flags) {
        Some(f) => f,
        None => MotionFlags(0),
    };
    let motion_action_button = match MotionButton::from_bits(action_button) {
        Some(b) => b,
        None => MotionButton(0),
    };
    let motion_button_state = match MotionButton::from_bits(button_state) {
        Some(b) => b,
        None => MotionButton(0),
    };
    let motion_action = MotionAction::from_code(action, motion_action_button);
    if !motion_action_button.is_empty() && !motion_action.is_button_action() {
        let mut message = "Invalid ".to_string();
        message.append(motion_action.name());
        message.append(" event: has an action button but is not a button action");
        return message;
    }
    let result = verifier.process_movement(
        NotifyMotionArgs {
            device_id: DeviceId(device_id),
            source: converted_source,
            action: motion_action,
            pointer_properties,
            flags: motion_flags,
            button_state: motion_button_state,
        },
    );
    match result {
        Ok(()) => {
            proof {
                reveal_strlit("");
            }
            "".to_string()
        },
        Err(message) => message,
    }
}

/// Forgets what the verifier knows of a device.
pub fn reset_device(verifier: &mut InputVerifier, device_id: i32)
    requires
        old(verifier).wf(),
    ensures
        final(verifier).wf(),
        final(verifier).state().touching == old(verifier).state().touching.remove(device_id),
        final(verifier).state().hovering == old(verifier).state().hovering.remove(device_id),
        final(verifier).state().buttons == old(verifier).state().buttons.remove(device_id),
{
    verifier.reset_device(DeviceId(device_id));
}

/// Adds a device to the classifier, or classifies it anew; the classes are given raw.
pub fn notify_keyboard_changed(
    classifier: &mut KeyboardClassifier,
    device_id: i32,
    identifier: RustInputDeviceIdentifier,
    device_classes: u32,
)
    requires
        device_classes & !DEVICE_CLASS_KNOWN_BITS == 0,
    ensures
        final(classifier).devices().remove(device_id) == old(classifier).devices().remove(
            device_id,
        ),
        final(classifier).devices().contains_key(device_id),
        final(classifier).devices()[device_id].descriptor == identifier.descriptor@,
        ({
            let c = final(classifier).devices()[device_id];
            let classes = DeviceClass(device_classes);
            (c.keyboard_type, c.is_finalized)
                == crate::keyboard_classifier::keyboard_classification(
                classes,
                crate::keyboard_classifier::stored_classification(
                    classes,
                    final(classifier).store().records(),
                    identifier.descriptor@,
                ),
                identifier.vendor,
                identifier.product,
            )
        }),
{
    let classes = match DeviceClass::from_bits(device_classes) {
        Some(c) => c,
        None => DeviceClass(0),
    };
    classifier.notify_keyboard_changed(
        InputDevice { device_id: DeviceId(device_id), identifier, classes },
    );
}

/// The code of a device's keyboard type: 0 for none, 1 for non-alphabetic, 2 for alphabetic.
pub fn get_keyboard_type(classifier: &KeyboardClassifier, device_id: i32) -> (r: u32)
    ensures
        r == (if classifier.devices().contains_key(device_id) {
            classifier.devices()[device_id].keyboard_type.spec_code()
        } else {
            0
        }),
{
    classifier.get_keyboard_type(DeviceId(device_id)).code()
}

/// Whether the classification of a device is final.
pub fn is_finalized(classifier: &KeyboardClassifier, device_id: i32) -> (r: bool)
    ensures
        r == (classifier.devices().contains_key(device_id)
            && classifier.devices()[device_id].is_finalized),
{
    classifier.is_finalized(DeviceId(device_id))
}

/// Takes in a key of a device, with its raw meta state.
pub fn process_key(
    classifier: &mut KeyboardClassifier,
    device_id: i32,
    evdev_code: i32,
    meta_state: u32,
)
    requires
        meta_state & !MODIFIER_STATE_KNOWN_BITS == 0,
    ensures
        ({
            let id = device_id;
            if old(classifier).devices().contains_key(id) && meta_state == 0
                && crate::keyboard_classifier::spec_is_alphabetic_key(evdev_code) {
                let descriptor = old(classifier).devices()[id].descriptor;
                &&& final(classifier).devices() == old(classifier).devices().insert(
                    id,
                    crate::keyboard_classifier::DeviceClassification {
                        descriptor,
                        keyboard_type: crate::input::KeyboardType::Alphabetic,
                        is_finalized: true,
                    },
                )
                &&& final(classifier).store().loaded()
                &&& old(classifier).store().loaded() ==> final(classifier).store().records()
                    == crate::data_store::with_record(
                    old(classifier).store().records(),
                    descriptor,
                    crate::input::KeyboardType::Alphabetic,
                    true,
                )
            } else {
                &&& final(classifier).devices() == old(classifier).devices()
                &&& final(classifier).store() == old(classifier).store()
            }
        }),
{
    let modifier_state = match ModifierState::from_bits(meta_state) {
        Some(m) => m,
        None => ModifierState(0),
    };
    classifier.process_key(DeviceId(device_id), evdev_code, modifier_state);
}

} // verus!
