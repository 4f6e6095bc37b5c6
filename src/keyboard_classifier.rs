//! The keyboard classifier: tells whether an input device is an alphabetic keyboard, a
//! keyboard without the alphabetic rows, or no keyboard.
//!
//! The first classification comes from the device's classes, from what the data store learned
//! of the device before, and from a table of known devices. A keyboard whose classes claim
//! alphabetic keys but that was classified as non-alphabetic is not finalized: the first key of
//! an alphabetic row that it sends makes it alphabetic, for good.

use crate::data_store::{lookup, with_record, ClassificationRecord, DataStore};
use crate::input::{
    DeviceClass, DeviceId, InputDevice, KeyboardType, ModifierState, DEVICE_CLASS_ALPHABETIC_KEY,
    DEVICE_CLASS_CURSOR, DEVICE_CLASS_DPAD, DEVICE_CLASS_EXTERNAL, DEVICE_CLASS_EXTERNAL_STYLUS,
    DEVICE_CLASS_GAMEPAD, DEVICE_CLASS_JOYSTICK, DEVICE_CLASS_KEYBOARD, DEVICE_CLASS_MULTI_TOUCH,
    DEVICE_CLASS_ROTARY_ENCODER, DEVICE_CLASS_SWITCH, DEVICE_CLASS_TOUCH, DEVICE_CLASS_TOUCHPAD,
    DEVICE_CLASS_VIRTUAL,
};
use crate::keyboard_classification_config::{
    find_classified_device, known_classification, known_devices,
};
use std::collections::HashMap;
use vstd::prelude::*;

verus! {

broadcast use vstd::std_specs::hash::group_hash_axioms;

/// `true` when the classes hold the class `class`.
pub open spec fn has_class(classes: DeviceClass, class: u32) -> bool {
    classes.spec_contains(DeviceClass(class))
}

/// `true` for an external keyboard that is not virtual: the classifier consults the data store
/// and the table of known devices for it.
pub open spec fn is_external_keyboard(classes: DeviceClass) -> bool {
    &&& has_class(classes, DEVICE_CLASS_KEYBOARD)
    &&& has_class(classes, DEVICE_CLASS_EXTERNAL)
    &&& !has_class(classes, DEVICE_CLASS_VIRTUAL)
}

/// `true` when the device is more than a keyboard: a pointing device, a game controller, a
/// switch or a rotary encoder that also has keys.
pub open spec fn is_composite_device(classes: DeviceClass) -> bool {
    ||| has_class(classes, DEVICE_CLASS_TOUCH)
    ||| has_class(classes, DEVICE_CLASS_CURSOR)
    ||| has_class(classes, DEVICE_CLASS_MULTI_TOUCH)
    ||| has_class(classes, DEVICE_CLASS_EXTERNAL_STYLUS)
    ||| has_class(classes, DEVICE_CLASS_TOUCHPAD)
    ||| has_class(classes, DEVICE_CLASS_DPAD)
    ||| has_class(classes, DEVICE_CLASS_GAMEPAD)
    ||| has_class(classes, DEVICE_CLASS_SWITCH)
    ||| has_class(classes, DEVICE_CLASS_JOYSTICK)
    ||| has_class(classes, DEVICE_CLASS_ROTARY_ENCODER)
}

/// The type that the classes alone give: alphabetic when the device has alphabetic keys.
pub open spec fn type_from_keys(classes: DeviceClass) -> KeyboardType {
    if has_class(classes, DEVICE_CLASS_ALPHABETIC_KEY) {
        KeyboardType::Alphabetic
    } else {
        KeyboardType::NonAlphabetic
    }
}

/// The keyboard type of a device and whether it is final, from its classes, what the data
/// store holds for it (`stored`) and its vendor and product ids. The first rule that applies
/// decides.
pub open spec fn keyboard_classification(
    classes: DeviceClass,
    stored: Option<(KeyboardType, bool)>,
    vendor: u16,
    product: u16,
) -> (KeyboardType, bool) {
    if !has_class(classes, DEVICE_CLASS_KEYBOARD) {
        (KeyboardType::NonKeyboard, true)
    } else if !is_external_keyboard(classes) {
        // Internal and virtual keyboards.
        (type_from_keys(classes), true)
    } else if stored is Some {
        stored.unwrap()
    } else if known_classification(known_devices(), vendor, product) is Some {
        known_classification(known_devices(), vendor, product).unwrap()
    } else if is_composite_device(classes) {
        // Not final while the kernel claims alphabetic keys: a key event may confirm them.
        (KeyboardType::NonAlphabetic, !has_class(classes, DEVICE_CLASS_ALPHABETIC_KEY))
    } else {
        (type_from_keys(classes), true)
    }
}

/// What the data store gives for a device: only external keyboards that are not virtual are
/// looked up.
pub open spec fn stored_classification(
    classes: DeviceClass,
    records: Seq<ClassificationRecord>,
    descriptor: Seq<char>,
) -> Option<(KeyboardType, bool)> {
    if is_external_keyboard(classes) {
        lookup(records, descriptor)
    } else {
        None
    }
}

pub open spec fn spec_is_alphabetic_key(evdev_code: i32) -> bool {
    // Rows Q to ], A to `, and \ to /.
    (16 <= evdev_code <= 27) || (30 <= evdev_code <= 41) || (43 <= evdev_code <= 53)
}

/// What the classifier knows of a device.
pub struct DeviceClassification {
    pub descriptor: Seq<char>,
    pub keyboard_type: KeyboardType,
    pub is_finalized: bool,
}

/// A device that the classifier tracks, with its classification.
pub struct KeyboardInfo {
    device: InputDevice,
    keyboard_type: KeyboardType,
    is_finalized: bool,
}

impl KeyboardInfo {
    pub closed spec fn view(&self) -> DeviceClassification {
        DeviceClassification {
            descriptor: self.device.identifier.descriptor@,
            keyboard_type: self.keyboard_type,
            is_finalized: self.is_finalized,
        }
    }
}

/// Classifies keyboards into alphabetic, non-alphabetic and no keyboard.
pub struct KeyboardClassifier {
    device_map: HashMap<i32, KeyboardInfo>,
    data_store: DataStore,
}

impl KeyboardClassifier {
    /// The tracked devices.
    pub closed spec fn devices(&self) -> Map<i32, DeviceClassification> {
        self.device_map@.map_values(|info: KeyboardInfo| info.view())
    }

    /// The data store that the classifier learns in.
    pub closed spec fn store(&self) -> DataStore {
        self.data_store
    }

    /// A classifier that tracks no device.
    pub fn new(data_store: DataStore) -> (r: KeyboardClassifier)
        ensures
            r.devices().is_empty(),
            r.store() == data_store,
    {
        let r = KeyboardClassifier { device_map: HashMap::new(), data_store };
        assert(r.devices() =~= Map::empty());
        r
    }

    /// Adds a device, or classifies it anew.
    pub fn notify_keyboard_changed(&mut self, device: InputDevice)
        ensures
            keyboard_changed(*old(self), *final(self), device),
            final(self).devices().remove(device.device_id.0) == old(self).devices().remove(
                device.device_id.0,
            ),
            final(self).devices().contains_key(device.device_id.0),
            ({
                let c = final(self).devices()[device.device_id.0];
                &&& c.descriptor == device.identifier.descriptor@
                &&& (c.keyboard_type, c.is_finalized) == keyboard_classification(
                    device.classes,
                    stored_classification(
                        device.classes,
                        final(self).store().records(),
                        device.identifier.descriptor@,
                    ),
                    device.identifier.vendor,
                    device.identifier.product,
                )
            }),
            is_external_keyboard(device.classes) ==> final(self).store().loaded(),
            is_external_keyboard(device.classes) && old(self).store().loaded() ==> final(self).store().records() == old(self).store().records(),
            !is_external_keyboard(device.classes) ==> final(self).store() == old(self).store(),
    {
        let (keyboard_type, is_finalized) = self.classify_keyboard(&device);
        let id = device.device_id.0;
        let info = KeyboardInfo { device, keyboard_type, is_finalized };
        let ghost view = info.view();
        self.device_map.insert(id, info);
        assert(self.devices() =~= old(self).devices().insert(id, view));
        assert(self.devices().remove(id) =~= old(self).devices().remove(id));
    }

    /// The keyboard type of a device; `NonKeyboard` for a device that is not tracked.
    pub fn get_keyboard_type(&self, device_id: DeviceId) -> (r: KeyboardType)
        ensures
            r == if self.devices().contains_key(device_id.0) {
                self.devices()[device_id.0].keyboard_type
            } else {
                KeyboardType::NonKeyboard
            },
    {
        match self.device_map.get(&device_id.0) {
            Some(keyboard) => keyboard.keyboard_type,
            None => KeyboardType::NonKeyboard,
        }
    }

    /// Whether the classification of a device is final: it does not change before the
    /// device connects again. `false` for a device that is not tracked.
    pub fn is_finalized(&self, device_id: DeviceId) -> (r: bool)
        ensures
            r == (self.devices().contains_key(device_id.0)
                && self.devices()[device_id.0].is_finalized),
    {
        match self.device_map.get(&device_id.0) {
            Some(keyboard) => keyboard.is_finalized,
            None => false,
        }
    }

    /// Takes in a key of a device. A key of an alphabetic row, with no modifier held, makes
    /// the device an alphabetic keyboard for good, and the data store learns it. Keys with a
    /// modifier are ignored: remotes and game controllers send such shortcuts.
    pub fn process_key(&mut self, device_id: DeviceId, evdev_code: i32, modifier_state: ModifierState)
        ensures
            ({
                let id = device_id.0;
                if old(self).devices().contains_key(id) && modifier_state.0 == 0
                    && spec_is_alphabetic_key(evdev_code) {
                    let descriptor = old(self).devices()[id].descriptor;
                    &&& final(self).devices() == old(self).devices().insert(
                        id,
                        DeviceClassification {
                            descriptor,
                            keyboard_type: KeyboardType::Alphabetic,
                            is_finalized: true,
                        },
                    )
                    &&& final(self).store().loaded()
                    &&& old(self).store().loaded() ==> final(self).store().records() == with_record(
                        old(self).store().records(),
                        descriptor,
                        KeyboardType::Alphabetic,
                        true,
                    )
                    &&& !old(self).store().loaded() ==> exists|read: Seq<ClassificationRecord>|
                        final(self).store().records() == with_record(
                            read,
                            descriptor,
                            KeyboardType::Alphabetic,
                            true,
                        )
                } else {
                    &&& final(self).devices() == old(self).devices()
                    &&& final(self).store() == old(self).store()
                }
            }),
    {
        let id = device_id.0;
        if !self.device_map.contains_key(&id) {
            return ;
        }
        // Key events with modifiers can be shortcuts of remotes or game controllers.
        if modifier_state.bits() != 0 {
            return ;
        }
        if Self::is_alphabetic_key(&evdev_code) {
            let mut keyboard = match self.device_map.remove(&id) {
                Some(keyboard) => keyboard,
                None => {
                    return ;
                },
            };
            keyboard.keyboard_type = KeyboardType::Alphabetic;
            keyboard.is_finalized = true;
            self.data_store.set_keyboard_type(
                &keyboard.device.identifier.descriptor,
                keyboard.keyboard_type,
                keyboard.is_finalized,
            );
            let ghost view = keyboard.view();
            self.device_map.insert(id, keyboard);
            assert(self.devices() =~= old(self).devices().insert(id, view));
        }
    }

    /// The classification of a device.
    fn classify_keyboard(&mut self, device: &InputDevice) -> (r: (KeyboardType, bool))
        ensures
            r == keyboard_classification(
                device.classes,
                stored_classification(
                    device.classes,
                    final(self).store().records(),
                    device.identifier.descriptor@,
                ),
                device.identifier.vendor,
                device.identifier.product,
            ),
            final(self).devices() == old(self).devices(),
            is_external_keyboard(device.classes) ==> final(self).store().loaded(),
            is_external_keyboard(device.classes) && old(self).store().loaded() ==> final(self).store().records() == old(self).store().records(),
            !is_external_keyboard(device.classes) ==> final(self).store() == old(self).store(),
    {
        let classes = device.classes;
        // A keyboard class is needed to be any kind of keyboard.
        if !classes.contains(DeviceClass(DEVICE_CLASS_KEYBOARD)) {
            return (KeyboardType::NonKeyboard, true);
        }
        // Internal and virtual keyboards are classified by their classes.
        if !classes.contains(DeviceClass(DEVICE_CLASS_EXTERNAL)) || classes.contains(
            DeviceClass(DEVICE_CLASS_VIRTUAL),
        ) {
            return if classes.contains(DeviceClass(DEVICE_CLASS_ALPHABETIC_KEY)) {
                (KeyboardType::Alphabetic, true)
            } else {
                (KeyboardType::NonAlphabetic, true)
            };
        }
        // What was learned of the device before.
        if let Some(stored) = self.data_store.get_keyboard_type(&device.identifier.descriptor) {
            return stored;
        }
        // The known devices.
        if let Some(known) = find_classified_device(
            device.identifier.vendor,
            device.identifier.product,
        ) {
            return known;
        }
        // A device with further classes is taken for non-alphabetic at first; it is final
        // unless the kernel claims alphabetic keys.
        if classes.contains(DeviceClass(DEVICE_CLASS_TOUCH)) || classes.contains(
            DeviceClass(DEVICE_CLASS_CURSOR),
        ) || classes.contains(DeviceClass(DEVICE_CLASS_MULTI_TOUCH)) || classes.contains(
            DeviceClass(DEVICE_CLASS_EXTERNAL_STYLUS),
        ) || classes.contains(DeviceClass(DEVICE_CLASS_TOUCHPAD)) || classes.contains(
            DeviceClass(DEVICE_CLASS_DPAD),
        ) || classes.contains(DeviceClass(DEVICE_CLASS_GAMEPAD)) || classes.contains(
            DeviceClass(DEVICE_CLASS_SWITCH),
        ) || classes.contains(DeviceClass(DEVICE_CLASS_JOYSTICK)) || classes.contains(
            DeviceClass(DEVICE_CLASS_ROTARY_ENCODER),
        ) {
            return (
                KeyboardType::NonAlphabetic,
                !classes.contains(DeviceClass(DEVICE_CLASS_ALPHABETIC_KEY)),
            );
        }
        // Only devices with alphabetic keys are full keyboards.
        if classes.contains(DeviceClass(DEVICE_CLASS_ALPHABETIC_KEY)) {
            (KeyboardType::Alphabetic, true)
        } else {
            (KeyboardType::NonAlphabetic, true)
        }
    }

    /// `true` for the keys of the three alphabetic rows.
    fn is_alphabetic_key(evdev_code: &i32) -> (r: bool)
        ensures
            r == spec_is_alphabetic_key(*evdev_code),
    {
        // Row Q W E R T Y U I O P [ ]
        (16 <= *evdev_code && *evdev_code <= 27)
        // Row A S D F G H J K L ; ' `
         || (30 <= *evdev_code && *evdev_code <= 41)
        // Row \ Z X C V B N M , . /
         || (43 <= *evdev_code && *evdev_code <= 53)
    }
}

/// `after` is what `notify_keyboard_changed(device)` makes of `before`.
pub open spec fn keyboard_changed(
    before: KeyboardClassifier,
    after: KeyboardClassifier,
    device: InputDevice,
) -> bool {
    let id = device.device_id.0;
    let c = after.devices()[id];
    &&& after.devices().remove(id) == before.devices().remove(id)
    &&& after.devices().contains_key(id)
    &&& c.descriptor == device.identifier.descriptor@
    &&& (c.keyboard_type, c.is_finalized) == keyboard_classification(
        device.classes,
        stored_classification(
            device.classes,
            after.store().records(),
            device.identifier.descriptor@,
        ),
        device.identifier.vendor,
        device.identifier.product,
    )
    &&& is_external_keyboard(device.classes) ==> after.store().loaded()
    &&& is_external_keyboard(device.classes) && before.store().loaded() ==> after.store().records()
        == before.store().records()
    &&& !is_external_keyboard(device.classes) ==> after.store() == before.store()
}

/// Classifying a device again with the same inputs gives the same keyboard type and
/// finalization: notifying the classifier twice of the same device leaves the device's
/// classification as the first notification made it.
pub proof fn lemma_reclassification_is_idempotent(
    first: KeyboardClassifier,
    second: KeyboardClassifier,
    third: KeyboardClassifier,
    device: InputDevice,
)
    requires
        keyboard_changed(first, second, device),
        keyboard_changed(second, third, device),
    ensures
        third.devices()[device.device_id.0] == second.devices()[device.device_id.0],
{
}

/// What a key event teaches the store outlasts the connection: once an external keyboard is
/// learned to be alphabetic, it is classified alphabetic and final when it connects again.
pub proof fn lemma_learned_classification_is_kept(
    classes: DeviceClass,
    records: Seq<ClassificationRecord>,
    descriptor: Seq<char>,
    vendor: u16,
    product: u16,
)
    requires
        is_external_keyboard(classes),
    ensures
        keyboard_classification(
            classes,
            stored_classification(
                classes,
                with_record(records, descriptor, KeyboardType::Alphabetic, true),
                descriptor,
            ),
            vendor,
            product,
        ) == (KeyboardType::Alphabetic, true),
{
    crate::data_store::lemma_stored_classification_reads_back(
        records,
        descriptor,
        KeyboardType::Alphabetic,
        true,
    );
}

} // verus!
