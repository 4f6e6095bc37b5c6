use input::input::{
    DEVICE_CLASS_ALPHABETIC_KEY, DEVICE_CLASS_CURSOR, DEVICE_CLASS_DPAD, DEVICE_CLASS_EXTERNAL,
    DEVICE_CLASS_EXTERNAL_STYLUS, DEVICE_CLASS_GAMEPAD, DEVICE_CLASS_JOYSTICK,
    DEVICE_CLASS_KEYBOARD, DEVICE_CLASS_TOUCHPAD, DEVICE_CLASS_VIRTUAL, META_CTRL_ON, META_NONE,
};
use input::keyboard_classification_config::classified_devices;
use input::{
    DataStore, DeviceClass, DeviceId, FileReaderWriter, InputDevice, KeyboardClassification,
    KeyboardClassifier, KeyboardType, ModifierState, RustInputDeviceIdentifier,
};
use std::sync::{Arc, RwLock};

const DEVICE_ID: DeviceId = DeviceId(1);
const SECOND_DEVICE_ID: DeviceId = DeviceId(2);
const KEY_A: i32 = 30;
const KEY_1: i32 = 2;

/// A medium that keeps the document in memory, shared between its clones.
#[derive(Default, Clone)]
struct TestFileReaderWriter(Arc<RwLock<Vec<KeyboardClassification>>>);

impl TestFileReaderWriter {
    fn new() -> Self {
        Default::default()
    }
}

impl FileReaderWriter for TestFileReaderWriter {
    fn read(&self) -> Vec<KeyboardClassification> {
        self.0.read().unwrap().iter().map(|c| c.copy()).collect()
    }

    fn write(&self, records: &Vec<KeyboardClassification>) {
        *self.0.write().unwrap() = records.iter().map(|c| c.copy()).collect();
    }
}

fn create_classifier() -> KeyboardClassifier {
    KeyboardClassifier::new(DataStore::new(Box::new(TestFileReaderWriter::new())))
}

fn create_identifier(vendor: u16, product: u16) -> RustInputDeviceIdentifier {
    RustInputDeviceIdentifier {
        name: "test_device".to_string(),
        location: "location".to_string(),
        unique_id: "unique_id".to_string(),
        bus: 123,
        vendor,
        product,
        version: 567,
        descriptor: "descriptor".to_string(),
    }
}

fn create_device(classes: DeviceClass) -> InputDevice {
    InputDevice { device_id: DEVICE_ID, identifier: create_identifier(234, 345), classes }
}

fn create_device_with_vendor_product_ids(vendor: u16, product: u16) -> InputDevice {
    InputDevice {
        device_id: DEVICE_ID,
        identifier: create_identifier(vendor, product),
        classes: DeviceClass(DEVICE_CLASS_KEYBOARD | DEVICE_CLASS_ALPHABETIC_KEY | DEVICE_CLASS_EXTERNAL),
    }
}

#[test]
fn classify_external_alphabetic_keyboard() {
    let mut classifier = create_classifier();
    classifier.notify_keyboard_changed(create_device(
        DeviceClass(DEVICE_CLASS_KEYBOARD | DEVICE_CLASS_ALPHABETIC_KEY | DEVICE_CLASS_EXTERNAL),
    ));
    assert_eq!(classifier.get_keyboard_type(DEVICE_ID), KeyboardType::Alphabetic);
    assert!(classifier.is_finalized(DEVICE_ID));
}

#[test]
fn classify_external_non_alphabetic_keyboard() {
    let mut classifier = create_classifier();
    classifier
        .notify_keyboard_changed(create_device(DeviceClass(DEVICE_CLASS_KEYBOARD | DEVICE_CLASS_EXTERNAL)));
    assert_eq!(classifier.get_keyboard_type(DEVICE_ID), KeyboardType::NonAlphabetic);
    assert!(classifier.is_finalized(DEVICE_ID));
}

#[test]
fn classify_mouse_pretending_as_keyboard() {
    let mut classifier = create_classifier();
    classifier.notify_keyboard_changed(create_device(
        DeviceClass(DEVICE_CLASS_KEYBOARD | DEVICE_CLASS_CURSOR | DEVICE_CLASS_ALPHABETIC_KEY | DEVICE_CLASS_EXTERNAL),
    ));
    assert_eq!(classifier.get_keyboard_type(DEVICE_ID), KeyboardType::NonAlphabetic);
    assert!(!classifier.is_finalized(DEVICE_ID));
}

#[test]
fn classify_touchpad_pretending_as_keyboard() {
    let mut classifier = create_classifier();
    classifier.notify_keyboard_changed(create_device(
        DeviceClass(DEVICE_CLASS_KEYBOARD | DEVICE_CLASS_TOUCHPAD | DEVICE_CLASS_ALPHABETIC_KEY | DEVICE_CLASS_EXTERNAL),
    ));
    assert_eq!(classifier.get_keyboard_type(DEVICE_ID), KeyboardType::NonAlphabetic);
    assert!(!classifier.is_finalized(DEVICE_ID));
}

#[test]
fn classify_stylus_pretending_as_keyboard() {
    let mut classifier = create_classifier();
    classifier.notify_keyboard_changed(create_device(
        DeviceClass(DEVICE_CLASS_KEYBOARD | DEVICE_CLASS_EXTERNAL_STYLUS | DEVICE_CLASS_ALPHABETIC_KEY | DEVICE_CLASS_EXTERNAL),
    ));
    assert_eq!(classifier.get_keyboard_type(DEVICE_ID), KeyboardType::NonAlphabetic);
    assert!(!classifier.is_finalized(DEVICE_ID));
}

#[test]
fn classify_dpad_pretending_as_keyboard() {
    let mut classifier = create_classifier();
    classifier.notify_keyboard_changed(create_device(
        DeviceClass(DEVICE_CLASS_KEYBOARD | DEVICE_CLASS_DPAD | DEVICE_CLASS_ALPHABETIC_KEY | DEVICE_CLASS_EXTERNAL),
    ));
    assert_eq!(classifier.get_keyboard_type(DEVICE_ID), KeyboardType::NonAlphabetic);
    assert!(!classifier.is_finalized(DEVICE_ID));
}

#[test]
fn classify_joystick_pretending_as_keyboard() {
    let mut classifier = create_classifier();
    classifier.notify_keyboard_changed(create_device(
        DeviceClass(DEVICE_CLASS_KEYBOARD | DEVICE_CLASS_JOYSTICK | DEVICE_CLASS_ALPHABETIC_KEY | DEVICE_CLASS_EXTERNAL),
    ));
    assert_eq!(classifier.get_keyboard_type(DEVICE_ID), KeyboardType::NonAlphabetic);
    assert!(!classifier.is_finalized(DEVICE_ID));
}

#[test]
fn classify_gamepad_pretending_as_keyboard() {
    let mut classifier = create_classifier();
    classifier.notify_keyboard_changed(create_device(
        DeviceClass(DEVICE_CLASS_KEYBOARD | DEVICE_CLASS_GAMEPAD | DEVICE_CLASS_ALPHABETIC_KEY | DEVICE_CLASS_EXTERNAL),
    ));
    assert_eq!(classifier.get_keyboard_type(DEVICE_ID), KeyboardType::NonAlphabetic);
    assert!(!classifier.is_finalized(DEVICE_ID));
}

#[test]
fn reclassify_keyboard_on_alphabetic_key_event() {
    let mut classifier = create_classifier();
    classifier.notify_keyboard_changed(create_device(
        DeviceClass(DEVICE_CLASS_KEYBOARD | DEVICE_CLASS_DPAD | DEVICE_CLASS_ALPHABETIC_KEY | DEVICE_CLASS_EXTERNAL),
    ));
    assert_eq!(classifier.get_keyboard_type(DEVICE_ID), KeyboardType::NonAlphabetic);
    assert!(!classifier.is_finalized(DEVICE_ID));

    // on alphabetic key event
    classifier.process_key(DEVICE_ID, KEY_A, ModifierState(META_NONE));
    assert_eq!(classifier.get_keyboard_type(DEVICE_ID), KeyboardType::Alphabetic);
    assert!(classifier.is_finalized(DEVICE_ID));
}

#[test]
fn dont_reclassify_keyboard_on_non_alphabetic_key_event() {
    let mut classifier = create_classifier();
    classifier.notify_keyboard_changed(create_device(
        DeviceClass(DEVICE_CLASS_KEYBOARD | DEVICE_CLASS_DPAD | DEVICE_CLASS_ALPHABETIC_KEY | DEVICE_CLASS_EXTERNAL),
    ));
    assert_eq!(classifier.get_keyboard_type(DEVICE_ID), KeyboardType::NonAlphabetic);
    assert!(!classifier.is_finalized(DEVICE_ID));

    // on number key event
    classifier.process_key(DEVICE_ID, KEY_1, ModifierState(META_NONE));
    assert_eq!(classifier.get_keyboard_type(DEVICE_ID), KeyboardType::NonAlphabetic);
    assert!(!classifier.is_finalized(DEVICE_ID));
}

#[test]
fn dont_reclassify_keyboard_on_alphabetic_key_event_with_modifiers() {
    let mut classifier = create_classifier();
    classifier.notify_keyboard_changed(create_device(
        DeviceClass(DEVICE_CLASS_KEYBOARD | DEVICE_CLASS_DPAD | DEVICE_CLASS_ALPHABETIC_KEY | DEVICE_CLASS_EXTERNAL),
    ));
    assert_eq!(classifier.get_keyboard_type(DEVICE_ID), KeyboardType::NonAlphabetic);
    assert!(!classifier.is_finalized(DEVICE_ID));

    classifier.process_key(DEVICE_ID, KEY_A, ModifierState(META_CTRL_ON));
    assert_eq!(classifier.get_keyboard_type(DEVICE_ID), KeyboardType::NonAlphabetic);
    assert!(!classifier.is_finalized(DEVICE_ID));
}

#[test]
fn classify_known_devices() {
    let mut classifier = create_classifier();
    for (vendor, product, keyboard_type, is_finalized) in classified_devices().iter() {
        classifier
            .notify_keyboard_changed(create_device_with_vendor_product_ids(*vendor, *product));
        assert_eq!(classifier.get_keyboard_type(DEVICE_ID), *keyboard_type);
        assert_eq!(classifier.is_finalized(DEVICE_ID), *is_finalized);
    }
}

#[test]
fn classify_previously_reclassified_devices() {
    let test_reader_writer = TestFileReaderWriter::new();
    {
        let mut classifier =
            KeyboardClassifier::new(DataStore::new(Box::new(test_reader_writer.clone())));
        let device = create_device(
            DeviceClass(DEVICE_CLASS_KEYBOARD | DEVICE_CLASS_DPAD | DEVICE_CLASS_ALPHABETIC_KEY | DEVICE_CLASS_EXTERNAL),
        );
        classifier.notify_keyboard_changed(device);
        classifier.process_key(DEVICE_ID, KEY_A, ModifierState(META_NONE));
    }

    // Re-create classifier and data store to mimic a reboot (but use the same file system
    // reader writer)
    {
        let mut classifier =
            KeyboardClassifier::new(DataStore::new(Box::new(test_reader_writer.clone())));
        let device = InputDevice {
            device_id: SECOND_DEVICE_ID,
            identifier: create_identifier(/* vendor= */ 234, /* product= */ 345),
            classes: DeviceClass(DEVICE_CLASS_KEYBOARD | DEVICE_CLASS_DPAD | DEVICE_CLASS_ALPHABETIC_KEY | DEVICE_CLASS_EXTERNAL),
        };
        classifier.notify_keyboard_changed(device);
        assert_eq!(classifier.get_keyboard_type(SECOND_DEVICE_ID), KeyboardType::Alphabetic);
        assert!(classifier.is_finalized(SECOND_DEVICE_ID));
    }
}

#[test]
fn classify_internal_keyboards_by_classes() {
    let mut classifier = create_classifier();
    classifier.notify_keyboard_changed(create_device(DeviceClass(
        DEVICE_CLASS_KEYBOARD | DEVICE_CLASS_ALPHABETIC_KEY | DEVICE_CLASS_DPAD,
    )));
    assert_eq!(classifier.get_keyboard_type(DEVICE_ID), KeyboardType::Alphabetic);
    assert!(classifier.is_finalized(DEVICE_ID));
    // A virtual keyboard counts as internal even when external.
    classifier.notify_keyboard_changed(create_device(DeviceClass(
        DEVICE_CLASS_KEYBOARD | DEVICE_CLASS_EXTERNAL | DEVICE_CLASS_VIRTUAL,
    )));
    assert_eq!(classifier.get_keyboard_type(DEVICE_ID), KeyboardType::NonAlphabetic);
    assert!(classifier.is_finalized(DEVICE_ID));
}

#[test]
fn classify_device_without_keyboard_class() {
    let mut classifier = create_classifier();
    classifier.notify_keyboard_changed(create_device(DeviceClass(
        DEVICE_CLASS_ALPHABETIC_KEY | DEVICE_CLASS_EXTERNAL,
    )));
    assert_eq!(classifier.get_keyboard_type(DEVICE_ID), KeyboardType::NonKeyboard);
    assert!(classifier.is_finalized(DEVICE_ID));
}

#[test]
fn unknown_device_is_not_a_keyboard() {
    let classifier = create_classifier();
    assert_eq!(classifier.get_keyboard_type(SECOND_DEVICE_ID), KeyboardType::NonKeyboard);
    assert!(!classifier.is_finalized(SECOND_DEVICE_ID));
}

#[test]
fn process_key_of_unknown_device_changes_nothing() {
    let mut classifier = create_classifier();
    classifier.process_key(SECOND_DEVICE_ID, KEY_A, ModifierState(META_NONE));
    assert_eq!(classifier.get_keyboard_type(SECOND_DEVICE_ID), KeyboardType::NonKeyboard);
    assert!(!classifier.is_finalized(SECOND_DEVICE_ID));
}

#[test]
fn alphabetic_rows_reclassify() {
    for key in [16, 27, 30, 41, 43, 53] {
        let mut classifier = create_classifier();
        classifier.notify_keyboard_changed(create_device(DeviceClass(
            DEVICE_CLASS_KEYBOARD | DEVICE_CLASS_CURSOR | DEVICE_CLASS_ALPHABETIC_KEY | DEVICE_CLASS_EXTERNAL,
        )));
        classifier.process_key(DEVICE_ID, key, ModifierState(META_NONE));
        assert_eq!(classifier.get_keyboard_type(DEVICE_ID), KeyboardType::Alphabetic);
    }
    for key in [15, 28, 29, 42, 54] {
        let mut classifier = create_classifier();
        classifier.notify_keyboard_changed(create_device(DeviceClass(
            DEVICE_CLASS_KEYBOARD | DEVICE_CLASS_CURSOR | DEVICE_CLASS_ALPHABETIC_KEY | DEVICE_CLASS_EXTERNAL,
        )));
        classifier.process_key(DEVICE_ID, key, ModifierState(META_NONE));
        assert_eq!(classifier.get_keyboard_type(DEVICE_ID), KeyboardType::NonAlphabetic);
    }
}

#[test]
fn reclassifying_a_finalized_device_gives_the_same_result() {
    let mut classifier = create_classifier();
    let classes = DeviceClass(DEVICE_CLASS_KEYBOARD | DEVICE_CLASS_ALPHABETIC_KEY | DEVICE_CLASS_EXTERNAL);
    classifier.notify_keyboard_changed(create_device(classes));
    let first = (classifier.get_keyboard_type(DEVICE_ID), classifier.is_finalized(DEVICE_ID));
    classifier.notify_keyboard_changed(create_device(classes));
    let again = (classifier.get_keyboard_type(DEVICE_ID), classifier.is_finalized(DEVICE_ID));
    assert_eq!(first, (KeyboardType::Alphabetic, true));
    assert_eq!(first, again);
}

#[test]
fn data_store_reads_back_what_it_stored() {
    let medium = TestFileReaderWriter::new();
    let mut store = DataStore::new(Box::new(medium.clone()));
    assert_eq!(store.get_keyboard_type(&"a".to_string()), None);
    store.set_keyboard_type(&"a".to_string(), KeyboardType::NonAlphabetic, false);
    store.set_keyboard_type(&"b".to_string(), KeyboardType::Alphabetic, true);
    store.set_keyboard_type(&"a".to_string(), KeyboardType::Alphabetic, true);
    assert_eq!(store.get_keyboard_type(&"a".to_string()), Some((KeyboardType::Alphabetic, true)));
    assert_eq!(store.get_keyboard_type(&"b".to_string()), Some((KeyboardType::Alphabetic, true)));
    // A new store on the same medium reads the same records.
    let mut reopened = DataStore::new(Box::new(medium.clone()));
    assert_eq!(reopened.get_keyboard_type(&"a".to_string()), Some((KeyboardType::Alphabetic, true)));
    assert_eq!(medium.read().len(), 2);
}

#[test]
fn data_store_loads_before_first_write() {
    let medium = TestFileReaderWriter::new();
    medium.write(&vec![KeyboardClassification {
        descriptor: "old".to_string(),
        keyboard_type: KeyboardType::NonAlphabetic,
        is_finalized: true,
    }]);
    let mut store = DataStore::new(Box::new(medium.clone()));
    store.set_keyboard_type(&"new".to_string(), KeyboardType::Alphabetic, true);
    assert_eq!(medium.read().len(), 2);
    assert_eq!(store.get_keyboard_type(&"old".to_string()), Some((KeyboardType::NonAlphabetic, true)));
}

#[test]
fn known_device_table_has_all_entries() {
    let table = classified_devices();
    assert_eq!(table.len(), 49);
    assert_eq!(table[0], (0x03f0, 0xa407, KeyboardType::NonAlphabetic, true));
    assert_eq!(input::keyboard_classification_config::find_classified_device(0x046d, 0xb00d), Some((KeyboardType::NonAlphabetic, true)));
    assert_eq!(input::keyboard_classification_config::find_classified_device(0x046d, 0x0001), None);
}

#[test]
fn raw_entry_points_decode_classes_and_meta_state() {
    let mut classifier = create_classifier();
    input::bridge::notify_keyboard_changed(
        &mut classifier,
        1,
        create_identifier(234, 345),
        DEVICE_CLASS_KEYBOARD | DEVICE_CLASS_DPAD | DEVICE_CLASS_ALPHABETIC_KEY | DEVICE_CLASS_EXTERNAL,
    );
    assert_eq!(input::bridge::get_keyboard_type(&classifier, 1), 1);
    assert!(!input::bridge::is_finalized(&classifier, 1));
    input::bridge::process_key(&mut classifier, 1, KEY_A, META_CTRL_ON);
    assert_eq!(input::bridge::get_keyboard_type(&classifier, 1), 1);
    input::bridge::process_key(&mut classifier, 1, KEY_A, 0);
    assert_eq!(input::bridge::get_keyboard_type(&classifier, 1), 2);
    assert!(input::bridge::is_finalized(&classifier, 1));
    assert_eq!(input::bridge::get_keyboard_type(&classifier, 5), 0);
}
