use input::input::{
    META_ALT_LEFT_ON, META_ALT_ON, META_ALT_RIGHT_ON, META_CTRL_LEFT_ON, META_CTRL_ON,
    META_CTRL_RIGHT_ON, META_META_LEFT_ON, META_META_ON, META_META_RIGHT_ON, META_NONE,
    META_SHIFT_LEFT_ON, META_SHIFT_ON, META_SHIFT_RIGHT_ON, SOURCE_KEYBOARD,
};
use input::sticky_keys_filter::{
    clear_ephemeral_modifier_state, get_ephemeral_modifier_key_mask,
    get_symmetrical_modifier_key_mask, is_ephemeral_modifier_key, is_modifier_key,
    SavedFilterState, KEYCODE_ALT_LEFT, KEYCODE_ALT_RIGHT,
    KEYCODE_CAPS_LOCK, KEYCODE_CTRL_LEFT, KEYCODE_CTRL_RIGHT, KEYCODE_FUNCTION, KEYCODE_META_LEFT,
    KEYCODE_META_RIGHT, KEYCODE_NUM_LOCK, KEYCODE_SCROLL_LOCK, KEYCODE_SHIFT_LEFT,
    KEYCODE_SHIFT_RIGHT, KEYCODE_SYM,
};
use input::input_filter::{FilterOutput, ModifierStateChange};
use input::{
    DeviceInfo, KeyEvent, KeyEventAction, KeyboardType, ModifierState, Source, StickyKeysFilter,
};

const DEVICE_ID: i32 = 1;
const KEY_A: i32 = 29;
const BASE_KEY_DOWN: KeyEvent = KeyEvent {
    id: 1,
    device_id: DEVICE_ID,
    down_time: 0,
    read_time: 0,
    event_time: 0,
    source: Source(SOURCE_KEYBOARD),
    display_id: 0,
    policy_flags: 0,
    action: KeyEventAction::Down,
    flags: 0,
    key_code: 0,
    scan_code: 0,
    meta_state: 0,
};
const BASE_KEY_UP: KeyEvent = KeyEvent { action: KeyEventAction::Up, ..BASE_KEY_DOWN };

/// Stands for the next filter and for the host's modifier state listener.
struct TestHost {
    last_event: Option<KeyEvent>,
    modifier_state: ModifierState,
    locked_modifier_state: ModifierState,
}

impl TestHost {
    fn new() -> Self {
        TestHost {
            last_event: None,
            modifier_state: ModifierState(META_NONE),
            locked_modifier_state: ModifierState(META_NONE),
        }
    }

    fn take(&mut self, output: FilterOutput) {
        if let Some(event) = output.event {
            self.last_event = Some(event);
        }
        self.take_change(output.modifier_state_change);
    }

    fn take_change(&mut self, change: Option<ModifierStateChange>) {
        if let Some(change) = change {
            self.modifier_state = change.modifier_state;
            self.locked_modifier_state = change.locked_modifier_state;
        }
    }

    fn last_event(&self) -> Option<KeyEvent> {
        self.last_event
    }

    fn last_modifier_state(&self) -> ModifierState {
        self.modifier_state
    }

    fn last_locked_modifier_state(&self) -> ModifierState {
        self.locked_modifier_state
    }

    fn clear_events(&mut self) {
        self.last_event = None;
    }

    fn clear_states(&mut self) {
        self.modifier_state = ModifierState(META_NONE);
        self.locked_modifier_state = ModifierState(META_NONE);
    }
}

#[test]
fn test_notify_key_consumes_ephemeral_modifier_keys() {
    let mut host = TestHost::new();
    let mut sticky_keys_filter = StickyKeysFilter::new();
    let key_codes = &[
        KEYCODE_ALT_LEFT,
        KEYCODE_ALT_RIGHT,
        KEYCODE_CTRL_LEFT,
        KEYCODE_CTRL_RIGHT,
        KEYCODE_SHIFT_LEFT,
        KEYCODE_SHIFT_RIGHT,
        KEYCODE_META_LEFT,
        KEYCODE_META_RIGHT,
    ];
    for key_code in key_codes.iter() {
        host.take(sticky_keys_filter.notify_key(&KeyEvent { key_code: *key_code, ..BASE_KEY_DOWN }));
        assert!(host.last_event().is_none());

        host.take(sticky_keys_filter.notify_key(&KeyEvent { key_code: *key_code, ..BASE_KEY_UP }));
        assert!(host.last_event().is_none());
    }
}

#[test]
fn test_notify_key_passes_ephemeral_modifier_keys_if_only_key_up_occurs() {
    let mut host = TestHost::new();
    let mut sticky_keys_filter = StickyKeysFilter::new();
    let key_codes = &[
        KEYCODE_ALT_LEFT,
        KEYCODE_ALT_RIGHT,
        KEYCODE_CTRL_LEFT,
        KEYCODE_CTRL_RIGHT,
        KEYCODE_SHIFT_LEFT,
        KEYCODE_SHIFT_RIGHT,
        KEYCODE_META_LEFT,
        KEYCODE_META_RIGHT,
    ];
    for key_code in key_codes.iter() {
        let event = KeyEvent { key_code: *key_code, ..BASE_KEY_UP };
        host.take(sticky_keys_filter.notify_key(&event));
        assert_eq!(host.last_event().unwrap(), event);
    }
}

#[test]
fn test_notify_key_passes_non_ephemeral_modifier_keys() {
    let mut host = TestHost::new();
    let mut sticky_keys_filter = StickyKeysFilter::new();
    let key_codes = &[
        KEYCODE_CAPS_LOCK,
        KEYCODE_NUM_LOCK,
        KEYCODE_SCROLL_LOCK,
        KEYCODE_FUNCTION,
        KEYCODE_SYM,
    ];
    for key_code in key_codes.iter() {
        let event = KeyEvent { key_code: *key_code, ..BASE_KEY_DOWN };
        host.take(sticky_keys_filter.notify_key(&event));
        assert_eq!(host.last_event().unwrap(), event);
        let event = KeyEvent { key_code: *key_code, ..BASE_KEY_UP };
        host.take(sticky_keys_filter.notify_key(&event));
        assert_eq!(host.last_event().unwrap(), event);
    }
}

#[test]
fn test_notify_key_passes_non_modifier_keys() {
    let mut host = TestHost::new();
    let mut sticky_keys_filter = StickyKeysFilter::new();
    let event = KeyEvent { key_code: KEY_A, ..BASE_KEY_DOWN };
    host.take(sticky_keys_filter.notify_key(&event));
    assert_eq!(host.last_event().unwrap(), event);

    let event = KeyEvent { key_code: KEY_A, ..BASE_KEY_UP };
    host.take(sticky_keys_filter.notify_key(&event));
    assert_eq!(host.last_event().unwrap(), event);
}

#[test]
fn test_modifier_state_updated_on_modifier_key_press() {
    let mut host = TestHost::new();
    let mut sticky_keys_filter = StickyKeysFilter::new();
    let test_states = &[
        (KEYCODE_ALT_LEFT, ModifierState(META_ALT_ON | META_ALT_LEFT_ON)),
        (KEYCODE_ALT_RIGHT, ModifierState(META_ALT_ON | META_ALT_RIGHT_ON)),
        (KEYCODE_CTRL_LEFT, ModifierState(META_CTRL_ON | META_CTRL_LEFT_ON)),
        (KEYCODE_CTRL_RIGHT, ModifierState(META_CTRL_ON | META_CTRL_RIGHT_ON)),
        (KEYCODE_SHIFT_LEFT, ModifierState(META_SHIFT_ON | META_SHIFT_LEFT_ON)),
        (KEYCODE_SHIFT_RIGHT, ModifierState(META_SHIFT_ON | META_SHIFT_RIGHT_ON)),
        (KEYCODE_META_LEFT, ModifierState(META_META_ON | META_META_LEFT_ON)),
        (KEYCODE_META_RIGHT, ModifierState(META_META_ON | META_META_RIGHT_ON)),
    ];
    for test_state in test_states.iter() {
        host.clear_events();
        host.clear_states();
        host.take(sticky_keys_filter.notify_key(&KeyEvent { key_code: test_state.0, ..BASE_KEY_DOWN }));
        assert_eq!(host.last_modifier_state(), ModifierState(META_NONE));
        assert_eq!(host.last_locked_modifier_state(), ModifierState(META_NONE));

        host.take(sticky_keys_filter.notify_key(&KeyEvent { key_code: test_state.0, ..BASE_KEY_UP }));
        assert_eq!(host.last_modifier_state(), test_state.1);
        assert_eq!(host.last_locked_modifier_state(), ModifierState(META_NONE));

        // Re-send keys to lock it
        host.take(sticky_keys_filter.notify_key(&KeyEvent { key_code: test_state.0, ..BASE_KEY_DOWN }));
        assert_eq!(host.last_modifier_state(), test_state.1);
        assert_eq!(host.last_locked_modifier_state(), ModifierState(META_NONE));

        host.take(sticky_keys_filter.notify_key(&KeyEvent { key_code: test_state.0, ..BASE_KEY_UP }));
        assert_eq!(host.last_modifier_state(), test_state.1);
        assert_eq!(host.last_locked_modifier_state(), test_state.1);

        // Re-send keys to clear
        host.take(sticky_keys_filter.notify_key(&KeyEvent { key_code: test_state.0, ..BASE_KEY_DOWN }));
        assert_eq!(host.last_modifier_state(), test_state.1);
        assert_eq!(host.last_locked_modifier_state(), test_state.1);

        host.take(sticky_keys_filter.notify_key(&KeyEvent { key_code: test_state.0, ..BASE_KEY_UP }));
        assert_eq!(host.last_modifier_state(), ModifierState(META_NONE));
        assert_eq!(host.last_locked_modifier_state(), ModifierState(META_NONE));
    }
}

#[test]
fn test_modifier_state_cleared_on_non_modifier_key_press() {
    let mut host = TestHost::new();
    let mut sticky_keys_filter = StickyKeysFilter::new();
    host.take(sticky_keys_filter.notify_key(&KeyEvent { key_code: KEYCODE_CTRL_LEFT, ..BASE_KEY_DOWN }));
    host.take(sticky_keys_filter.notify_key(&KeyEvent { key_code: KEYCODE_CTRL_LEFT, ..BASE_KEY_UP }));

    assert_eq!(
        host.last_modifier_state(),
        ModifierState(META_CTRL_LEFT_ON | META_CTRL_ON)
    );
    assert_eq!(host.last_locked_modifier_state(), ModifierState(META_NONE));

    host.take(sticky_keys_filter.notify_key(&KeyEvent { key_code: KEY_A, ..BASE_KEY_DOWN }));
    host.take(sticky_keys_filter.notify_key(&KeyEvent { key_code: KEY_A, ..BASE_KEY_UP }));

    assert_eq!(host.last_modifier_state(), ModifierState(META_NONE));
    assert_eq!(host.last_locked_modifier_state(), ModifierState(META_NONE));
}

#[test]
fn test_modifier_state_unchanged_on_non_modifier_key_up_without_down() {
    let mut host = TestHost::new();
    let mut sticky_keys_filter = StickyKeysFilter::new();
    host.take(sticky_keys_filter.notify_key(&KeyEvent { key_code: KEYCODE_CTRL_LEFT, ..BASE_KEY_DOWN }));
    host.take(sticky_keys_filter.notify_key(&KeyEvent { key_code: KEYCODE_CTRL_LEFT, ..BASE_KEY_UP }));

    host.take(sticky_keys_filter.notify_key(&KeyEvent { key_code: KEY_A, ..BASE_KEY_UP }));

    assert_eq!(
        host.last_modifier_state(),
        ModifierState(META_CTRL_LEFT_ON | META_CTRL_ON)
    );
    assert_eq!(host.last_locked_modifier_state(), ModifierState(META_NONE));
}

#[test]
fn test_locked_modifier_state_not_cleared_on_non_modifier_key_press() {
    let mut host = TestHost::new();
    let mut sticky_keys_filter = StickyKeysFilter::new();
    host.take(sticky_keys_filter.notify_key(&KeyEvent { key_code: KEYCODE_CTRL_LEFT, ..BASE_KEY_DOWN }));
    host.take(sticky_keys_filter.notify_key(&KeyEvent { key_code: KEYCODE_CTRL_LEFT, ..BASE_KEY_UP }));

    host.take(sticky_keys_filter.notify_key(&KeyEvent { key_code: KEYCODE_CTRL_LEFT, ..BASE_KEY_DOWN }));
    host.take(sticky_keys_filter.notify_key(&KeyEvent { key_code: KEYCODE_CTRL_LEFT, ..BASE_KEY_UP }));

    host.take(sticky_keys_filter.notify_key(&KeyEvent { key_code: KEYCODE_SHIFT_LEFT, ..BASE_KEY_DOWN }));
    host.take(sticky_keys_filter.notify_key(&KeyEvent { key_code: KEYCODE_SHIFT_LEFT, ..BASE_KEY_UP }));

    assert_eq!(
        host.last_modifier_state(),
        ModifierState(META_SHIFT_LEFT_ON | META_SHIFT_ON | META_CTRL_LEFT_ON | META_CTRL_ON)
    );
    assert_eq!(
        host.last_locked_modifier_state(),
        ModifierState(META_CTRL_LEFT_ON | META_CTRL_ON)
    );

    host.take(sticky_keys_filter.notify_key(&KeyEvent { key_code: KEY_A, ..BASE_KEY_DOWN }));
    host.take(sticky_keys_filter.notify_key(&KeyEvent { key_code: KEY_A, ..BASE_KEY_UP }));

    assert_eq!(
        host.last_modifier_state(),
        ModifierState(META_CTRL_LEFT_ON | META_CTRL_ON)
    );
    assert_eq!(
        host.last_locked_modifier_state(),
        ModifierState(META_CTRL_LEFT_ON | META_CTRL_ON)
    );
}

#[test]
fn test_modifier_state_restored_on_recreation() {
    let mut host = TestHost::new();
    let mut sticky_keys_filter = StickyKeysFilter::new();
    host.take(sticky_keys_filter.notify_key(&KeyEvent { key_code: KEYCODE_CTRL_LEFT, ..BASE_KEY_DOWN }));
    host.take(sticky_keys_filter.notify_key(&KeyEvent { key_code: KEYCODE_CTRL_LEFT, ..BASE_KEY_UP }));

    let saved_state = sticky_keys_filter.save(SavedFilterState::new());

    // Create a new Sticky keys filter
    host.clear_events();
    let mut sticky_keys_filter = StickyKeysFilter::new();
    sticky_keys_filter.restore(&saved_state);
    assert_eq!(
        host.last_modifier_state(),
        ModifierState(META_CTRL_LEFT_ON | META_CTRL_ON)
    );
    assert_eq!(host.last_locked_modifier_state(), ModifierState(META_NONE));

    host.take(sticky_keys_filter.notify_key(&KeyEvent { key_code: KEYCODE_CTRL_LEFT, ..BASE_KEY_DOWN }));
    host.take(sticky_keys_filter.notify_key(&KeyEvent { key_code: KEYCODE_CTRL_LEFT, ..BASE_KEY_UP }));
    assert_eq!(
        host.last_modifier_state(),
        ModifierState(META_CTRL_LEFT_ON | META_CTRL_ON)
    );
    assert_eq!(
        host.last_locked_modifier_state(),
        ModifierState(META_CTRL_LEFT_ON | META_CTRL_ON)
    );
}

#[test]
fn test_key_events_have_sticky_modifier_state() {
    let mut host = TestHost::new();
    let mut sticky_keys_filter = StickyKeysFilter::new();
    host.take(sticky_keys_filter.notify_key(&KeyEvent { key_code: KEYCODE_CTRL_LEFT, ..BASE_KEY_DOWN }));
    host.take(sticky_keys_filter.notify_key(&KeyEvent { key_code: KEYCODE_CTRL_LEFT, ..BASE_KEY_UP }));

    host.take(sticky_keys_filter.notify_key(&KeyEvent { key_code: KEY_A, ..BASE_KEY_DOWN }));
    assert_eq!(
        host.last_event().unwrap().meta_state as u32,
        (ModifierState(META_CTRL_LEFT_ON | META_CTRL_ON)).bits()
    );

    host.take(sticky_keys_filter.notify_key(&KeyEvent { key_code: KEY_A, ..BASE_KEY_UP }));
    assert_eq!(
        host.last_event().unwrap().meta_state as u32,
        (ModifierState(META_CTRL_LEFT_ON | META_CTRL_ON)).bits()
    );
}

#[test]
fn test_modifier_state_not_cleared_until_all_devices_removed() {
    let mut host = TestHost::new();
    let mut sticky_keys_filter = StickyKeysFilter::new();
    host.take(sticky_keys_filter.notify_key(&KeyEvent {
        device_id: 1,
        key_code: KEYCODE_CTRL_LEFT,
        ..BASE_KEY_DOWN
    }));
    host.take(sticky_keys_filter.notify_key(&KeyEvent {
        device_id: 1,
        key_code: KEYCODE_CTRL_LEFT,
        ..BASE_KEY_UP
    }));

    host.take(sticky_keys_filter.notify_key(&KeyEvent {
        device_id: 2,
        key_code: KEYCODE_CTRL_LEFT,
        ..BASE_KEY_DOWN
    }));
    host.take(sticky_keys_filter.notify_key(&KeyEvent {
        device_id: 2,
        key_code: KEYCODE_CTRL_LEFT,
        ..BASE_KEY_UP
    }));

    host.take_change(sticky_keys_filter.notify_devices_changed(&[DeviceInfo {
        device_id: 2,
        external: true,
        keyboard_type: KeyboardType::Alphabetic,
    }]));
    assert_eq!(
        host.last_modifier_state(),
        ModifierState(META_CTRL_LEFT_ON | META_CTRL_ON)
    );
    assert_eq!(
        host.last_locked_modifier_state(),
        ModifierState(META_CTRL_LEFT_ON | META_CTRL_ON)
    );

    host.take_change(sticky_keys_filter.notify_devices_changed(&[]));
    assert_eq!(host.last_modifier_state(), ModifierState(META_NONE));
    assert_eq!(host.last_locked_modifier_state(), ModifierState(META_NONE));
}

#[test]
fn ctrl_left_tapped_three_times_applies_locks_and_clears() {
    let mut host = TestHost::new();
    let mut filter = StickyKeysFilter::new();
    let ctrl = ModifierState(META_CTRL_LEFT_ON | META_CTRL_ON);
    host.take(filter.notify_key(&KeyEvent { key_code: KEYCODE_CTRL_LEFT, ..BASE_KEY_DOWN }));
    host.take(filter.notify_key(&KeyEvent { key_code: KEYCODE_CTRL_LEFT, ..BASE_KEY_UP }));
    assert_eq!(filter.modifier_state(), ctrl);
    assert_eq!(filter.locked_modifier_state(), ModifierState(META_NONE));
    host.take(filter.notify_key(&KeyEvent { key_code: KEYCODE_CTRL_LEFT, ..BASE_KEY_DOWN }));
    host.take(filter.notify_key(&KeyEvent { key_code: KEYCODE_CTRL_LEFT, ..BASE_KEY_UP }));
    assert_eq!(filter.modifier_state(), ctrl);
    assert_eq!(filter.locked_modifier_state(), ctrl);
    host.take(filter.notify_key(&KeyEvent { key_code: KEYCODE_CTRL_LEFT, ..BASE_KEY_DOWN }));
    host.take(filter.notify_key(&KeyEvent { key_code: KEYCODE_CTRL_LEFT, ..BASE_KEY_UP }));
    assert_eq!(filter.modifier_state(), ModifierState(META_NONE));
    assert_eq!(filter.locked_modifier_state(), ModifierState(META_NONE));
    assert!(host.last_event().is_none());
}

#[test]
fn locked_modifiers_stay_within_modifier_state() {
    let mut filter = StickyKeysFilter::new();
    let keys = [
        KEYCODE_CTRL_LEFT, KEYCODE_CTRL_LEFT, KEYCODE_SHIFT_RIGHT, KEY_A, KEYCODE_CTRL_RIGHT,
        KEYCODE_ALT_LEFT, KEYCODE_ALT_LEFT, KEY_A, KEYCODE_META_LEFT, KEYCODE_CTRL_LEFT,
        KEYCODE_ALT_RIGHT, KEY_A,
    ];
    for key_code in keys {
        filter.notify_key(&KeyEvent { key_code, ..BASE_KEY_DOWN });
        filter.notify_key(&KeyEvent { key_code, ..BASE_KEY_UP });
        let state = filter.modifier_state().bits();
        let locked = filter.locked_modifier_state().bits();
        assert_eq!(state & locked, locked);
    }
}

#[test]
fn event_keeps_its_toggle_modifiers() {
    let mut filter = StickyKeysFilter::new();
    filter.notify_key(&KeyEvent { key_code: KEYCODE_SHIFT_LEFT, ..BASE_KEY_DOWN });
    filter.notify_key(&KeyEvent { key_code: KEYCODE_SHIFT_LEFT, ..BASE_KEY_UP });
    // Caps lock stays; the event's own Alt is replaced by the sticky Shift.
    let own = (input::input::META_CAPS_LOCK_ON | META_ALT_ON | META_ALT_LEFT_ON) as i32;
    let output = filter.notify_key(&KeyEvent { key_code: KEY_A, meta_state: own, ..BASE_KEY_DOWN });
    let expected = input::input::META_CAPS_LOCK_ON | META_SHIFT_LEFT_ON | META_SHIFT_ON;
    assert_eq!(output.event.unwrap().meta_state as u32, expected);
}

#[test]
fn restore_without_saved_state_changes_nothing() {
    let mut filter = StickyKeysFilter::new();
    filter.notify_key(&KeyEvent { key_code: KEYCODE_ALT_LEFT, ..BASE_KEY_DOWN });
    filter.notify_key(&KeyEvent { key_code: KEYCODE_ALT_LEFT, ..BASE_KEY_UP });
    filter.restore(&SavedFilterState::new());
    assert_eq!(filter.modifier_state(), ModifierState(META_ALT_LEFT_ON | META_ALT_ON));
}

#[test]
fn modifier_helpers() {
    assert!(is_modifier_key(KEYCODE_CAPS_LOCK));
    assert!(!is_ephemeral_modifier_key(KEYCODE_CAPS_LOCK));
    assert!(is_ephemeral_modifier_key(KEYCODE_META_RIGHT));
    assert!(!is_modifier_key(KEY_A));
    assert_eq!(get_ephemeral_modifier_key_mask(KEYCODE_SHIFT_RIGHT), ModifierState(META_SHIFT_RIGHT_ON | META_SHIFT_ON));
    assert_eq!(get_ephemeral_modifier_key_mask(KEY_A), ModifierState(META_NONE));
    assert_eq!(
        get_symmetrical_modifier_key_mask(KEYCODE_ALT_RIGHT),
        ModifierState(META_ALT_LEFT_ON | META_ALT_RIGHT_ON | META_ALT_ON)
    );
    let all = ModifierState(input::input::META_NUM_LOCK_ON | META_CTRL_ON | META_META_RIGHT_ON);
    assert_eq!(clear_ephemeral_modifier_state(all), ModifierState(input::input::META_NUM_LOCK_ON));
}
