use input::input::{META_CTRL_LEFT_ON, META_CTRL_ON, META_NONE, SOURCE_KEYBOARD};
use input::sticky_keys_filter::{KEYCODE_CTRL_LEFT, KEYCODE_SHIFT_LEFT};
use input::{DeviceInfo, FilterChain, KeyEvent, KeyEventAction, KeyboardType, ModifierState, Source};

const KEY_A: i32 = 29;
const DOWN: KeyEvent = KeyEvent {
    id: 1,
    device_id: 1,
    down_time: 0,
    read_time: 0,
    event_time: 0,
    source: Source(SOURCE_KEYBOARD),
    display_id: 0,
    policy_flags: 0,
    action: KeyEventAction::Down,
    flags: 0,
    key_code: KEY_A,
    scan_code: 0,
    meta_state: 0,
};
const UP: KeyEvent = KeyEvent { action: KeyEventAction::Up, ..DOWN };

fn keyboard() -> [DeviceInfo; 1] {
    [DeviceInfo { device_id: 1, external: true, keyboard_type: KeyboardType::Alphabetic }]
}

#[test]
fn chain_without_filters_passes_everything() {
    let mut chain = FilterChain::new(0, false);
    assert_eq!(chain.notify_key(&DOWN).event, Some(DOWN));
    assert_eq!(chain.notify_key(&UP).event, Some(UP));
    assert_eq!(chain.notify_devices_changed(&keyboard()), None);
}

#[test]
fn chain_drops_bounce_before_sticky_keys_see_it() {
    let mut chain = FilterChain::new(100, true);
    chain.notify_devices_changed(&keyboard());
    assert_eq!(chain.notify_key(&DOWN).event, Some(DOWN));
    assert_eq!(chain.notify_key(&UP).event, Some(UP));
    // A press 50 after the release is a bounce: nothing reaches the host.
    let bounce = KeyEvent { event_time: 50, ..DOWN };
    let out = chain.notify_key(&bounce);
    assert_eq!(out.event, None);
    assert_eq!(out.modifier_state_change, None);
    let late = KeyEvent { event_time: 150, ..DOWN };
    assert_eq!(chain.notify_key(&late).event, Some(late));
}

#[test]
fn chain_applies_sticky_modifiers() {
    let mut chain = FilterChain::new(100, true);
    chain.notify_devices_changed(&keyboard());
    assert_eq!(chain.notify_key(&KeyEvent { key_code: KEYCODE_CTRL_LEFT, ..DOWN }).event, None);
    let out = chain.notify_key(&KeyEvent { key_code: KEYCODE_CTRL_LEFT, ..UP });
    assert_eq!(out.event, None);
    let ctrl = ModifierState(META_CTRL_LEFT_ON | META_CTRL_ON);
    assert_eq!(out.modifier_state_change.unwrap().modifier_state, ctrl);
    let typed = chain.notify_key(&DOWN).event.unwrap();
    assert_eq!(typed.meta_state as u32, ctrl.bits());
}

#[test]
fn rebuilt_chain_keeps_locked_modifiers() {
    let mut chain = FilterChain::new(0, true);
    for _ in 0..2 {
        chain.notify_key(&KeyEvent { key_code: KEYCODE_CTRL_LEFT, ..DOWN });
        chain.notify_key(&KeyEvent { key_code: KEYCODE_CTRL_LEFT, ..UP });
    }
    let saved = chain.save();
    let mut rebuilt = FilterChain::new(100, true);
    rebuilt.restore(&saved);
    // Shift is added; Ctrl stays locked after a key is typed.
    rebuilt.notify_key(&KeyEvent { key_code: KEYCODE_SHIFT_LEFT, ..DOWN });
    rebuilt.notify_key(&KeyEvent { key_code: KEYCODE_SHIFT_LEFT, ..UP });
    rebuilt.notify_key(&DOWN);
    let out = rebuilt.notify_key(&UP);
    let ctrl = ModifierState(META_CTRL_LEFT_ON | META_CTRL_ON);
    assert_eq!(out.modifier_state_change.unwrap().modifier_state, ctrl);
    // Once the device is gone, nothing stays applied.
    let change = rebuilt.notify_devices_changed(&[]).unwrap();
    assert_eq!(change.modifier_state, ModifierState(META_NONE));
    assert_eq!(change.locked_modifier_state, ModifierState(META_NONE));
}

#[test]
fn dump_describes_each_filter() {
    let chain = FilterChain::new(100, true);
    let text = chain.dump("chain:\n".to_string());
    assert!(text.starts_with("chain:\n"));
    assert!(text.contains("Bounce Keys filter"));
    assert!(text.contains("threshold = 100ns"));
    assert!(text.contains("Sticky Keys filter"));
    let empty = FilterChain::new(0, false);
    assert_eq!(empty.dump("x".to_string()), "x");
}

#[test]
fn destroyed_chain_passes_keys_unchanged() {
    let mut chain = FilterChain::new(100, true);
    chain.notify_devices_changed(&keyboard());
    chain.destroy();
    let ctrl = KeyEvent { key_code: KEYCODE_CTRL_LEFT, ..DOWN };
    assert_eq!(chain.notify_key(&ctrl).event, Some(ctrl));
    assert_eq!(chain.dump(String::new()), "");
}
