//! Common input types: device identifiers, flag sets decoded from raw integers, motion actions
//! and keyboard types.

use vstd::prelude::*;

verus! {

/// `true` when every bit of `flags` is also set in `set`.
pub open spec fn has_bits(set: u32, flags: u32) -> bool {
    set & flags == flags
}

/// Number of bits set in `x`.
pub open spec fn bit_count(x: u32) -> nat
    decreases x,
{
    if x == 0 {
        0
    } else {
        (x % 2) as nat + bit_count(x / 2)
    }
}

/// Counts the bits set in `x`.
pub fn count_bits(x: u32) -> (r: u32)
    ensures
        r as nat == bit_count(x),
{
    let mut rest: u32 = x;
    let mut count: u32 = 0;
    while rest != 0
        invariant
            count as nat + bit_count(rest) == bit_count(x),
            count as int + rest as int <= x as int,
        decreases rest,
    {
        count = count + rest % 2;
        rest = rest / 2;
    }
    count
}


/// Counting the bits of `x` one at a time from the lowest.
pub proof fn lemma_bit_count_unfold(x: u32)
    ensures
        bit_count(x) == (x % 2) as nat + bit_count(x / 2),
{
    if x == 0 {
        assert(x / 2 == 0);
    }
}

/// The bits of `x` inside `mask` and those outside it make up all of its bits.
pub proof fn lemma_bit_count_split(x: u32, mask: u32)
    ensures
        bit_count(x) == bit_count(x & mask) + bit_count(x & !mask),
    decreases x,
{
    if x == 0 {
        assert(x & mask == 0 && x & !mask == 0) by (bit_vector)
            requires
                x == 0,
        ;
    } else {
        let low = x / 2;
        let low_mask = mask / 2;
        assert((x & mask) / 2 == low & low_mask && (x & !mask) / 2 == low & !low_mask && (x & mask)
            % 2 + (x & !mask) % 2 == x % 2) by (bit_vector)
            requires
                low == x / 2,
                low_mask == mask / 2,
        ;
        lemma_bit_count_split(low, low_mask);
        lemma_bit_count_unfold(x);
        lemma_bit_count_unfold(x & mask);
        lemma_bit_count_unfold(x & !mask);
    }
}

/// Identifier of an input device, unique while the device is connected.
#[derive(Clone, Copy, Debug, PartialEq, Eq, Structural, Hash)]
pub struct DeviceId(pub i32);

/// The class part of an input source: the low byte of a source value.
#[derive(Clone, Copy, Debug, PartialEq, Eq, Structural)]
pub enum SourceClass {
    Unclassified,
    Button,
    Pointer,
    Navigation,
    Position,
    Joystick,
}

impl SourceClass {
    /// The bit that stands for this class in a source value.
    pub open spec fn spec_bits(self) -> u32 {
        match self {
            SourceClass::Unclassified => 0x0,
            SourceClass::Button => 0x1,
            SourceClass::Pointer => 0x2,
            SourceClass::Navigation => 0x4,
            SourceClass::Position => 0x8,
            SourceClass::Joystick => 0x10,
        }
    }

    #[verifier::when_used_as_spec(spec_bits)]
    pub fn bits(self) -> (r: u32)
        ensures
            r == self.spec_bits(),
    {
        match self {
            SourceClass::Unclassified => 0x0,
            SourceClass::Button => 0x1,
            SourceClass::Pointer => 0x2,
            SourceClass::Navigation => 0x4,
            SourceClass::Position => 0x8,
            SourceClass::Joystick => 0x10,
        }
    }
}

/// Bits of every known input source.
pub const SOURCE_KNOWN_BITS: u32 = 0x0773_f71f;

/// Source of an input device or of an input event, as a set of source bits.
#[derive(Clone, Copy, Debug, PartialEq, Eq, Structural, Hash)]
pub struct Source(pub u32);

pub const SOURCE_UNKNOWN: u32 = 0x0;
pub const SOURCE_KEYBOARD: u32 = 0x101;
pub const SOURCE_DPAD: u32 = 0x201;
pub const SOURCE_GAMEPAD: u32 = 0x401;
pub const SOURCE_TOUCHSCREEN: u32 = 0x1002;
pub const SOURCE_MOUSE: u32 = 0x2002;
pub const SOURCE_STYLUS: u32 = 0x4002;
pub const SOURCE_BLUETOOTH_STYLUS: u32 = 0xc002;
pub const SOURCE_TRACKBALL: u32 = 0x10004;
pub const SOURCE_MOUSE_RELATIVE: u32 = 0x20004;
pub const SOURCE_TOUCHPAD: u32 = 0x10_0008;
pub const SOURCE_TOUCH_NAVIGATION: u32 = 0x20_0000;
pub const SOURCE_JOYSTICK: u32 = 0x100_0010;
pub const SOURCE_HDMI: u32 = 0x200_0001;
pub const SOURCE_SENSOR: u32 = 0x400_0000;
pub const SOURCE_ROTARY_ENCODER: u32 = 0x40_0000;

impl Source {
    /// Decodes a raw source value; `None` when it holds a bit of no known source.
    pub fn from_bits(bits: u32) -> (r: Option<Source>)
        ensures
            r == (if bits & !SOURCE_KNOWN_BITS == 0 { Some(Source(bits)) } else { None::<Source> }),
    {
        if bits & !SOURCE_KNOWN_BITS == 0 {
            Some(Source(bits))
        } else {
            None
        }
    }

    /// `true` when the source belongs to the given class.
    pub open spec fn spec_is_from_class(self, class: SourceClass) -> bool {
        has_bits(self.0, class.spec_bits())
    }

    #[verifier::when_used_as_spec(spec_is_from_class)]
    pub fn is_from_class(self, class: SourceClass) -> (r: bool)
        ensures
            r == self.spec_is_from_class(class),
    {
        let class_bits = class.bits();
        self.0 & class_bits == class_bits
    }

    /// `true` when the two sources share a bit.
    pub open spec fn spec_intersects(self, other: Source) -> bool {
        self.0 & other.0 != 0
    }

    #[verifier::when_used_as_spec(spec_intersects)]
    pub fn intersects(self, other: Source) -> (r: bool)
        ensures
            r == self.spec_intersects(other),
    {
        self.0 & other.0 != 0
    }
}

/// Bits of every known motion event flag.
pub const MOTION_FLAGS_KNOWN_BITS: u32 = 0xc000_09ef;

/// Flags of a motion event.
#[derive(Clone, Copy, Debug, PartialEq, Eq, Structural, Hash)]
pub struct MotionFlags(pub u32);

pub const MOTION_FLAG_WINDOW_IS_OBSCURED: u32 = 0x1;
pub const MOTION_FLAG_WINDOW_IS_PARTIALLY_OBSCURED: u32 = 0x2;
pub const MOTION_FLAG_HOVER_EXIT_PENDING: u32 = 0x4;
pub const MOTION_FLAG_IS_GENERATED_GESTURE: u32 = 0x8;
pub const MOTION_FLAG_CANCELED: u32 = 0x20;
pub const MOTION_FLAG_NO_FOCUS_CHANGE: u32 = 0x40;
pub const MOTION_PRIVATE_FLAG_SUPPORTS_ORIENTATION: u32 = 0x80;
pub const MOTION_PRIVATE_FLAG_SUPPORTS_DIRECTIONAL_ORIENTATION: u32 = 0x100;
pub const MOTION_FLAG_IS_ACCESSIBILITY_EVENT: u32 = 0x800;
pub const MOTION_FLAG_TARGET_ACCESSIBILITY_FOCUSED: u32 = 0x4000_0000;
pub const MOTION_FLAG_TAINTED: u32 = 0x8000_0000;

impl MotionFlags {
    pub fn empty() -> (r: MotionFlags)
        ensures
            r.0 == 0,
    {
        MotionFlags(0)
    }

    /// Decodes raw flags; `None` when they hold an unknown flag.
    pub fn from_bits(bits: u32) -> (r: Option<MotionFlags>)
        ensures
            r == (if bits & !MOTION_FLAGS_KNOWN_BITS == 0 {
                Some(MotionFlags(bits))
            } else {
                None::<MotionFlags>
            }),
    {
        if bits & !MOTION_FLAGS_KNOWN_BITS == 0 {
            Some(MotionFlags(bits))
        } else {
            None
        }
    }

    pub open spec fn spec_contains(self, other: MotionFlags) -> bool {
        has_bits(self.0, other.0)
    }

    #[verifier::when_used_as_spec(spec_contains)]
    pub fn contains(self, other: MotionFlags) -> (r: bool)
        ensures
            r == self.spec_contains(other),
    {
        self.0 & other.0 == other.0
    }
}

/// Bits of every known mouse or stylus button.
pub const MOTION_BUTTON_KNOWN_BITS: u32 = 0x7f;

/// A set of mouse or stylus buttons.
#[derive(Clone, Copy, Debug, PartialEq, Eq, Structural, Hash)]
pub struct MotionButton(pub u32);

pub const BUTTON_PRIMARY: u32 = 0x1;
pub const BUTTON_SECONDARY: u32 = 0x2;
pub const BUTTON_TERTIARY: u32 = 0x4;
pub const BUTTON_BACK: u32 = 0x8;
pub const BUTTON_FORWARD: u32 = 0x10;
pub const BUTTON_STYLUS_PRIMARY: u32 = 0x20;
pub const BUTTON_STYLUS_SECONDARY: u32 = 0x40;

impl MotionButton {
    pub fn empty() -> (r: MotionButton)
        ensures
            r.0 == 0,
    {
        MotionButton(0)
    }

    /// Decodes a raw button set; `None` when it holds an unknown button.
    pub fn from_bits(bits: u32) -> (r: Option<MotionButton>)
        ensures
            r == (if bits & !MOTION_BUTTON_KNOWN_BITS == 0 {
                Some(MotionButton(bits))
            } else {
                None::<MotionButton>
            }),
    {
        if bits & !MOTION_BUTTON_KNOWN_BITS == 0 {
            Some(MotionButton(bits))
        } else {
            None
        }
    }

    pub fn is_empty(self) -> (r: bool)
        ensures
            r == (self.0 == 0),
    {
        self.0 == 0
    }

    pub open spec fn spec_contains(self, other: MotionButton) -> bool {
        has_bits(self.0, other.0)
    }

    /// `true` when every button of `other` is in `self`.
    #[verifier::when_used_as_spec(spec_contains)]
    pub fn contains(self, other: MotionButton) -> (r: bool)
        ensures
            r == self.spec_contains(other),
    {
        self.0 & other.0 == other.0
    }

    pub open spec fn spec_union(self, other: MotionButton) -> MotionButton {
        MotionButton(self.0 | other.0)
    }

    /// The buttons in `self` or in `other`.
    #[verifier::when_used_as_spec(spec_union)]
    pub fn union(self, other: MotionButton) -> (r: MotionButton)
        ensures
            r == self.spec_union(other),
    {
        MotionButton(self.0 | other.0)
    }

    pub open spec fn spec_difference(self, other: MotionButton) -> MotionButton {
        MotionButton(self.0 & !other.0)
    }

    /// The buttons in `self` and not in `other`.
    #[verifier::when_used_as_spec(spec_difference)]
    pub fn difference(self, other: MotionButton) -> (r: MotionButton)
        ensures
            r == self.spec_difference(other),
    {
        MotionButton(self.0 & !other.0)
    }

    /// Number of buttons in the set.
    pub fn count(self) -> (r: u32)
        ensures
            r as nat == bit_count(self.0),
    {
        count_bits(self.0)
    }
}

/// Bits of every known meta key state.
pub const MODIFIER_STATE_KNOWN_BITS: u32 = 0x0077_70ff;

/// The state of the modifier keys, as a set of meta state bits.
#[derive(Clone, Copy, Debug, PartialEq, Eq, Structural, Hash)]
pub struct ModifierState(pub u32);

pub const META_NONE: u32 = 0x0;
pub const META_ALT_ON: u32 = 0x02;
pub const META_ALT_LEFT_ON: u32 = 0x10;
pub const META_ALT_RIGHT_ON: u32 = 0x20;
pub const META_SHIFT_ON: u32 = 0x01;
pub const META_SHIFT_LEFT_ON: u32 = 0x40;
pub const META_SHIFT_RIGHT_ON: u32 = 0x80;
pub const META_SYM_ON: u32 = 0x04;
pub const META_FUNCTION_ON: u32 = 0x08;
pub const META_CTRL_ON: u32 = 0x1000;
pub const META_CTRL_LEFT_ON: u32 = 0x2000;
pub const META_CTRL_RIGHT_ON: u32 = 0x4000;
pub const META_META_ON: u32 = 0x1_0000;
pub const META_META_LEFT_ON: u32 = 0x2_0000;
pub const META_META_RIGHT_ON: u32 = 0x4_0000;
pub const META_CAPS_LOCK_ON: u32 = 0x10_0000;
pub const META_NUM_LOCK_ON: u32 = 0x20_0000;
pub const META_SCROLL_LOCK_ON: u32 = 0x40_0000;

impl ModifierState {
    /// Decodes a raw meta state; `None` when it holds an unknown bit.
    pub fn from_bits(bits: u32) -> (r: Option<ModifierState>)
        ensures
            r == (if bits & !MODIFIER_STATE_KNOWN_BITS == 0 {
                Some(ModifierState(bits))
            } else {
                None::<ModifierState>
            }),
    {
        if bits & !MODIFIER_STATE_KNOWN_BITS == 0 {
            Some(ModifierState(bits))
        } else {
            None
        }
    }

    pub fn bits(self) -> (r: u32)
        ensures
            r == self.0,
    {
        self.0
    }

    pub open spec fn spec_union(self, other: ModifierState) -> ModifierState {
        ModifierState(self.0 | other.0)
    }

    #[verifier::when_used_as_spec(spec_union)]
    pub fn union(self, other: ModifierState) -> (r: ModifierState)
        ensures
            r == self.spec_union(other),
    {
        ModifierState(self.0 | other.0)
    }

    pub open spec fn spec_intersection(self, other: ModifierState) -> ModifierState {
        ModifierState(self.0 & other.0)
    }

    #[verifier::when_used_as_spec(spec_intersection)]
    pub fn intersection(self, other: ModifierState) -> (r: ModifierState)
        ensures
            r == self.spec_intersection(other),
    {
        ModifierState(self.0 & other.0)
    }

    pub open spec fn spec_difference(self, other: ModifierState) -> ModifierState {
        ModifierState(self.0 & !other.0)
    }

    #[verifier::when_used_as_spec(spec_difference)]
    pub fn difference(self, other: ModifierState) -> (r: ModifierState)
        ensures
            r == self.spec_difference(other),
    {
        ModifierState(self.0 & !other.0)
    }
}

/// Bits of every known device class.
pub const DEVICE_CLASS_KNOWN_BITS: u32 = 0xc001_ffff;

/// The capabilities that the device enumeration layer reports for a device.
#[derive(Clone, Copy, Debug, PartialEq, Eq, Structural, Hash)]
pub struct DeviceClass(pub u32);

pub const DEVICE_CLASS_KEYBOARD: u32 = 0x1;
pub const DEVICE_CLASS_ALPHABETIC_KEY: u32 = 0x2;
pub const DEVICE_CLASS_TOUCH: u32 = 0x4;
pub const DEVICE_CLASS_CURSOR: u32 = 0x8;
pub const DEVICE_CLASS_MULTI_TOUCH: u32 = 0x10;
pub const DEVICE_CLASS_DPAD: u32 = 0x20;
pub const DEVICE_CLASS_GAMEPAD: u32 = 0x40;
pub const DEVICE_CLASS_SWITCH: u32 = 0x80;
pub const DEVICE_CLASS_JOYSTICK: u32 = 0x100;
pub const DEVICE_CLASS_VIBRATOR: u32 = 0x200;
pub const DEVICE_CLASS_MIC: u32 = 0x400;
pub const DEVICE_CLASS_EXTERNAL_STYLUS: u32 = 0x800;
pub const DEVICE_CLASS_ROTARY_ENCODER: u32 = 0x1000;
pub const DEVICE_CLASS_SENSOR: u32 = 0x2000;
pub const DEVICE_CLASS_BATTERY: u32 = 0x4000;
pub const DEVICE_CLASS_LIGHT: u32 = 0x8000;
pub const DEVICE_CLASS_TOUCHPAD: u32 = 0x1_0000;
pub const DEVICE_CLASS_VIRTUAL: u32 = 0x4000_0000;
pub const DEVICE_CLASS_EXTERNAL: u32 = 0x8000_0000;

impl DeviceClass {
    /// Decodes raw device classes; `None` when they hold an unknown class.
    pub fn from_bits(bits: u32) -> (r: Option<DeviceClass>)
        ensures
            r == (if bits & !DEVICE_CLASS_KNOWN_BITS == 0 {
                Some(DeviceClass(bits))
            } else {
                None::<DeviceClass>
            }),
    {
        if bits & !DEVICE_CLASS_KNOWN_BITS == 0 {
            Some(DeviceClass(bits))
        } else {
            None
        }
    }

    pub open spec fn spec_contains(self, other: DeviceClass) -> bool {
        has_bits(self.0, other.0)
    }

    #[verifier::when_used_as_spec(spec_contains)]
    pub fn contains(self, other: DeviceClass) -> (r: bool)
        ensures
            r == self.spec_contains(other),
    {
        self.0 & other.0 == other.0
    }

    pub open spec fn spec_union(self, other: DeviceClass) -> DeviceClass {
        DeviceClass(self.0 | other.0)
    }

    #[verifier::when_used_as_spec(spec_union)]
    pub fn union(self, other: DeviceClass) -> (r: DeviceClass)
        ensures
            r == self.spec_union(other),
    {
        DeviceClass(self.0 | other.0)
    }
}

/// What kind of keyboard a device is.
#[derive(Clone, Copy, Debug, PartialEq, Eq, Structural, Hash)]
pub enum KeyboardType {
    /// Not a keyboard.
    NonKeyboard,
    /// A keyboard without the alphabetic rows (a keypad, a remote).
    NonAlphabetic,
    /// A full keyboard.
    Alphabetic,
}

impl KeyboardType {
    pub open spec fn spec_code(self) -> u32 {
        match self {
            KeyboardType::NonKeyboard => 0,
            KeyboardType::NonAlphabetic => 1,
            KeyboardType::Alphabetic => 2,
        }
    }

    /// The integer code of the keyboard type.
    #[verifier::when_used_as_spec(spec_code)]
    pub fn code(self) -> (r: u32)
        ensures
            r == self.spec_code(),
    {
        match self {
            KeyboardType::NonKeyboard => 0,
            KeyboardType::NonAlphabetic => 1,
            KeyboardType::Alphabetic => 2,
        }
    }
}


/// Highest masked action code that a motion event can carry.
pub const MOTION_ACTION_MAX_CODE: u32 = 12;

/// What a motion event reports.
#[derive(Clone, Copy, Debug, PartialEq, Eq, Structural)]
pub enum MotionAction {
    Down,
    Up,
    Move,
    Cancel,
    Outside,
    /// A further pointer went down; `action_index` is its position in the event's pointers.
    PointerDown { action_index: usize },
    /// One of several pointers went up; `action_index` is its position in the event's pointers.
    PointerUp { action_index: usize },
    HoverMove,
    Scroll,
    HoverEnter,
    HoverExit,
    ButtonPress { action_button: MotionButton },
    ButtonRelease { action_button: MotionButton },
}

impl MotionAction {
    /// The action that a raw action value stands for: the low byte is the action, the next
    /// byte the pointer index.
    pub open spec fn spec_from_code(action: u32, action_button: MotionButton) -> MotionAction
        recommends
            action & 0xff <= MOTION_ACTION_MAX_CODE,
    {
        let masked = action & 0xff;
        let index = ((action & 0xff00) >> 8u32) as usize;
        if masked == 0 {
            MotionAction::Down
        } else if masked == 1 {
            MotionAction::Up
        } else if masked == 2 {
            MotionAction::Move
        } else if masked == 3 {
            MotionAction::Cancel
        } else if masked == 4 {
            MotionAction::Outside
        } else if masked == 5 {
            MotionAction::PointerDown { action_index: index }
        } else if masked == 6 {
            MotionAction::PointerUp { action_index: index }
        } else if masked == 7 {
            MotionAction::HoverMove
        } else if masked == 8 {
            MotionAction::Scroll
        } else if masked == 9 {
            MotionAction::HoverEnter
        } else if masked == 10 {
            MotionAction::HoverExit
        } else if masked == 11 {
            MotionAction::ButtonPress { action_button }
        } else {
            MotionAction::ButtonRelease { action_button }
        }
    }

    /// Decodes a raw action value.
    pub fn from_code(action: u32, action_button: MotionButton) -> (r: MotionAction)
        requires
            action & 0xff <= MOTION_ACTION_MAX_CODE,
        ensures
            r == MotionAction::spec_from_code(action, action_button),
    {
        let masked = action & 0xff;
        let index = ((action & 0xff00) >> 8u32) as usize;
        if masked == 0 {
            MotionAction::Down
        } else if masked == 1 {
            MotionAction::Up
        } else if masked == 2 {
            MotionAction::Move
        } else if masked == 3 {
            MotionAction::Cancel
        } else if masked == 4 {
            MotionAction::Outside
        } else if masked == 5 {
            MotionAction::PointerDown { action_index: index }
        } else if masked == 6 {
            MotionAction::PointerUp { action_index: index }
        } else if masked == 7 {
            MotionAction::HoverMove
        } else if masked == 8 {
            MotionAction::Scroll
        } else if masked == 9 {
            MotionAction::HoverEnter
        } else if masked == 10 {
            MotionAction::HoverExit
        } else if masked == 11 {
            MotionAction::ButtonPress { action_button }
        } else {
            MotionAction::ButtonRelease { action_button }
        }
    }

    /// The action's name, as it appears in messages.
    pub open spec fn spec_name(self) -> Seq<char> {
        match self {
            MotionAction::Down => "DOWN"@,
            MotionAction::Up => "UP"@,
            MotionAction::Move => "MOVE"@,
            MotionAction::Cancel => "CANCEL"@,
            MotionAction::Outside => "OUTSIDE"@,
            MotionAction::PointerDown { .. } => "POINTER_DOWN"@,
            MotionAction::PointerUp { .. } => "POINTER_UP"@,
            MotionAction::HoverMove => "HOVER_MOVE"@,
            MotionAction::Scroll => "SCROLL"@,
            MotionAction::HoverEnter => "HOVER_ENTER"@,
            MotionAction::HoverExit => "HOVER_EXIT"@,
            MotionAction::ButtonPress { .. } => "BUTTON_PRESS"@,
            MotionAction::ButtonRelease { .. } => "BUTTON_RELEASE"@,
        }
    }

    /// The action's name, as it appears in messages.
    pub fn name(self) -> (r: &'static str)
        ensures
            r@ == self.spec_name(),
    {
        match self {
            MotionAction::Down => "DOWN",
            MotionAction::Up => "UP",
            MotionAction::Move => "MOVE",
            MotionAction::Cancel => "CANCEL",
            MotionAction::Outside => "OUTSIDE",
            MotionAction::PointerDown { .. } => "POINTER_DOWN",
            MotionAction::PointerUp { .. } => "POINTER_UP",
            MotionAction::HoverMove => "HOVER_MOVE",
            MotionAction::Scroll => "SCROLL",
            MotionAction::HoverEnter => "HOVER_ENTER",
            MotionAction::HoverExit => "HOVER_EXIT",
            MotionAction::ButtonPress { .. } => "BUTTON_PRESS",
            MotionAction::ButtonRelease { .. } => "BUTTON_RELEASE",
        }
    }

    /// `true` for the two actions that carry an action button.
    pub open spec fn spec_is_button_action(self) -> bool {
        self is ButtonPress || self is ButtonRelease
    }

    #[verifier::when_used_as_spec(spec_is_button_action)]
    pub fn is_button_action(self) -> (r: bool)
        ensures
            r == self.spec_is_button_action(),
    {
        match self {
            MotionAction::ButtonPress { .. } | MotionAction::ButtonRelease { .. } => true,
            _ => false,
        }
    }
}

/// Identity of an input device as the device enumeration layer reports it.
#[derive(Clone, Debug)]
pub struct RustInputDeviceIdentifier {
    pub name: String,
    pub location: String,
    pub unique_id: String,
    pub bus: u16,
    pub vendor: u16,
    pub product: u16,
    pub version: u16,
    pub descriptor: String,
}

/// An input device: its identifier, its identity and its classes.
#[derive(Clone, Debug)]
pub struct InputDevice {
    pub device_id: DeviceId,
    pub identifier: RustInputDeviceIdentifier,
    pub classes: DeviceClass,
}

} // verus!
