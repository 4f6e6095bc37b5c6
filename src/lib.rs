//! Input event validation and transformation: a verifier of motion event streams, a keyboard
//! classifier with its persistent store, and the bounce keys and sticky keys filters.

pub mod bounce_keys_filter;
pub mod bridge;
pub mod data_store;
pub mod filter_chain;
pub mod input;
pub mod input_filter;
pub mod input_verifier;
pub mod keyboard_classification_config;
pub mod keyboard_classifier;
pub mod sticky_keys_filter;

pub use bounce_keys_filter::BounceKeysFilter;
pub use data_store::{DataStore, FileReaderWriter, KeyboardClassification};
pub use filter_chain::FilterChain;
pub use input::{
    DeviceClass, DeviceId, InputDevice, KeyboardType, ModifierState, MotionAction, MotionButton,
    MotionFlags, RustInputDeviceIdentifier, Source, SourceClass,
};
pub use input_filter::{DeviceInfo, KeyEvent, KeyEventAction};
pub use input_verifier::{ButtonVerifier, InputVerifier, NotifyMotionArgs, RustPointerProperties};
pub use keyboard_classifier::KeyboardClassifier;
pub use sticky_keys_filter::StickyKeysFilter;
