//! Pin-capability validation and enable sequencing for the serial peripherals
//! of a microcontroller family when they run in word-clocked audio mode.
//!
//! The chip variant is chosen once, when a [`Registry`] is built; every
//! capability lookup and every bundle check goes through that registry.
//! [`bind`] turns four pins into a [`PinBundle`] only when each can fill its
//! role, and [`Enable::enable`] lists the register operations that switch an
//! instance on.

pub mod bundle;
pub mod enable;
pub mod pin;
pub mod registry;
pub mod variant;

pub use bundle::{bind, BindError, BundleView, NoMasterClock, PinBundle, PinMck, Pins};
pub use enable::{BitAction, ClockControl, Enable, Register, RegisterOp, Sealed};
pub use pin::{AltPin, Pin, Port, Role};
pub use registry::{CapabilityFact, Registry};
pub use variant::{ChipVariant, Peripheral, VariantGroup};
