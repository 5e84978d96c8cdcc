//! Dynamic loading of an XInput-compatible gamepad library, modelled as a
//! verified protocol.
//!
//! The operating system's dynamic loader and the vendor's entry points are
//! reached only from platform glue outside this crate.  Everything this crate
//! owns — the candidate-list resolution order, the symbol-binding rules, the
//! legacy global status register, controller-state decoding, deadzone-aware
//! stick normalization, and the error taxonomy — is plain logic on plain
//! values, stated in contracts and proved.

pub mod battery;
pub mod errors;
pub mod handle;
pub mod legacy;
pub mod loader;
pub mod state;
pub mod stick;
pub mod types;
pub mod wide;

pub use battery::BatteryLevel;
pub use battery::BatteryType;
pub use battery::XInputBatteryInformation;
pub use errors::XInputLoadingFailure;
pub use errors::XInputOptionalFnUsageError;
pub use errors::XInputUsageError;
pub use handle::XInputHandle;
pub use state::XInputState;
pub use types::XINPUT_CAPABILITIES_EX;
