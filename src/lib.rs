//! Driver for the PCA9535 16-bit I2C GPIO expander.
//!
//! The chip has eight one-byte registers grouped in four pairs (bank 0 and
//! bank 1 of the input, output, polarity-inversion and configuration ports).
//! Two drivers are offered: [`Pca9535Immediate`] issues one bus transaction
//! per operation, while [`Pca9535Cached`] keeps a mirror of every register and
//! only goes to the bus when a write has to reach the device or when the
//! interrupt line reports that the inputs changed.

pub mod bus;
pub mod cache;
pub mod cached;
pub mod coherence;
pub mod error;
pub mod expander;
pub mod immediate;
pub mod pin;
pub mod register;
pub mod standard;
pub mod sync;

pub use bus::{I2cBus, InterruptLine, Transaction};
pub use cache::RegisterCache;
pub use cached::Pca9535Cached;
pub use error::ExpanderError;
pub use expander::Expander;
pub use immediate::Pca9535Immediate;
pub use pin::{ExpanderInputPin, ExpanderOutputPin};
pub use register::{GPIOBank, PinState, Polarity, Register};
pub use standard::StandardExpanderInterface;
pub use sync::{ExpanderMutex, IoExpander, SyncExpander};
