//! Discovery of Bluetooth radios and devices, and the pairing workflow that
//! drives one chosen device from "detected" to "usable".
//!
//! Every decision is made here; the operating-system calls themselves are
//! made by the caller, which hands their answers back (see [`os`]).
pub mod device;
pub mod enumerator;
pub mod error;
pub mod os;
pub mod pairing;
pub mod radio;
pub mod settings;
pub mod text;

pub use error::last_error;
pub use pairing::get_radio;
