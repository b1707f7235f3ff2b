//! A verified core for a QR-code reader that accepts images from several
//! input channels (drag-and-drop, clipboard paste, file picker), reads each
//! blob asynchronously, decodes the first QR symbol found, and shows the
//! result of whichever read completed last.
//!
//! The decode pipeline calls the `image` and `rqrr` crates through trusted
//! wrappers; every decision around those calls — which grid is decoded, how
//! failures are reported, how concurrent reads are tracked — is verified.

pub mod controller;
pub mod decode;
pub mod names;
pub mod paste;
pub mod registry;
pub mod text;

pub use controller::Msg;
pub use controller::QrDecoder;
pub use decode::decode_qr;
pub use names::clipboard_name;
