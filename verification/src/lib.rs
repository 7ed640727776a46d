//! Decoder for the SMBIOS/DMI table that firmware exposes: the record framing,
//! the six structure decoders, the aggregate model, and the small amount of
//! navigation state that a front end keeps next to it.

pub mod app;
pub mod bytes;
pub mod dmi;
pub mod handlers;
pub mod key;
pub mod text;
