pub mod bom;
pub mod detector;
pub mod errors;
pub mod resolver;
pub mod strutil;
pub mod table;
pub mod transcode;
pub mod utf16;

pub use bom::sniff;
pub use detector::{detect, DetectionResult, DetectionSource};
pub use errors::DecodeError;
pub use resolver::{decode_with_encoding, resolve_and_decode, resolve_detection, resolve_with_detection};
pub use table::get_codepage;
pub use utf16::decode_utf16;
