//! Loader-context layer of a PE/COFF image loader: validation of a
//! caller-supplied context, a bounds-checked read bridge over an untrusted
//! read callback, and classification of the image headers.
pub mod context;
pub mod error;
pub mod headers;
pub mod reader;

pub use context::{ContextFields, PeCoffLoaderImageContext, RawImageContext};
pub use error::PeCoffImageError;
pub use reader::{read_outcome, ImageReader, MemoryImage};
