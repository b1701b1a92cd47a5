//! Verified core of safe bindings to the ecCodes library for reading GRIB files.

pub mod codes_types;
pub mod errors;
pub mod grid;
pub mod grid_read;
pub mod index;
pub mod key_read;
pub mod keys;
pub mod message;
pub mod nearest;
pub mod strings;

pub use codes_types::{KeysIteratorFlags, NativeKeyType, ProductKind};
pub use errors::{CodesError, CodesInternal, MessageNdarrayError};
pub use key_read::DynamicKeyType;
pub use message::{BufParent, RefParent};
pub use nearest::NearestGridpoint;
