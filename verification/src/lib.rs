//! PackStream (Bolt protocol) value types with their wire format.

pub mod buffer;
pub mod convert;
pub mod de;
pub mod builder;
pub mod concurrent_hashmap;
pub mod errors;
pub mod extract;
pub mod facts;
pub mod fields;
pub mod laws;
pub mod model;
pub mod roundtrip;
pub mod temporal;
pub mod text;
pub mod tuples;
pub mod types;
pub mod version;
pub mod wire;

pub use errors::Error;
pub use version::Version;
