//! Typed values for a hierarchical key-value registry store.
//!
//! The store keeps each value as a raw byte buffer together with a numeric
//! type tag.  This library models the closed set of value kinds the store
//! supports, the bidirectional mapping between tagged byte buffers and typed
//! values (including endianness and string-termination handling), the
//! tag-to-buffer-size registry, and the entry descriptors that drive
//! read-modify-write operations against the store.

pub mod codec;
pub mod config;
pub mod regedit_error;
pub mod registry_value;
pub mod render;
pub mod tag;
pub mod text;

pub use config::Config;
pub use config::RegistryEntry;
pub use config::RegistryKeyType;
pub use regedit_error::ErrorKind;
pub use regedit_error::RegeditError;
pub use registry_value::RegistryValue;
pub use registry_value::ValueModel;
pub use tag::expected_buffer_size;
pub use tag::REG_BINARY;
pub use tag::REG_DWORD;
pub use tag::REG_DWORD_BIG_ENDIAN;
pub use tag::REG_EXPAND_SZ;
pub use tag::REG_LINK;
pub use tag::REG_MULTI_SZ;
pub use tag::REG_NONE;
pub use tag::REG_QWORD;
pub use tag::REG_SZ;
