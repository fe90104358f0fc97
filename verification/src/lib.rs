//! Wrappers for secret text and secret bytes.
//!
//! A secret is erased from memory when it is dropped, renders as a fixed mask in
//! `Debug` and `Display`, hands its content out only through `expose`, and compares
//! with other secrets in constant time.
//!
//! The view of a secret (`secret@`) is its content, and every contract of the two types
//! is stated over it.

pub mod constant_time;
pub mod masking;
pub mod scrub;
pub mod secret_bytes;
pub mod secret_string;

pub use secret_bytes::ByteSource;
pub use secret_bytes::SecretBytes;
pub use secret_string::SecretString;
pub use secret_string::TextSource;
