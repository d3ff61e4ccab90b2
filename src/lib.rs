//! Decryption of vendor media containers: header parsing, key derivation
//! from an account email and the container's flock, and AES-128-CBC
//! decryption of the body.

pub mod cipher;
pub mod container;
pub mod error;
pub mod header;
pub mod key;

pub use cipher::decrypt_data;
pub use container::decrypt_container;
pub use error::DecryptError;
pub use header::extract_header;
pub use key::generate_key;
