//! Encrypted, length-prefixed file transfer: the cipher envelope, the frame
//! codec with its acknowledgement, the client/server exchanges and the
//! chunking rule that ends a transfer.

pub mod chunking;
pub mod client;
pub mod envelope;
pub mod error;
pub mod frame;
pub mod key;
pub mod wire;

pub use client::Client;
pub use envelope::{decrypt, encrypt, encrypt_with_iv};
pub use error::FileTransferError;
pub use key::get_password;
