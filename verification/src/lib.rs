//! AES-128 from first principles: constant tables, GF(2^8) arithmetic, the
//! key schedule, the forward and inverse block transforms, and the message
//! framing that sits on top of them.

pub mod block;
pub mod cipher;
pub mod diffusion;
pub mod error;
pub mod framing;
pub mod galois;
pub mod message;
pub mod schedule;
pub mod tables;
pub mod trusted;

pub use cipher::AESteve;
pub use error::AESError;
