//! Authenticated encryption for cookie values: a private child jar seals the
//! value of every cookie added to it (random nonce, AES-256-GCM, base64) and
//! unseals, verifies and decodes the values it hands back out.

pub mod codec;
pub mod jar;
pub mod private;
pub mod seal;
