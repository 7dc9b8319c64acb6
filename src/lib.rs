//! A Vigenère transcoder: a cipher engine over a fixed 26-letter Latin
//! alphabet, a key normalizer, the encode/decode mode, and the controller
//! that keeps a plaintext buffer and a ciphertext buffer consistent.
pub mod text;
pub mod cipher;
pub mod key;
pub mod mode;
pub mod sync;
