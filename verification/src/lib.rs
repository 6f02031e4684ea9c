//! Codecs between the wire form of a field (an integer tag, a byte buffer,
//! a 64-bit word) and its textual form (a token, Base58 or Base64 text).

pub mod base58;
pub mod base64;
pub mod base64_url;
pub mod error;
pub mod origin;
pub mod reward_type;
pub mod table;
pub mod text;
pub mod u64_base64;
