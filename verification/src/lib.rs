pub mod errors;
pub mod hexcodec;
pub mod keys;
pub mod totp;
pub mod uri;
pub mod vault;
