//! Authentication lifecycle and upload pipeline for sending local office
//! files to a cloud document store, with every decision stated and proved.

pub mod text;
pub mod file_type;
pub mod decimal;
pub mod keychain;
pub mod pkce;
pub mod encoding;
pub mod auth;
pub mod upload;
pub mod drive;
pub mod oauth_config;
pub mod fileassoc;
pub mod storage;
pub mod failure;
