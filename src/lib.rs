//! Rotates secret values held in a password vault: matches new credentials to
//! vault items, picks the field to overwrite and writes the updated item.
pub mod json;
pub mod matcher;
pub mod selector;
pub mod session;
pub mod templates;
pub mod text;
pub mod updater;
