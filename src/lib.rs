//! A staged mirror of a persisted settings catalog: a snapshot that holds one typed
//! field per catalog key, built from the catalog's defaults or from the store, and
//! committed back as one all-or-nothing transaction.

pub mod catalog;
pub mod value;
pub mod table;
pub mod settings;
pub mod save;
