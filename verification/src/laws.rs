//! What the operations of the library are for: relations between what goes in and
//! what comes out, said apart from the functions that work the results out.
pub mod agreements;
pub mod control;
pub mod credentials;
pub mod displays;
pub mod entry;
pub mod keyboard;
pub mod launching;
pub mod measures;
pub mod messages;
pub mod numerals;
pub mod pipelines;
pub mod pointer;
pub mod sessions;
pub mod settings;
pub mod surfaces;
pub mod wording;
