//! Core logic of a desktop reading-tracker shell: the greeting command the
//! backend exposes to the UI layer, and the registry of SQL schema migrations
//! for the local database together with the ordering invariants expected of
//! migration version numbers.

pub mod greeting;
pub mod migrations;
