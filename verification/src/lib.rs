//! Rules of a sync mount: how an encrypted folder and its decrypted view are
//! named, compared, journaled and reconciled.

pub mod change_laws;
pub mod config;
pub mod conflicts;
pub mod copy_laws;
pub mod course;
pub mod course_laws;
pub mod data_laws;
pub mod decrypt;
pub mod decrypt_laws;
pub mod deletion;
pub mod deletion_laws;
pub mod digest;
pub mod directories;
pub mod directory_laws;
pub mod encrypt;
pub mod errors;
pub mod exclusion;
pub mod header;
pub mod held;
pub mod held_laws;
pub mod journal;
pub mod local_only;
pub mod missing;
pub mod missing_laws;
pub mod name_laws;
pub mod names;
pub mod note_laws;
pub mod open_laws;
pub mod open_unlinked;
pub mod orphans;
pub mod path;
pub mod path_laws;
pub mod path_order;
pub mod pending;
pub mod preview;
pub mod queue_laws;
pub mod reconcile;
pub mod records;
pub mod resolution;
pub mod resolution_laws;
pub mod retention;
pub mod room_laws;
pub mod round;
pub mod rule_laws;
pub mod run;
pub mod runner;
pub mod safety;
pub mod scan;
pub mod scan_laws;
pub mod settings;
pub mod sorting;
pub mod space;
pub mod sparse;
pub mod staging;
pub mod start_laws;
pub mod status;
pub mod status_laws;
pub mod sync;
pub mod table;
pub mod text;
pub mod trace_laws;
pub mod tracker;
pub mod writeback;
