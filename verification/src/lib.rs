//! In-memory entity store for campaign records (districts, persons, factions)
//! with stable handles, a reversible command engine and an undo queue.

pub mod action;
pub mod app;
pub mod app_data;
pub mod app_display;
pub mod app_settings;
pub mod arena_proofs;
pub mod child_windows;
pub mod clock;
pub mod district;
pub mod dots;
pub mod faction;
pub mod independence;
pub mod links;
pub mod loading;
pub mod managed_list;
mod name_index;
pub mod names;
pub mod person;
pub mod ref_list;
pub mod relationship;
pub mod save_data;
pub mod save_file;
pub mod sorting;
pub mod string_list;
pub mod tables;
pub mod tier;
pub mod todo;
pub mod undo_proofs;
