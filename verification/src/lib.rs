//! Storage locations of the cockpit desktop application: where its data lives,
//! how a custom location is chosen, and how a move of that data is planned.

pub mod text;
pub mod error;
pub mod path;
pub mod platform;
pub mod storage_paths;
pub mod instances;
pub mod ordering;
pub mod storage_manager;
pub mod laws;
