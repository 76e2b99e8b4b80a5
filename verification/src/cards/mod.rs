//! The decisions the tool and Mind cards make about what to say and what to do, apart from how
//! they are drawn.

pub mod actions;
pub mod agents;
pub mod attention;
pub mod diff;
pub mod disclosure;
pub mod editor;
pub mod file_manager;
pub mod forms;
pub mod insight;
pub mod inspector;
pub mod journal_feed;
pub mod learning;
pub mod listings;
pub mod mind;
pub mod operations;
pub mod outline;
pub mod security;
pub mod telemetry;
