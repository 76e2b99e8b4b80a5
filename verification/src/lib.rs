//! The verified core of the living canvas desktop.

pub mod ansi;
pub mod applications;
pub mod card;
pub mod cards;
pub mod sign_in;
pub mod text;
