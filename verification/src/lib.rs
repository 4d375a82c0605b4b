//! The decisions of the `ab-av1` encoder front end: how a worker talks to its
//! coordinator, how an encode is checked, run and reported, and where its
//! files go.
pub mod command;
pub mod delay;
pub mod json;
pub mod path;
pub mod temporary;
pub mod text;
