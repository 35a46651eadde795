//! The git dashboard.

pub mod answers;
pub mod diff;
pub mod effects;
pub mod first_commit;
pub mod input;
pub mod jobs;
pub mod layout;
pub mod line;
pub mod operations;
pub mod panel;
pub mod pressing;
pub mod printed;
pub mod render;
pub mod repository;
pub mod setup;
pub mod shown;
pub mod view;
