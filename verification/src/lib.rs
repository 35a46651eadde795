//! Terminal interface logic of a coding agent.

pub mod actions;
pub mod active;
pub mod assigning;
pub mod bar_editor;
pub mod busy;
pub mod changes;
pub mod clipboard;
pub mod completion;
pub mod config;
pub mod connecting;
pub mod connection;
pub mod copying;
pub mod dashboard;
pub mod drawn;
pub mod driver;
pub mod editor;
pub mod endings;
pub mod events;
pub mod facts;
pub mod files;
pub mod frame;
pub mod git;
pub mod goals;
pub mod highlight;
pub mod keyboard;
pub mod markdown;
pub mod model;
pub mod navigation;
pub mod offered;
pub mod order;
pub mod outcomes;
pub mod picker;
pub mod places;
pub mod questions;
pub mod queue;
pub mod reported;
pub mod rows;
pub mod screen;
pub mod sessions;
pub mod settings;
pub mod state;
pub mod style;
pub mod submission;
pub mod summary;
pub mod tables;
pub mod tags;
pub mod text;
pub mod typing;
