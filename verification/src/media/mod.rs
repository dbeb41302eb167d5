//! System media: player classification, session selection, activity
//! tracking, control decisions, metadata loading and artwork.
pub mod model;
pub mod selection;
pub mod activity;
pub mod artwork;
pub mod control;
pub mod runtime;
