pub mod config;
pub mod domain;
pub mod error;
pub mod identify;
pub mod language;
pub mod listing;
pub mod paths;
pub mod selection;
pub mod text;
pub mod tmdb;
pub mod workflow;
