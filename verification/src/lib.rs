//! Settings, stage planning and event handling for the Gaussian Splat Studio
//! reconstruction workflow.

pub mod config;
pub mod jobs;
pub mod models;
pub mod paths;
pub mod project;
pub mod pipeline;
pub mod runner;
pub mod runtime;
pub mod system;
pub mod text;
