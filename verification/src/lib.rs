//! Structural model of a Bevy application, kept in step with source text.

pub mod bevy_model_template;
pub mod generate;
pub mod history;
pub mod model;
pub mod parse;
pub mod scope;
pub mod syntax;
pub mod templates;
pub mod text;
