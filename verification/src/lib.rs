//! Core of a dotfile theming utility: color values with hex parsing and
//! transforms, a structured value model for parsed documents, a theme model,
//! a variable merge layer with defined precedence, and a template-rendering
//! front end with a stable, renderer-owned error shape.
pub mod cli;
pub mod colors;
pub mod colorscheme;
pub mod config;
pub mod context;
pub mod directories;
pub mod files;
pub mod hook;
pub mod parser;
pub mod paths;
pub mod renderer;
pub mod strutil;
pub mod template;
pub mod theme;
pub mod value;
pub mod yaml_parser;

pub use colors::Color;
pub use colors::ColorError;
pub use value::Val;
