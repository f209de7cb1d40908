//! A small library for a local image-tagging tool: it keeps the tool's
//! configuration, parses class lists, picks a random image from a directory
//! listing, builds the page view model, and models the move of a tagged file
//! from the image directory into the dataset's class directory.

pub mod config;
pub mod greet;
pub mod page;
pub mod paths;
pub mod text;
pub mod workspace;
