//! Progress summaries of Celeste save files.
//!
//! A save file is an XML document. [`reader::generate_summary`] walks its
//! events once and hands back a [`progress::Summary`]; [`discovery`] names the
//! places where the game keeps its saves.

pub mod text;
pub mod discovery;
pub mod progress;
pub mod event;
pub mod model;
pub mod steps;
pub mod fields;
pub mod extractor;
pub mod reader;
pub mod laws;

pub use discovery::load_saves;
pub use progress::{AreaData, AreaMode, Celeste, Summary};
pub use reader::{generate_summary, Error};
