//! Presentation-model core of a desktop RSS feed reader.
//!
//! The library holds the data the user interface displays (feeds, folders,
//! entries, preview content) and the decisions the interface makes (which
//! entries a page shows, which placeholder stands in for a missing field,
//! how the editor windows react to clicks), each with a verified contract.
//! Rendering itself is left to the surrounding application.

pub mod ids;
pub mod model;
pub mod preview;
pub mod view;
pub mod windows;
