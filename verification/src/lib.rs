//! Plain-language accounts of the steps a sudoku solver took.
//!
//! A solver hands over what it did as a list of steps, each naming a
//! technique, the cells and areas it looked at and the values it settled or
//! struck out. This library turns such a list into a short text in a light
//! markup, with a link to an explanation of each technique.

pub mod decimal;
pub mod model;
pub mod names;
pub mod listing;
pub mod steps;
pub mod laws;
