//! A to-do list: rows with a title and a completed flag, held in an observable
//! model, with the two operations a view asks for: add an item by its text and
//! remove every completed item.

pub mod compact;
pub mod list;
pub mod model;
pub mod record;
