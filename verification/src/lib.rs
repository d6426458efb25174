//! State, reducers and view models of a small single-page application: a
//! counter with two buttons, a table of books loaded from a REST endpoint,
//! and the route table that picks the page to show.
//!
//! Every component is a value with a reducer, `update`, that takes a message
//! and says whether the page needs rendering again, and a `view` that turns
//! the state into the texts to display. Scheduling, network access and markup
//! belong to the host application.

pub mod book;
pub mod counter;
pub mod date;
pub mod fetch;
pub mod markup;
pub mod route;
pub mod text;
