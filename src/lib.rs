//! A small verified algebra of fallible computation: optional values, outcomes,
//! a layered error taxonomy and policies for collecting many outcomes into one.

pub mod parse;
pub mod taxonomy;
pub mod options;
pub mod text;
pub mod collect;
pub mod results;
pub mod basics;
