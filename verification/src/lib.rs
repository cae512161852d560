//! A terminal greeter: counts packages and pending updates across package
//! managers and lays the gathered facts out in a fixed-width box.

pub mod assembly;
pub mod clock;
pub mod facts;
pub mod failure;
pub mod layout;
pub mod multiplexer;
pub mod parser;
pub mod registry;
pub mod segment;
pub mod text;
pub mod weather;
