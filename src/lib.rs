pub mod command;
pub mod encoder;
pub mod processor;
pub mod store;
