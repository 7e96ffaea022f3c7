pub mod address;
pub mod error;
pub mod state;
pub mod processor;
pub mod laws;
pub mod instruction;
pub mod layout;
