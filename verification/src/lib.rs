pub mod decimal;
pub mod error;
pub mod exchange;
pub mod payload;
pub mod worknode;
