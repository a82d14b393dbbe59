pub mod column;
pub mod command;
pub mod context;
pub mod error;
pub mod execute;
pub mod layout;
pub mod listing;
pub mod number;
pub mod round_trip;
pub mod runnable;
pub mod selection;
pub mod tab;
pub mod tab_operations;
pub mod text;
pub mod worker;
