pub mod error;
pub mod text;
pub mod event;
pub mod reply;
pub mod clock;
pub mod report;
pub mod store;
pub mod fsm;
pub mod user_data;
pub mod config;
pub mod query;
pub mod telecom;
