pub mod capture;
pub mod channel;
pub mod config;
pub mod errors;
pub mod sample;
pub mod sink;
pub mod track;
