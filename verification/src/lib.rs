pub mod catalog;
pub mod config;
pub mod connections;
pub mod connstr;
pub mod error;
pub mod execute;
pub mod history;
pub mod ids;
pub mod json;
pub mod pool;
pub mod settings;
pub mod strutil;
