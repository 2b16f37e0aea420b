pub mod db;
pub mod errors;
pub mod handlers;
pub mod json;
pub mod models;
pub mod rows;
pub mod sql;
pub mod store;
