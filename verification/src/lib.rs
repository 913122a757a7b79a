pub mod api;
pub mod clock;
pub mod config;
pub mod database;
pub mod entity;
pub mod error;
pub mod etag;
pub mod headers;
pub mod history;
pub mod json;
pub mod laws;
pub mod memory;
pub mod outcomes;
pub mod postgres;
pub mod reply;
pub mod requests;
pub mod steps;
pub mod storage;
pub mod text;
pub mod views;
