//! Permission-checked, multi-stage action pipelines for a social-network server.

pub mod db;
pub mod forms;
pub mod models;
pub mod pipeline;
pub mod routes;
pub mod storage;
