//! Client-side logic for a text-analytics REST service: typed resource
//! models, retry policy, cursor pagination and batched uploading.

pub mod audit;
pub mod bucket;
pub mod comment;
pub mod dataset;
pub mod email;
pub mod error;
pub mod integration;
pub mod json;
pub mod label;
pub mod pagination;
pub mod pool;
pub mod project;
pub mod property;
pub mod retry;
pub mod source;
pub mod statistics;
pub mod text;
pub mod time;
pub mod uploader;
pub mod user;
