//! Background ingestion engine of a social-media archive: a generic work
//! scheduler, the cursor-based deduplicating page scan, the asset download
//! protocol and the debounced event buffer, together with the data model
//! they operate on.

pub mod api_models;
pub mod asset;
pub mod auth;
pub mod authcookie;
pub mod authentication;
pub mod card;
pub mod content;
pub mod credentials;
pub mod cursored_data;
pub mod db_models;
pub mod emitter;
pub mod entities;
pub mod feature;
pub mod filter;
pub mod handler;
pub mod handler_laws;
pub mod headers;
pub mod ingest;
pub mod ingest_laws;
pub mod job;
pub mod json;
pub mod json_path;
pub mod like;
pub mod likes_scan;
pub mod load;
pub mod media;
pub mod media_api;
pub mod meta;
pub mod models;
pub mod numbers;
pub mod param_builder;
pub mod platform;
pub mod post;
pub mod post_api;
pub mod record;
pub mod requests;
pub mod scheduler;
pub mod scheduler_laws;
pub mod seqs;
pub mod serialize;
pub mod table;
pub mod task;
pub mod text;
pub mod userkv;
pub mod users;
