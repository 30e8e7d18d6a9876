//! Verified core of an image upload service: authentication of uploads,
//! classification of uploaded files, configuration, conversion pipeline
//! bookkeeping and the decisions behind each HTTP route.
pub mod text;
pub mod token;
pub mod api_key;
pub mod upload;
pub mod config;
pub mod paths;
pub mod convert;
pub mod routes;
pub mod collector;
pub mod legacy;
