pub mod api;
pub mod args;
pub mod body;
pub mod error;
pub mod flow;
pub mod json;
pub mod media;
pub mod model;
pub mod poll;
pub mod pricing;
pub mod secret;
pub mod text;
pub mod upload;
