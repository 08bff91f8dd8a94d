//! Client-side logic for a parcel-tracking API: building the request URL,
//! classifying the HTTP status of the answer, decoding the response
//! envelope, and rendering checkpoints for display.

pub mod data;
pub mod errors;
pub mod json;
pub mod numfmt;
pub mod render;
pub mod request;
pub mod response;
