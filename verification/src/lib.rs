//! Client-side logic for OpenAI-compatible speech-to-text services: request
//! targets, default headers, PCM container encoding, form fields and the
//! interpretation of responses.

pub mod client;
pub mod endpoint;
pub mod error;
pub mod form;
pub mod headers;
pub mod json;
pub mod multipart;
pub mod provider;
pub mod request;
pub mod response;
pub mod text;
pub mod wav;
