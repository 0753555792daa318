//! Verified core of an image ingestion service: batch upload of images from
//! multipart byte streams or remote URLs, persisted under generated names with
//! derived square thumbnails.

pub mod batch;
pub mod guards;
pub mod ids;
pub mod ingest;
pub mod media;
pub mod paths;
pub mod text;
pub mod thumb;
pub mod unit;
