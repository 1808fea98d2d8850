//! A verified fetch-validate-persist pipeline for thumbnail-linked image
//! attachments: extracting candidate resource links from a markup document,
//! gating each resource on its declared and actual size, validating the
//! payload bytes as a structurally recognizable image, and composing the
//! output filename for each accepted payload.

pub mod config;
pub mod html;
pub mod image;
pub mod links;
pub mod matcher;
pub mod numeric;
pub mod pipeline;
