//! Origin-aware audio dub stripping: the decision logic of `dubstrip`,
//! verified with Verus.

pub mod ai;
pub mod config;
pub mod decide;
pub mod gemini;
pub mod json;
pub mod notify;
pub mod omdb;
pub mod paths;
pub mod pattern;
pub mod plan;
pub mod probe;
pub mod remux;
pub mod safety;
pub mod text;
pub mod ui;
pub mod wikipedia;
