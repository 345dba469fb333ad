//! Verified core of a PlantUML rendering service: format selection, the
//! decoder for PlantUML's URL-safe text encoding, and the rules that turn an
//! engine run into a reply.

pub mod config;
pub mod encoding;
pub mod error;
pub mod plantuml;
pub mod routes;
pub mod text;
