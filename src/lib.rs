//! An Invidious-compatible gateway over the Innertube API: the decisions and
//! text transformations of the gateway, each with a checked contract.

pub mod text;
pub mod links;
pub mod outside;
pub mod streams;
pub mod settings;
pub mod cache;
pub mod script;
pub mod json;
pub mod projection;
pub mod routes;
pub mod playlist;
pub mod stats;
pub mod local;
pub mod assets;
pub mod resolver;
