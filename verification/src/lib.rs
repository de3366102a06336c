//! Core of an extensible request-serving host: discovery classification for
//! candidate plugin files, selection of the one loadable module inside an
//! extracted bundle, a registry that enforces name and scope uniqueness and
//! assigns contiguous identifiers in load order, introspection documents
//! over the registered plugins, and the composition plan the serving surface
//! registers its routes from. The filesystem, archive and dynamic-loader
//! calls around these decisions live with the host program, which hands this
//! library plain values.

pub mod contract;
pub mod discover;
pub mod errors;
pub mod json;
pub mod laws;
pub mod manager;
pub mod registry;
pub mod text;
