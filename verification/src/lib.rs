//! Core of a small real-time rendering demo: the shader compile/link
//! pipeline, the typed resource-handle registry, and the entity-resource
//! binding table that the per-frame loop walks to push transforms and issue
//! draws. Driver calls themselves (compile, link, uniform queries) are made
//! by the embedding program; this crate holds the decisions around them:
//! which replies produce handles, which produce errors, and the invariants
//! of the registry and the binding table.

pub mod binding;
pub mod component;
pub mod config;
pub mod keymap;
pub mod pipeline;
pub mod texture;
pub mod uniform;
