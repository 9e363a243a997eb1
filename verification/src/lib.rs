//! Access and rendering gateway for a paste-hosting service.
//!
//! A paste is a stored text document, optionally protected by a view
//! password. The modules here hold the decision logic that sits between an
//! inbound request and the surrounding collaborators (the paste store and
//! the markdown renderer): the access policy evaluator, the three gateway
//! flows (view, edit, edit-config), the metadata encoder, and the markdown
//! rendering boundary.

pub mod gateway;
pub mod json;
pub mod model;
pub mod policy;
pub mod render;
