//! Cross-runtime component bridge.
//!
//! A host game engine delegates entity simulation to an embedded
//! entity-component-system engine.  The two runtimes must agree
//! byte-for-byte on how component data is laid out when it crosses the
//! boundary.  This crate holds the pieces that make that agreement: the
//! declarative [`schema`] of every type that crosses the boundary, the
//! byte [`layout`] each declaration induces, the [`tags`] the schema
//! compiler assigns together with its dispatch table, the mirror
//! [`codegen`] that emits host-side sources with the same layout, the
//! builtin components of [`inbuilt`], the tagged-record wire [`protocol`],
//! the entity store model of [`world`], the runtime [`bridge`] that drives
//! entity creation, per-step synchronization and teardown, and the
//! [`sample`] project's declarations.

pub mod bridge;
pub mod codegen;
pub mod inbuilt;
pub mod layout;
pub mod protocol;
pub mod sample;
pub mod schema;
pub mod tags;
pub mod text;
pub mod world;
