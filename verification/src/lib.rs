//! Versioned-configuration migration chains.
//!
//! Stored configuration is kept as a dynamically-typed document tagged with
//! an integer schema version. A chain of version-gated steps upgrades such a
//! document to the current schema shape, and the final document is converted
//! leniently into a typed value, falling back to the schema's default when
//! the document does not fit.

pub mod doc;
pub mod laws;
pub mod migration;
pub mod schema;

pub use doc::Doc;
pub use doc::Val;
pub use migration::Migration;
pub use migration::MigrationError;
pub use migration::SchemaStep;
pub use migration::Transform;
pub use migration::chain_from;
pub use migration::do_migrate;
pub use migration::run_migrations;
pub use schema::Schema;
pub use schema::Typed;
pub use schema::Versioned;
