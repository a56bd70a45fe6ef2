//! Core of a schema-migration tool: layered connection settings, migration
//! records and their builder, and the decisions a database adaptor makes when
//! it applies or rolls back one migration inside a transaction.

pub mod adaptor;
pub mod error;
pub mod migration;
pub mod params;
pub mod transaction;
