use vstd::prelude::*;

verus! {

/// Why a compound migration name could not be split into its parts.
#[derive(Debug, Clone, Copy, PartialEq, Eq, Structural)]
pub enum NameFault {
    /// No compound name was given to the builder.
    Missing,
    /// The name holds no `_` between the ordering prefix and the name.
    NoSeparator,
    /// The ordering prefix is empty or holds something other than digits and `-`.
    BadPrefix,
    /// Nothing follows the separator.
    EmptyName,
}

/// Every failure the library reports.
#[derive(Debug)]
pub enum Error {
    /// Mandatory connection fields are unresolved after merging all sources.
    /// Each flag tells whether that field was supplied.
    MysqlParamError { user: bool, password: bool, database: bool, host: bool, port: bool },
    /// A migration lacks a field that the requested operation needs.
    BadMigration,
    /// A compound migration name does not have the expected shape.
    MigrationParseError(NameFault),
    /// The database session reported a failure; the text is its message.
    DatabaseError(String),
}

} // verus!
