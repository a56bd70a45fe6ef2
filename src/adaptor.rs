use crate::error::{Error, NameFault};
use crate::migration::{built, parse_compound, Migration, MigrationBuilder, MigrationBuilderView, MigrationView};
use vstd::prelude::*;

verus! {

/// Creates the history table.
pub const INIT_UP_SQL: &'static str = "\
CREATE TABLE movine_migrations (
    id INTEGER PRIMARY KEY AUTO_INCREMENT,
    created_at TIMESTAMP DEFAULT CURRENT_TIMESTAMP,
    updated_at TIMESTAMP DEFAULT CURRENT_TIMESTAMP,
    name TEXT NOT NULL,
    hash TEXT NOT NULL,
    down_sql TEXT
);
";

/// Drops the history table.
pub const INIT_DOWN_SQL: &'static str = "\
DROP TABLE movine_migrations;
";

/// Reads the history, most recently applied first.
pub const LOAD_MIGRATIONS: &'static str = "\
SELECT name, hash, down_sql
FROM movine_migrations
ORDER BY created_at DESC;
";

/// Records an applied migration: compound name, hash, down SQL.
pub const LOG_UP_MIGRATION: &'static str = "\
INSERT INTO movine_migrations (name, hash, down_sql)
VALUES (?, ?, ?);
";

/// Forgets a rolled-back migration by its compound name.
pub const LOG_DOWN_MIGRATION: &'static str = "\
DELETE FROM movine_migrations
WHERE name = ?;
";

/// One statement that an adaptor sends to its session.
#[derive(Debug)]
pub enum Statement {
    /// Text sent as it is, with no parameters.
    Query(String),
    /// A prepared statement and the parameters bound to it, in order.
    Exec(String, Vec<String>),
}

/// A statement as mathematical values.
pub enum StatementView {
    Query(Seq<char>),
    Exec(Seq<char>, Seq<Seq<char>>),
}

/// The texts of a sequence of strings.
pub open spec fn texts_of(v: Seq<String>) -> Seq<Seq<char>> {
    v.map_values(|s: String| s@)
}

impl View for Statement {
    type V = StatementView;

    open spec fn view(&self) -> StatementView {
        match self {
            Statement::Query(q) => StatementView::Query(q@),
            Statement::Exec(q, p) => StatementView::Exec(q@, texts_of(p@)),
        }
    }
}

/// The views of a sequence of statements.
pub open spec fn statements_view(v: Seq<Statement>) -> Seq<StatementView> {
    v.map_values(|s: Statement| s@)
}

/// The down SQL recorded in history: the empty text when there is none.
pub open spec fn recorded_down(down_sql: Option<Seq<char>>) -> Seq<char> {
    match down_sql {
        Some(d) => d,
        None => Seq::empty(),
    }
}

/// The statements that apply a migration inside one transaction: its up SQL,
/// then the history row (compound name, hash, down SQL). A migration without
/// up SQL or hash is refused before any statement exists.
pub open spec fn up_plan(m: MigrationView) -> Result<Seq<StatementView>, Error> {
    match (m.up_sql, m.hash) {
        (Some(up), Some(hash)) => Ok(
            seq![
                StatementView::Query(up),
                StatementView::Exec(
                    LOG_UP_MIGRATION@,
                    seq![m.compound_name, hash, recorded_down(m.down_sql)],
                ),
            ],
        ),
        _ => Err(Error::BadMigration),
    }
}

/// The statements that roll a migration back inside one transaction: its down
/// SQL (which may be empty), then the removal of its history row. A migration
/// without down SQL is refused before any statement exists.
pub open spec fn down_plan(m: MigrationView) -> Result<Seq<StatementView>, Error> {
    match m.down_sql {
        Some(down) => Ok(
            seq![
                StatementView::Query(down),
                StatementView::Exec(LOG_DOWN_MIGRATION@, seq![m.compound_name]),
            ],
        ),
        None => Err(Error::BadMigration),
    }
}

/// Checks that `migration` can be applied and gives the statements that apply it.
pub fn up_statements(migration: &Migration) -> (r: Result<Vec<Statement>, Error>)
    ensures
        match r {
            Ok(v) => up_plan(migration@) == Ok::<Seq<StatementView>, Error>(statements_view(v@)),
            Err(e) => up_plan(migration@) == Err::<Seq<StatementView>, Error>(e),
        },
{
    let hash = match migration.hash() {
        Some(h) => h,
        None => {
            return Err(Error::BadMigration);
        },
    };
    let up_sql = match migration.up_sql() {
        Some(u) => u,
        None => {
            return Err(Error::BadMigration);
        },
    };
    let down_sql = match migration.down_sql() {
        Some(d) => d.clone(),
        None => String::new(),
    };
    let mut params: Vec<String> = Vec::new();
    params.push(migration.compound_name().clone());
    params.push(hash.clone());
    params.push(down_sql);
    let mut v: Vec<Statement> = Vec::new();
    v.push(Statement::Query(up_sql.clone()));
    v.push(Statement::Exec(LOG_UP_MIGRATION.to_owned(), params));
    proof {
        assert(texts_of(params@) =~= seq![
            migration@.compound_name,
            migration@.hash->Some_0,
            recorded_down(migration@.down_sql),
        ]);
        assert(statements_view(v@) =~= up_plan(migration@)->Ok_0);
    }
    Ok(v)
}

/// Checks that `migration` can be rolled back and gives the statements that do it.
pub fn down_statements(migration: &Migration) -> (r: Result<Vec<Statement>, Error>)
    ensures
        match r {
            Ok(v) => down_plan(migration@) == Ok::<Seq<StatementView>, Error>(statements_view(v@)),
            Err(e) => down_plan(migration@) == Err::<Seq<StatementView>, Error>(e),
        },
{
    let down_sql = match migration.down_sql() {
        Some(d) => d,
        None => {
            return Err(Error::BadMigration);
        },
    };
    let mut params: Vec<String> = Vec::new();
    params.push(migration.compound_name().clone());
    let mut v: Vec<Statement> = Vec::new();
    v.push(Statement::Query(down_sql.clone()));
    v.push(Statement::Exec(LOG_DOWN_MIGRATION.to_owned(), params));
    proof {
        assert(texts_of(params@) =~= seq![migration@.compound_name]);
        assert(statements_view(v@) =~= down_plan(migration@)->Ok_0);
    }
    Ok(v)
}

/// What the builder holds for one history row (compound name, hash, down SQL).
pub open spec fn row_builder(name: Seq<char>, hash: Seq<char>, down_sql: Seq<char>) -> MigrationBuilderView {
    MigrationBuilderView {
        compound_name: Some(name),
        hash: Some(hash),
        up_sql: None,
        down_sql: Some(down_sql),
    }
}

/// The migration that one history row stands for.
pub open spec fn row_migration(row: (String, String, String)) -> Result<MigrationView, Error> {
    built(row_builder(row.0@, row.1@, row.2@))
}

/// Turns history rows, as the history query returns them, into migrations in
/// the same order. Fails with the error of the first row whose name does not
/// parse.
pub fn migrations_from_rows(rows: &Vec<(String, String, String)>) -> (r: Result<Vec<Migration>, Error>)
    ensures
        match r {
            Ok(ms) => {
                &&& ms.len() == rows.len()
                &&& forall|i: int|
                    0 <= i < rows.len() ==> row_migration(#[trigger] rows@[i])
                        == Ok::<MigrationView, Error>(ms@[i]@)
            },
            Err(e) => exists|i: int|
                0 <= i < rows.len() && row_migration(#[trigger] rows@[i]) == Err::<
                    MigrationView,
                    Error,
                >(e) && forall|j: int| 0 <= j < i ==> (#[trigger] row_migration(rows@[j])) is Ok,
        },
{
    let mut migrations: Vec<Migration> = Vec::new();
    let mut i: usize = 0;
    while i < rows.len()
        invariant
            i <= rows.len(),
            migrations.len() == i,
            forall|j: int|
                0 <= j < i ==> row_migration(#[trigger] rows@[j]) == Ok::<MigrationView, Error>(
                    migrations@[j]@,
                ),
        decreases rows.len() - i,
    {
        let row = &rows[i];
        let migration = MigrationBuilder::new().compound_name(row.0.as_str()).hash(
            row.1.as_str(),
        ).down_sql(row.2.as_str()).build();
        match migration {
            Ok(m) => {
                migrations.push(m);
            },
            Err(e) => {
                assert(row_migration(rows@[i as int]) == Err::<MigrationView, Error>(e));
                return Err(e);
            },
        }
        i += 1;
    }
    Ok(migrations)
}

/// Round trip through the history: applying a well-named migration with up
/// SQL and hash writes the row (compound name, hash, down SQL or empty);
/// loading that row gives the same migration without up SQL and with that down
/// SQL; rolling the loaded one back deletes by the same compound name.
pub proof fn lemma_history_round_trip(m: MigrationView)
    requires
        parse_compound(m.compound_name) == Ok::<Seq<char>, NameFault>(m.name),
        m.up_sql is Some,
        m.hash is Some,
    ensures
        up_plan(m) == Ok::<Seq<StatementView>, Error>(
            seq![
                StatementView::Query(m.up_sql->Some_0),
                StatementView::Exec(
                    LOG_UP_MIGRATION@,
                    seq![m.compound_name, m.hash->Some_0, recorded_down(m.down_sql)],
                ),
            ],
        ),
        built(row_builder(m.compound_name, m.hash->Some_0, recorded_down(m.down_sql))) == Ok::<
            MigrationView,
            Error,
        >(
            MigrationView {
                name: m.name,
                compound_name: m.compound_name,
                hash: m.hash,
                up_sql: None,
                down_sql: Some(recorded_down(m.down_sql)),
            },
        ),
        down_plan(
            MigrationView {
                name: m.name,
                compound_name: m.compound_name,
                hash: m.hash,
                up_sql: None,
                down_sql: Some(recorded_down(m.down_sql)),
            },
        ) == Ok::<Seq<StatementView>, Error>(
            seq![
                StatementView::Query(recorded_down(m.down_sql)),
                StatementView::Exec(LOG_DOWN_MIGRATION@, seq![m.compound_name]),
            ],
        ),
{
}

} // verus!
