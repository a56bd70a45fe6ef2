use crate::error::Error;
use std::path::PathBuf;
use vstd::prelude::*;

verus! {

/// std's `PathBuf`, carried through unopened as the TLS certificate path.
#[verifier::external_type_specification]
#[verifier::external_body]
pub struct ExPathBuf(PathBuf);

/// Relies on `PathBuf::clone`: the copy names the same path.
pub assume_specification[ <PathBuf as Clone>::clone ](p: &PathBuf) -> (r: PathBuf)
    ensures
        r == *p,
;

/// Port assumed when no source supplies one.
pub const DEFAULT_PORT: i32 = 5432;

/// Fully resolved settings for opening a database session.
#[derive(Debug, Clone)]
pub struct MysqlParams {
    pub user: String,
    pub password: Option<String>,
    pub host: String,
    pub database: String,
    pub port: i32,
    pub sslcert: Option<PathBuf>,
}

/// Settings as one source (environment, file, flags) supplies them; a field
/// that is `None` was not supplied by that source.
#[derive(Debug, Clone)]
pub struct RawMysqlParams {
    pub user: Option<String>,
    pub password: Option<String>,
    pub host: Option<String>,
    pub database: Option<String>,
    pub port: Option<i32>,
    pub sslcert: Option<PathBuf>,
}

/// The baseline source: nothing but the default port.
pub open spec fn baseline() -> RawMysqlParams {
    RawMysqlParams {
        user: None,
        password: None,
        host: None,
        database: None,
        port: Some(DEFAULT_PORT),
        sslcert: None,
    }
}

/// A field of a later source wins over the accumulated one when it is present.
pub open spec fn pick<T>(acc: Option<T>, later: Option<T>) -> Option<T> {
    if later is Some {
        later
    } else {
        acc
    }
}

/// `later` laid over `acc`, field by field.
pub open spec fn overlay(acc: RawMysqlParams, later: RawMysqlParams) -> RawMysqlParams {
    RawMysqlParams {
        user: pick(acc.user, later.user),
        password: pick(acc.password, later.password),
        host: pick(acc.host, later.host),
        database: pick(acc.database, later.database),
        port: pick(acc.port, later.port),
        sslcert: pick(acc.sslcert, later.sslcert),
    }
}

/// The sources folded left to right over the baseline: for each field the
/// last source that sets it wins.
pub open spec fn folded(sources: Seq<&RawMysqlParams>) -> RawMysqlParams
    decreases sources.len(),
{
    if sources.len() == 0 {
        baseline()
    } else {
        overlay(folded(sources.drop_last()), *sources.last())
    }
}

/// Whether every mandatory field (user, host, database, port) is present.
pub open spec fn complete(p: RawMysqlParams) -> bool {
    p.user is Some && p.host is Some && p.database is Some && p.port is Some
}

/// The validation pass over merged settings.
pub open spec fn resolved(p: RawMysqlParams) -> Result<MysqlParams, Error> {
    if complete(p) {
        Ok(
            MysqlParams {
                user: p.user->Some_0,
                password: p.password,
                host: p.host->Some_0,
                database: p.database->Some_0,
                port: p.port->Some_0,
                sslcert: p.sslcert,
            },
        )
    } else {
        Err(
            Error::MysqlParamError {
                user: p.user is Some,
                password: p.password is Some,
                database: p.database is Some,
                host: p.host is Some,
                port: p.port is Some,
            },
        )
    }
}

/// What merging the sources gives.
pub open spec fn merged(sources: Seq<&RawMysqlParams>) -> Result<MysqlParams, Error> {
    resolved(folded(sources))
}

/// Whether some source in the sequence supplies the user.
pub open spec fn some_user(sources: Seq<&RawMysqlParams>) -> bool {
    exists|i: int| 0 <= i < sources.len() && (#[trigger] sources[i]).user is Some
}

/// Whether some source in the sequence supplies the password.
pub open spec fn some_password(sources: Seq<&RawMysqlParams>) -> bool {
    exists|i: int| 0 <= i < sources.len() && (#[trigger] sources[i]).password is Some
}

/// Whether some source in the sequence supplies the host.
pub open spec fn some_host(sources: Seq<&RawMysqlParams>) -> bool {
    exists|i: int| 0 <= i < sources.len() && (#[trigger] sources[i]).host is Some
}

/// Whether some source in the sequence supplies the database.
pub open spec fn some_database(sources: Seq<&RawMysqlParams>) -> bool {
    exists|i: int| 0 <= i < sources.len() && (#[trigger] sources[i]).database is Some
}

/// A field is present after folding exactly when some source supplies it;
/// the port is always present, since the baseline supplies it.
pub proof fn lemma_folded_presence(sources: Seq<&RawMysqlParams>)
    ensures
        folded(sources).user is Some <==> some_user(sources),
        folded(sources).password is Some <==> some_password(sources),
        folded(sources).host is Some <==> some_host(sources),
        folded(sources).database is Some <==> some_database(sources),
        folded(sources).port is Some,
    decreases sources.len(),
{
    if sources.len() > 0 {
        let init = sources.drop_last();
        let n = sources.len() - 1;
        lemma_folded_presence(init);
        assert forall|i: int| 0 <= i < init.len() implies init[i] == sources[i] by {}
        if some_user(init) {
            let i = choose|i: int| 0 <= i < init.len() && (#[trigger] init[i]).user is Some;
            assert(sources[i].user is Some);
        }
        if some_password(init) {
            let i = choose|i: int| 0 <= i < init.len() && (#[trigger] init[i]).password is Some;
            assert(sources[i].password is Some);
        }
        if some_host(init) {
            let i = choose|i: int| 0 <= i < init.len() && (#[trigger] init[i]).host is Some;
            assert(sources[i].host is Some);
        }
        if some_database(init) {
            let i = choose|i: int| 0 <= i < init.len() && (#[trigger] init[i]).database is Some;
            assert(sources[i].database is Some);
        }
        assert(sources[n] == sources.last());
    }
}

/// A later source overrides an earlier one: when the override `b` sets the
/// host, the merged host is b's whatever `a` holds, and each field that `b`
/// leaves unset keeps the value that `a` (over the baseline) gives it.
pub proof fn lemma_merge_precedence(a: &RawMysqlParams, b: &RawMysqlParams)
    ensures
        b.host is Some ==> folded(seq![a, b]).host == b.host,
        b.host is Some && merged(seq![a, b]) is Ok ==> merged(seq![a, b])->Ok_0.host
            == b.host->Some_0,
        b.user is None ==> folded(seq![a, b]).user == folded(seq![a]).user,
        b.password is None ==> folded(seq![a, b]).password == folded(seq![a]).password,
        b.host is None ==> folded(seq![a, b]).host == folded(seq![a]).host,
        b.database is None ==> folded(seq![a, b]).database == folded(seq![a]).database,
        b.port is None ==> folded(seq![a, b]).port == folded(seq![a]).port,
        b.sslcert is None ==> folded(seq![a, b]).sslcert == folded(seq![a]).sslcert,
        folded(seq![a]) == overlay(baseline(), *a),
{
    assert(seq![a, b].drop_last() =~= seq![a]);
    assert(seq![a].drop_last() =~= Seq::<&RawMysqlParams>::empty());
    assert(folded(Seq::<&RawMysqlParams>::empty()) == baseline());
    assert(seq![a].last() == a);
    assert(folded(seq![a]) == overlay(folded(Seq::<&RawMysqlParams>::empty()), *a));
}

/// When no source supplies the database, merging fails with a parameter
/// error whose database flag is false and whose other flags are true exactly
/// for the fields that some source supplies (the port always, by the baseline).
pub proof fn lemma_missing_database(sources: Seq<&RawMysqlParams>)
    requires
        forall|i: int| 0 <= i < sources.len() ==> (#[trigger] sources[i]).database is None,
    ensures
        merged(sources) == Err::<MysqlParams, Error>(
            Error::MysqlParamError {
                user: some_user(sources),
                password: some_password(sources),
                database: false,
                host: some_host(sources),
                port: true,
            },
        ),
{
    lemma_folded_presence(sources);
}

fn pick_text(acc: Option<String>, later: &Option<String>) -> (r: Option<String>)
    ensures
        r == pick(acc, *later),
{
    match later {
        Some(s) => Some(s.clone()),
        None => acc,
    }
}

fn pick_path(acc: Option<PathBuf>, later: &Option<PathBuf>) -> (r: Option<PathBuf>)
    ensures
        r == pick(acc, *later),
{
    match later {
        Some(p) => Some(p.clone()),
        None => acc,
    }
}

fn overlay_source(acc: RawMysqlParams, later: &RawMysqlParams) -> (r: RawMysqlParams)
    ensures
        r == overlay(acc, *later),
{
    RawMysqlParams {
        user: pick_text(acc.user, &later.user),
        password: pick_text(acc.password, &later.password),
        host: pick_text(acc.host, &later.host),
        database: pick_text(acc.database, &later.database),
        port: match later.port {
            Some(p) => Some(p),
            None => acc.port,
        },
        sslcert: pick_path(acc.sslcert, &later.sslcert),
    }
}

impl MysqlParams {
    /// Merges the sources, lowest precedence first, over the baseline, then
    /// checks that user, host, database and port are all present. On failure
    /// the error tells for each field whether any source supplied it.
    pub fn try_from(value: &[&RawMysqlParams]) -> (r: Result<MysqlParams, Error>)
        ensures
            r == merged(value@),
    {
        let mut acc = RawMysqlParams::default();
        let mut i: usize = 0;
        while i < value.len()
            invariant
                i <= value.len(),
                acc == folded(value@.subrange(0, i as int)),
            decreases value.len() - i,
        {
            proof {
                assert(value@.subrange(0, i + 1).drop_last() =~= value@.subrange(0, i as int));
            }
            acc = overlay_source(acc, value[i]);
            i += 1;
        }
        proof {
            assert(value@.subrange(0, value@.len() as int) =~= value@);
        }
        match acc {
            RawMysqlParams {
                user: Some(user),
                password,
                database: Some(database),
                host: Some(host),
                port: Some(port),
                sslcert,
            } => Ok(MysqlParams { user, password, host, database, port, sslcert }),
            p => Err(
                Error::MysqlParamError {
                    user: p.user.is_some(),
                    password: p.password.is_some(),
                    database: p.database.is_some(),
                    host: p.host.is_some(),
                    port: p.port.is_some(),
                },
            ),
        }
    }
}

impl RawMysqlParams {
    /// Whether this source supplies any of user, password, host, database or port.
    pub fn is_any(&self) -> (r: bool)
        ensures
            r == (self.user is Some || self.password is Some || self.host is Some
                || self.database is Some || self.port is Some),
    {
        self.user.is_some() || self.password.is_some() || self.host.is_some()
            || self.database.is_some() || self.port.is_some()
    }
}

impl Default for RawMysqlParams {
    /// The baseline source.
    fn default() -> (r: Self)
        ensures
            r == baseline(),
    {
        RawMysqlParams {
            user: None,
            password: None,
            host: None,
            database: None,
            port: Some(DEFAULT_PORT),
            sslcert: None,
        }
    }
}

} // verus!
