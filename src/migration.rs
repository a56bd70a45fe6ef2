use crate::error::{Error, NameFault};
use vstd::prelude::*;
use vstd::string::*;

verus! {

/// A character allowed in the ordering prefix of a compound name.
pub open spec fn is_prefix_char(c: char) -> bool {
    ('0' <= c && c <= '9') || c == '-'
}

/// Whether `k` is the position of the first `_` in `s`.
pub open spec fn is_first_separator(s: Seq<char>, k: int) -> bool {
    &&& 0 <= k < s.len()
    &&& s[k] == '_'
    &&& forall|j: int| 0 <= j < k ==> s[j] != '_'
}

/// Whether `s` holds a `_`.
pub open spec fn has_separator(s: Seq<char>) -> bool {
    exists|k: int| 0 <= k < s.len() && s[k] == '_'
}

/// Splits a compound name `<prefix>_<name>` at its first `_`. The prefix must
/// be non-empty and made of digits and `-`; the name must be non-empty. On
/// success the descriptive name is returned.
pub open spec fn parse_compound(s: Seq<char>) -> Result<Seq<char>, NameFault> {
    if !has_separator(s) {
        Err(NameFault::NoSeparator)
    } else {
        let k = choose|k: int| is_first_separator(s, k);
        if k == 0 || exists|j: int| 0 <= j < k && !is_prefix_char(#[trigger] s[j]) {
            Err(NameFault::BadPrefix)
        } else if k + 1 == s.len() {
            Err(NameFault::EmptyName)
        } else {
            Ok(s.subrange(k + 1, s.len() as int))
        }
    }
}

/// The text an optional string holds, if any.
pub open spec fn text_of(o: Option<String>) -> Option<Seq<char>> {
    match o {
        Some(s) => Some(s@),
        None => None,
    }
}

/// What a migration holds, as mathematical values.
pub struct MigrationView {
    pub name: Seq<char>,
    pub compound_name: Seq<char>,
    pub hash: Option<Seq<char>>,
    pub up_sql: Option<Seq<char>>,
    pub down_sql: Option<Seq<char>>,
}

/// One schema change. It is built only by [`MigrationBuilder`], so its
/// compound name always has the expected shape and `name` is its descriptive
/// part.
#[derive(Debug)]
pub struct Migration {
    name: String,
    compound_name: String,
    hash: Option<String>,
    up_sql: Option<String>,
    down_sql: Option<String>,
}

impl View for Migration {
    type V = MigrationView;

    closed spec fn view(&self) -> MigrationView {
        MigrationView {
            name: self.name@,
            compound_name: self.compound_name@,
            hash: text_of(self.hash),
            up_sql: text_of(self.up_sql),
            down_sql: text_of(self.down_sql),
        }
    }
}

impl Migration {
    #[verifier::type_invariant]
    spec fn well_named(&self) -> bool {
        parse_compound(self.compound_name@) == Ok::<Seq<char>, NameFault>(self.name@)
    }

    /// The descriptive part of the compound name.
    pub fn name(&self) -> (r: &String)
        ensures
            r@ == self@.name,
            parse_compound(self@.compound_name) == Ok::<Seq<char>, NameFault>(self@.name),
    {
        proof {
            use_type_invariant(self);
        }
        &self.name
    }

    /// The full compound name, the migration's durable identity.
    pub fn compound_name(&self) -> (r: &String)
        ensures
            r@ == self@.compound_name,
            parse_compound(self@.compound_name) == Ok::<Seq<char>, NameFault>(self@.name),
    {
        proof {
            use_type_invariant(self);
        }
        &self.compound_name
    }

    /// Hash of the up SQL, if known.
    pub fn hash(&self) -> (r: &Option<String>)
        ensures
            text_of(*r) == self@.hash,
    {
        &self.hash
    }

    /// SQL run when the migration is applied, if known.
    pub fn up_sql(&self) -> (r: &Option<String>)
        ensures
            text_of(*r) == self@.up_sql,
    {
        &self.up_sql
    }

    /// SQL run when the migration is rolled back, if known.
    pub fn down_sql(&self) -> (r: &Option<String>)
        ensures
            text_of(*r) == self@.down_sql,
    {
        &self.down_sql
    }
}

impl Clone for Migration {
    fn clone(&self) -> (r: Self)
        ensures
            r@ == self@,
    {
        proof {
            use_type_invariant(self);
        }
        Migration {
            name: self.name.clone(),
            compound_name: self.compound_name.clone(),
            hash: self.hash.clone(),
            up_sql: self.up_sql.clone(),
            down_sql: self.down_sql.clone(),
        }
    }
}

/// What a builder has gathered so far.
pub struct MigrationBuilderView {
    pub compound_name: Option<Seq<char>>,
    pub hash: Option<Seq<char>>,
    pub up_sql: Option<Seq<char>>,
    pub down_sql: Option<Seq<char>>,
}

/// Gathers the parts of a migration, then checks its name in [`MigrationBuilder::build`].
#[derive(Debug, Clone)]
pub struct MigrationBuilder {
    compound_name: Option<String>,
    hash: Option<String>,
    up_sql: Option<String>,
    down_sql: Option<String>,
}

impl View for MigrationBuilder {
    type V = MigrationBuilderView;

    closed spec fn view(&self) -> MigrationBuilderView {
        MigrationBuilderView {
            compound_name: text_of(self.compound_name),
            hash: text_of(self.hash),
            up_sql: text_of(self.up_sql),
            down_sql: text_of(self.down_sql),
        }
    }
}

/// What building from the gathered parts gives.
pub open spec fn built(b: MigrationBuilderView) -> Result<MigrationView, Error> {
    match b.compound_name {
        None => Err(Error::MigrationParseError(NameFault::Missing)),
        Some(c) => match parse_compound(c) {
            Err(f) => Err(Error::MigrationParseError(f)),
            Ok(name) => Ok(
                MigrationView {
                    name,
                    compound_name: c,
                    hash: b.hash,
                    up_sql: b.up_sql,
                    down_sql: b.down_sql,
                },
            ),
        },
    }
}

/// Position of the first `_` in `s`, if any.
fn find_separator(s: &str) -> (r: Option<usize>)
    ensures
        r is None <==> !has_separator(s@),
        r is Some ==> is_first_separator(s@, r->Some_0 as int),
{
    let n = s.unicode_len();
    let mut i: usize = 0;
    while i < n
        invariant
            n == s@.len(),
            i <= n,
            forall|j: int| 0 <= j < i ==> s@[j] != '_',
        decreases n - i,
    {
        if s.get_char(i) == '_' {
            return Some(i);
        }
        i += 1;
    }
    None
}

/// Whether the first `k` characters of `s` are all prefix characters.
fn prefix_chars_only(s: &str, k: usize) -> (r: bool)
    requires
        k <= s@.len(),
    ensures
        r <==> forall|j: int| 0 <= j < k ==> is_prefix_char(#[trigger] s@[j]),
{
    let mut i: usize = 0;
    while i < k
        invariant
            k <= s@.len(),
            i <= k,
            forall|j: int| 0 <= j < i ==> is_prefix_char(#[trigger] s@[j]),
        decreases k - i,
    {
        let c = s.get_char(i);
        if !(('0' <= c && c <= '9') || c == '-') {
            return false;
        }
        i += 1;
    }
    true
}

/// Splits a compound name; see [`parse_compound`].
pub fn parse_compound_name(s: &str) -> (r: Result<String, NameFault>)
    ensures
        match r {
            Ok(name) => parse_compound(s@) == Ok::<Seq<char>, NameFault>(name@),
            Err(f) => parse_compound(s@) == Err::<Seq<char>, NameFault>(f),
        },
{
    match find_separator(s) {
        None => Err(NameFault::NoSeparator),
        Some(k) => {
            proof {
                assert(is_first_separator(s@, k as int));
                let c = choose|c: int| is_first_separator(s@, c);
                assert(c == k) by {
                    if c < k {
                        assert(s@[c] == '_');
                    } else if c > k {
                        assert(s@[k as int] == '_');
                    }
                }
            }
            let n = s.unicode_len();
            if k == 0 || !prefix_chars_only(s, k) {
                Err(NameFault::BadPrefix)
            } else if k + 1 == n {
                Err(NameFault::EmptyName)
            } else {
                Ok(s.substring_char(k + 1, n).to_owned())
            }
        },
    }
}

impl MigrationBuilder {
    /// A builder with nothing gathered.
    pub fn new() -> (r: Self)
        ensures
            r@.compound_name is None,
            r@.hash is None,
            r@.up_sql is None,
            r@.down_sql is None,
    {
        MigrationBuilder { compound_name: None, hash: None, up_sql: None, down_sql: None }
    }

    /// Sets the compound name `<prefix>_<name>`.
    pub fn compound_name(self, compound_name: &str) -> (r: Self)
        ensures
            r@ == (MigrationBuilderView { compound_name: Some(compound_name@), ..self@ }),
    {
        MigrationBuilder { compound_name: Some(compound_name.to_owned()), ..self }
    }

    /// Sets the hash of the up SQL.
    pub fn hash(self, hash: &str) -> (r: Self)
        ensures
            r@ == (MigrationBuilderView { hash: Some(hash@), ..self@ }),
    {
        MigrationBuilder { hash: Some(hash.to_owned()), ..self }
    }

    /// Sets the SQL run on apply.
    pub fn up_sql(self, up_sql: &str) -> (r: Self)
        ensures
            r@ == (MigrationBuilderView { up_sql: Some(up_sql@), ..self@ }),
    {
        MigrationBuilder { up_sql: Some(up_sql.to_owned()), ..self }
    }

    /// Sets the SQL run on rollback.
    pub fn down_sql(self, down_sql: &str) -> (r: Self)
        ensures
            r@ == (MigrationBuilderView { down_sql: Some(down_sql@), ..self@ }),
    {
        MigrationBuilder { down_sql: Some(down_sql.to_owned()), ..self }
    }

    /// Checks the compound name and builds the migration. Hash and SQL are
    /// optional here; whether a migration can be run is checked where it is run.
    pub fn build(&self) -> (r: Result<Migration, Error>)
        ensures
            match r {
                Ok(m) => built(self@) == Ok::<MigrationView, Error>(m@),
                Err(e) => built(self@) == Err::<MigrationView, Error>(e),
            },
    {
        match &self.compound_name {
            None => Err(Error::MigrationParseError(NameFault::Missing)),
            Some(c) => {
                let compound_name = c.clone();
                match parse_compound_name(compound_name.as_str()) {
                    Err(f) => Err(Error::MigrationParseError(f)),
                    Ok(name) => {
                        assert(parse_compound(compound_name@) == Ok::<Seq<char>, NameFault>(
                            name@,
                        ));
                        Ok(
                            Migration {
                                name,
                                compound_name,
                                hash: self.hash.clone(),
                                up_sql: self.up_sql.clone(),
                                down_sql: self.down_sql.clone(),
                            },
                        )
                    },
                }
            },
        }
    }
}

/// A migration that failed to build was never made: building yields a
/// migration exactly when the compound name has the expected shape, and a
/// parse error otherwise.
pub proof fn lemma_build_rejects_malformed(b: MigrationBuilderView)
    ensures
        built(b) is Ok <==> (b.compound_name is Some && parse_compound(b.compound_name->Some_0) is Ok),
        b.compound_name is Some && !has_separator(b.compound_name->Some_0) ==> built(b)
            == Err::<MigrationView, Error>(Error::MigrationParseError(NameFault::NoSeparator)),
        built(b) is Err ==> built(b)->Err_0 is MigrationParseError,
{
}

} // verus!
