use movine::error::{Error, NameFault};
use movine::migration::{parse_compound_name, MigrationBuilder};

#[test]
fn build_splits_the_compound_name() {
    let m = MigrationBuilder::new()
        .compound_name("2019-03-17-163451_create_users")
        .hash("abc")
        .up_sql("CREATE TABLE users(id INT);")
        .build()
        .unwrap();
    assert_eq!(m.name(), "create_users");
    assert_eq!(m.compound_name(), "2019-03-17-163451_create_users");
    assert_eq!(m.hash(), &Some("abc".to_string()));
    assert_eq!(m.up_sql(), &Some("CREATE TABLE users(id INT);".to_string()));
    assert_eq!(m.down_sql(), &None);
}

#[test]
fn build_without_sql_is_fine() {
    let m = MigrationBuilder::new().compound_name("001_init").build().unwrap();
    assert_eq!(m.name(), "init");
    assert!(m.hash().is_none() && m.up_sql().is_none() && m.down_sql().is_none());
}

fn fault_of(name: &str) -> NameFault {
    match MigrationBuilder::new().compound_name(name).build() {
        Err(Error::MigrationParseError(f)) => f,
        other => panic!("expected a parse error, got {:?}", other),
    }
}

#[test]
fn build_rejects_a_name_without_separator() {
    assert_eq!(fault_of("001init"), NameFault::NoSeparator);
    assert_eq!(fault_of(""), NameFault::NoSeparator);
}

#[test]
fn build_rejects_a_bad_prefix() {
    assert_eq!(fault_of("_init"), NameFault::BadPrefix);
    assert_eq!(fault_of("v1_init"), NameFault::BadPrefix);
}

#[test]
fn build_rejects_an_empty_name() {
    assert_eq!(fault_of("001_"), NameFault::EmptyName);
}

#[test]
fn build_without_compound_name_fails() {
    match MigrationBuilder::new().hash("h").build() {
        Err(Error::MigrationParseError(NameFault::Missing)) => {}
        other => panic!("expected a parse error, got {:?}", other),
    }
}

#[test]
fn name_is_split_at_the_first_separator() {
    assert_eq!(parse_compound_name("12-3_a_b").unwrap(), "a_b");
}

#[test]
fn builder_can_be_reused() {
    let b = MigrationBuilder::new().compound_name("001_one");
    let first = b.build().unwrap();
    let second = b.build().unwrap();
    assert_eq!(first.compound_name(), second.compound_name());
    let other = b.compound_name("002_two").build().unwrap();
    assert_eq!(other.name(), "two");
}
