use movine::error::Error;
use movine::params::{MysqlParams, RawMysqlParams, DEFAULT_PORT};
use std::path::PathBuf;

fn empty() -> RawMysqlParams {
    RawMysqlParams {
        user: None,
        password: None,
        host: None,
        database: None,
        port: None,
        sslcert: None,
    }
}

fn full() -> RawMysqlParams {
    RawMysqlParams {
        user: Some("alice".to_string()),
        password: Some("pw".to_string()),
        host: Some("db.local".to_string()),
        database: Some("app".to_string()),
        port: Some(3306),
        sslcert: Some(PathBuf::from("/etc/cert.pem")),
    }
}

#[test]
fn later_source_overrides_host() {
    let a = full();
    let b = RawMysqlParams { host: Some("override.local".to_string()), ..empty() };
    let merged = MysqlParams::try_from(&[&a, &b][..]).unwrap();
    assert_eq!(merged.host, "override.local");
    assert_eq!(merged.user, "alice");
    assert_eq!(merged.password, Some("pw".to_string()));
    assert_eq!(merged.database, "app");
    assert_eq!(merged.port, 3306);
    assert_eq!(merged.sslcert, Some(PathBuf::from("/etc/cert.pem")));
}

#[test]
fn last_source_setting_a_field_wins() {
    let a = RawMysqlParams { port: Some(1), ..full() };
    let b = RawMysqlParams { port: Some(2), ..empty() };
    let c = RawMysqlParams { user: Some("carol".to_string()), ..empty() };
    let merged = MysqlParams::try_from(&[&a, &b, &c][..]).unwrap();
    assert_eq!(merged.port, 2);
    assert_eq!(merged.user, "carol");
}

#[test]
fn default_port_applies_when_no_source_sets_it() {
    let a = RawMysqlParams { port: None, ..full() };
    let merged = MysqlParams::try_from(&[&a][..]).unwrap();
    assert_eq!(merged.port, DEFAULT_PORT);
    assert_eq!(merged.port, 5432);
}

#[test]
fn missing_database_is_reported() {
    let a = RawMysqlParams { database: None, password: None, ..full() };
    let b = RawMysqlParams { host: Some("h".to_string()), ..empty() };
    match MysqlParams::try_from(&[&a, &b][..]) {
        Err(Error::MysqlParamError { user, password, database, host, port }) => {
            assert!(user);
            assert!(!password);
            assert!(!database);
            assert!(host);
            assert!(port);
        }
        other => panic!("expected a parameter error, got {:?}", other),
    }
}

#[test]
fn no_sources_leave_only_the_port() {
    match MysqlParams::try_from(&[][..]) {
        Err(Error::MysqlParamError { user, password, database, host, port }) => {
            assert!(!user && !password && !database && !host);
            assert!(port);
        }
        other => panic!("expected a parameter error, got {:?}", other),
    }
}

#[test]
fn default_source_holds_only_the_port() {
    let d = RawMysqlParams::default();
    assert_eq!(d.port, Some(5432));
    assert!(d.user.is_none() && d.password.is_none() && d.host.is_none());
    assert!(d.database.is_none() && d.sslcert.is_none());
}

#[test]
fn is_any_sees_each_field_but_the_certificate() {
    assert!(!empty().is_any());
    assert!(RawMysqlParams { user: Some("u".to_string()), ..empty() }.is_any());
    assert!(RawMysqlParams { password: Some("p".to_string()), ..empty() }.is_any());
    assert!(RawMysqlParams { host: Some("h".to_string()), ..empty() }.is_any());
    assert!(RawMysqlParams { database: Some("d".to_string()), ..empty() }.is_any());
    assert!(RawMysqlParams { port: Some(1), ..empty() }.is_any());
    assert!(!RawMysqlParams { sslcert: Some(PathBuf::from("c")), ..empty() }.is_any());
    assert!(RawMysqlParams::default().is_any());
}
