use user_service::config::{append_decimal, App, AppConfig, ConfigError, Database, Vars};
use user_service::shared::error::AppError;
use user_service::shared::hash;
use user_service::shared::locale::Locale;
use user_service::products::position_of;
use user_service::shared::password::{hash_password, lanes_within_limit, verify_password};
use user_service::shared::response::ApiResponse;
use user_service::shared::result::DomainResult;

fn database(port: u16) -> Database {
    Database {
        host: "db.local".to_string(),
        port,
        user: "svc".to_string(),
        password: "pw".to_string(),
        db_name: "people".to_string(),
        max_connections: 10,
        connect_timeout_secs: 5,
    }
}

fn full_vars() -> Vars {
    Vars {
        app_host: Some("0.0.0.0".to_string()),
        app_port: Some("8080".to_string()),
        app_env: Some("dev".to_string()),
        db_host: Some("db.local".to_string()),
        db_port: Some("5432".to_string()),
        db_user: Some("svc".to_string()),
        db_password: Some("pw".to_string()),
        db_name: Some("people".to_string()),
        db_max_connections: Some("20".to_string()),
        db_connect_timeout: Some("7".to_string()),
    }
}

fn missing(r: Result<AppConfig, ConfigError>) -> String {
    match r {
        Err(ConfigError::MissingVar(name)) => name,
        other => panic!("not a missing variable: {:?}", other.map(|_| ())),
    }
}

fn invalid(r: Result<AppConfig, ConfigError>) -> String {
    match r {
        Err(ConfigError::InvalidValue(text)) => text,
        other => panic!("not an invalid value: {:?}", other.map(|_| ())),
    }
}

#[test]
fn connection_string_has_every_part_in_place() {
    assert_eq!(database(5432).connection_string(), "postgres://svc:pw@db.local:5432/people");
    assert_eq!(database(0).connection_string(), "postgres://svc:pw@db.local:0/people");
    assert_eq!(database(65535).connection_string(), "postgres://svc:pw@db.local:65535/people");
}

#[test]
fn decimal_text_of_small_and_large_numbers() {
    for n in [0u64, 7, 9, 10, 11, 99, 100, 101, 5432, 65535, 1_000_000, u64::MAX] {
        let mut out = "n=".to_string();
        append_decimal(&mut out, n);
        assert_eq!(out, format!("n={}", n));
    }
}

#[test]
fn settings_are_read_from_all_their_values() {
    let config = AppConfig::from_vars(full_vars()).unwrap();
    assert_eq!(config.app.host, "0.0.0.0");
    assert_eq!(config.app.port, 8080);
    assert_eq!(config.app.env, "dev");
    assert_eq!(config.database.host, "db.local");
    assert_eq!(config.database.port, 5432);
    assert_eq!(config.database.user, "svc");
    assert_eq!(config.database.password, "pw");
    assert_eq!(config.database.db_name, "people");
    assert_eq!(config.database.max_connections, 20);
    assert_eq!(config.database.connect_timeout_secs, 7);
}

#[test]
fn connections_and_timeout_have_defaults() {
    let mut vars = full_vars();
    vars.db_max_connections = None;
    vars.db_connect_timeout = None;
    let config = AppConfig::from_vars(vars).unwrap();
    assert_eq!(config.database.max_connections, 10);
    assert_eq!(config.database.connect_timeout_secs, 5);
}

#[test]
fn each_required_value_is_missed_under_its_name() {
    let mut v = full_vars();
    v.app_host = None;
    assert_eq!(missing(AppConfig::from_vars(v)), "APP_HOST");
    let mut v = full_vars();
    v.app_port = None;
    assert_eq!(missing(AppConfig::from_vars(v)), "APP_PORT");
    let mut v = full_vars();
    v.app_env = None;
    assert_eq!(missing(AppConfig::from_vars(v)), "APP_ENV");
    let mut v = full_vars();
    v.db_host = None;
    assert_eq!(missing(AppConfig::from_vars(v)), "DB_HOST");
    let mut v = full_vars();
    v.db_port = None;
    assert_eq!(missing(AppConfig::from_vars(v)), "DB_PORT");
    let mut v = full_vars();
    v.db_user = None;
    assert_eq!(missing(AppConfig::from_vars(v)), "DB_USER");
    let mut v = full_vars();
    v.db_password = None;
    assert_eq!(missing(AppConfig::from_vars(v)), "DB_PASSWORD");
    let mut v = full_vars();
    v.db_name = None;
    assert_eq!(missing(AppConfig::from_vars(v)), "DB_NAME");
}

#[test]
fn the_first_fault_in_order_is_the_one_reported() {
    let mut v = full_vars();
    v.app_port = Some("http".to_string());
    v.app_env = None;
    v.db_host = None;
    assert_eq!(invalid(AppConfig::from_vars(v)), "http");
    let mut v = full_vars();
    v.app_env = None;
    v.db_port = Some("x".to_string());
    assert_eq!(missing(AppConfig::from_vars(v)), "APP_ENV");
    let mut v = full_vars();
    v.db_port = Some("x".to_string());
    v.db_user = None;
    assert_eq!(invalid(AppConfig::from_vars(v)), "x");
    let mut v = full_vars();
    v.db_name = None;
    v.db_max_connections = Some("many".to_string());
    assert_eq!(missing(AppConfig::from_vars(v)), "DB_NAME");
    let mut v = full_vars();
    v.db_max_connections = Some("many".to_string());
    v.db_connect_timeout = Some("soon".to_string());
    assert_eq!(invalid(AppConfig::from_vars(v)), "many");
}

#[test]
fn numbers_are_read_as_std_reads_them() {
    let port = |text: &str| {
        let mut v = full_vars();
        v.app_port = Some(text.to_string());
        AppConfig::from_vars(v).map(|c| c.app.port)
    };
    for text in ["0", "7", "+7", "007", "65535", "+65535", "0000065535"] {
        assert_eq!(port(text).ok(), text.parse::<u16>().ok(), "text {:?}", text);
        assert!(port(text).is_ok(), "text {:?}", text);
    }
    assert_eq!(port("+7").ok(), Some(7));
    assert_eq!(port("007").ok(), Some(7));
    for text in [
        "", "+", "-", "-1", "-0", "++1", "+-1", " 1", "1 ", "1_0", "0x10", "1.0", "65536",
        "99999999999999999999999", "١٢", "1e3", "+ 1",
    ] {
        assert!(text.parse::<u16>().is_err(), "text {:?}", text);
        assert!(
            matches!(port(text), Err(ConfigError::InvalidValue(t)) if t == text),
            "text {:?}",
            text
        );
    }
}

#[test]
fn each_number_has_its_own_range() {
    let mut v = full_vars();
    v.db_port = Some("65536".to_string());
    assert_eq!(invalid(AppConfig::from_vars(v)), "65536");
    let mut v = full_vars();
    v.db_max_connections = Some("4294967295".to_string());
    assert_eq!(AppConfig::from_vars(v).unwrap().database.max_connections, u32::MAX);
    let mut v = full_vars();
    v.db_max_connections = Some("4294967296".to_string());
    assert_eq!(invalid(AppConfig::from_vars(v)), "4294967296");
    let mut v = full_vars();
    v.db_connect_timeout = Some("18446744073709551615".to_string());
    assert_eq!(AppConfig::from_vars(v).unwrap().database.connect_timeout_secs, u64::MAX);
    let mut v = full_vars();
    v.db_connect_timeout = Some("18446744073709551616".to_string());
    assert_eq!(invalid(AppConfig::from_vars(v)), "18446744073709551616");
}

#[test]
fn settings_can_be_copied() {
    let app = App { host: "h".to_string(), port: 1, env: "e".to_string() };
    let config = AppConfig { app, database: database(1) };
    let copy = config.clone();
    assert_eq!(copy.app.host, "h");
    assert_eq!(copy.database.db_name, "people");
}

#[test]
fn locale_codes() {
    assert_eq!(Locale::EN.to_str(), "en");
    assert_eq!(Locale::TH.to_str(), "th");
}

#[test]
fn domain_result_constructors() {
    assert!(matches!(DomainResult::<u8, String>::ok(3), DomainResult::Success(3)));
    assert!(matches!(DomainResult::<u8, String>::not_found(), DomainResult::NotFound));
    assert!(
        matches!(DomainResult::<u8, String>::err("e".to_string()), DomainResult::Failure(e) if e == "e")
    );
}

#[test]
fn mapping_get_finds_the_last_entry_of_a_key() {
    let h = hash::Hash::new(vec![
        ("en".to_string(), 1u32),
        ("th".to_string(), 2),
        ("en".to_string(), 3),
    ]);
    assert_eq!(h.get(&"en".to_string()), Some(&3));
    assert_eq!(h.get(&"th".to_string()), Some(&2));
    assert_eq!(h.get(&"fr".to_string()), None);
    assert_eq!(h.get(&"".to_string()), None);
    assert_eq!(h.values.len(), 3);
}

#[test]
fn mapping_get_or_default() {
    let h = hash::Hash::new(vec![("en".to_string(), "hello".to_string())]);
    assert_eq!(h.get_or_default(&"en".to_string()), "hello");
    assert_eq!(h.get_or_default(&"th".to_string()), "");
    let n = hash::Hash::new(vec![("a".to_string(), 5u64)]);
    assert_eq!(n.get_or_default(&"a".to_string()), 5);
    assert_eq!(n.get_or_default(&"b".to_string()), 0);
}

#[test]
fn mapping_insert_replaces_every_entry_of_the_key() {
    let mut h = hash::Hash::new(vec![
        ("en".to_string(), 1u32),
        ("th".to_string(), 2),
        ("en".to_string(), 3),
    ]);
    h.insert("en".to_string(), 9);
    assert_eq!(h.values, vec![("th".to_string(), 2), ("en".to_string(), 9)]);
    h.insert("fr".to_string(), 4);
    assert_eq!(h.values.len(), 3);
    assert_eq!(h.get(&"fr".to_string()), Some(&4));
    assert_eq!(h.get(&"en".to_string()), Some(&9));
    let empty: hash::Hash<u32> = hash::Hash::empty();
    assert!(empty.values.is_empty());
    assert_eq!(empty.get(&"en".to_string()), None);
}

#[test]
fn errors_have_their_status_and_public_message() {
    let cases: Vec<(AppError, u16, &str)> = vec![
        (AppError::bad_request("bad id"), 400, "bad id"),
        (AppError::not_found("User not found"), 404, "User not found"),
        (AppError::Unauthorized, 401, "unauthorized"),
        (AppError::Forbidden, 403, "forbidden"),
        (AppError::conflict("email taken".to_string()), 409, "email taken"),
        (AppError::internal_server_error("pool timed out"), 500, "internal server error"),
        (AppError::internal_server_error(42), 500, "internal server error"),
    ];
    for (e, status, message) in cases {
        assert_eq!(e.status_code(), status);
        assert_eq!(e.message(), message);
    }
    assert!(matches!(AppError::bad_request("x"), AppError::BadRequest(m) if m == "x"));
    assert!(matches!(AppError::not_found("x"), AppError::NotFound(m) if m == "x"));
    assert!(matches!(AppError::conflict("x"), AppError::Conflict(m) if m == "x"));
    assert!(matches!(AppError::internal_server_error(42), AppError::Internal(m) if m == "42"));
}

#[test]
fn envelopes() {
    let ok = ApiResponse::ok(5u8);
    assert_eq!(ok.status_code(), 200);
    assert_eq!(ok.message(), "success");
    assert_eq!(ok.data(), &Some(5));
    assert_eq!(ok.http_status(), 200);
    let created = ApiResponse::created("x".to_string());
    assert_eq!(created.status_code(), 201);
    assert_eq!(created.message(), "created");
    assert_eq!(created.into_parts(), (201, "created".to_string(), Some("x".to_string())));
    let empty = ApiResponse::ok_empty();
    assert_eq!(empty.status_code(), 200);
    assert_eq!(empty.message(), "success");
    assert_eq!(empty.data(), &None);
    let odd = ApiResponse::new(42, "odd".to_string(), Some(1u8));
    assert_eq!(odd.status_code(), 42);
    assert_eq!(odd.http_status(), 500);
    assert_eq!(ApiResponse::<u8>::new(99, String::new(), None).http_status(), 500);
    assert_eq!(ApiResponse::<u8>::new(100, String::new(), None).http_status(), 100);
    assert_eq!(ApiResponse::<u8>::new(999, String::new(), None).http_status(), 999);
    assert_eq!(ApiResponse::<u8>::new(1000, String::new(), None).http_status(), 500);
    assert_eq!(ApiResponse::<u8>::new(0, String::new(), None).http_status(), 500);
    assert_eq!(ApiResponse::<u8>::new(u16::MAX, String::new(), None).http_status(), 500);
}

#[test]
fn a_digest_is_not_the_password_and_verifies_against_it() {
    let digest = hash_password("secret").unwrap();
    assert_ne!(digest, "secret");
    assert!(digest.starts_with("$argon2"));
    assert_eq!(verify_password("secret", &digest), Ok(true));
    assert_eq!(verify_password("Secret", &digest), Ok(false));
    assert_eq!(verify_password("", &digest), Ok(false));
}

#[test]
fn each_digest_has_its_own_salt() {
    let a = hash_password("secret").unwrap();
    let b = hash_password("secret").unwrap();
    assert_ne!(a, b);
    assert_eq!(verify_password("secret", &a), Ok(true));
    assert_eq!(verify_password("secret", &b), Ok(true));
}

#[test]
fn a_malformed_digest_is_an_error() {
    assert!(verify_password("secret", "").is_err());
    assert!(verify_password("secret", "secret").is_err());
    assert!(verify_password("secret", "not a digest").is_err());
}

#[test]
fn verification_depends_on_its_two_texts_alone() {
    let digest = hash_password("pw").unwrap();
    assert_eq!(verify_password("pw", &digest), verify_password("pw", &digest));
    assert_eq!(verify_password("x", "$bad"), verify_password("x", "$bad"));
}

#[test]
fn a_digest_that_asks_for_too_many_lanes_matches_nothing() {
    for lanes in ["536870912", "4294967295", "16777216", "2147483648", "999999999"] {
        let digest =
            format!("$argon2id$v=19$m=8,t=1,p={}$c2FsdHNhbHQ$aGFzaGhhc2hoYXNo", lanes);
        assert!(!lanes_within_limit(&digest), "lanes {}", lanes);
        assert_eq!(verify_password("secret", &digest), Ok(false), "lanes {}", lanes);
    }
    let wide = "$argon2id$v=19$m=4294967295,t=1,p=536870912$c2FsdHNhbHQ$aGFzaGhhc2hoYXNo";
    assert_eq!(verify_password("secret", wide), Ok(false));
    let beyond = "$argon2id$v=19$m=8,t=1,p=99999999999999999999999$c2FsdHNhbHQ$aGFzaGhhc2hoYXNo";
    assert!(!lanes_within_limit(beyond));
    assert_eq!(verify_password("secret", beyond), Ok(false));
}

#[test]
fn a_digest_at_the_limit_of_lanes_goes_to_argon2() {
    let digest = "$argon2id$v=19$m=8,t=1,p=16777215$c2FsdHNhbHQ$aGFzaGhhc2hoYXNo";
    assert!(lanes_within_limit(digest));
    assert_eq!(verify_password("secret", digest), Ok(false));
    let small = "$argon2id$v=19$m=8,t=1,p=1$c2FsdHNhbHQ$aGFzaGhhc2hoYXNo";
    assert!(lanes_within_limit(small));
    assert_eq!(verify_password("secret", small), Ok(false));
}

#[test]
fn the_last_number_of_lanes_is_the_one_that_counts() {
    let made = hash_password("secret").unwrap();
    assert!(lanes_within_limit(&made));
    let first_wide = made.replace("p=1$", "p=536870912,p=1$");
    assert!(lanes_within_limit(&first_wide));
    assert_eq!(verify_password("secret", &first_wide), Ok(true));
    assert_eq!(verify_password("other", &first_wide), Ok(false));
    let last_wide = made.replace("p=1$", "p=1,p=536870912$");
    assert!(!lanes_within_limit(&last_wide));
    assert_eq!(verify_password("secret", &last_wide), Ok(false));
}

#[test]
fn a_text_that_is_no_digest_is_an_error_whatever_it_asks_for() {
    for text in ["p=536870912", "$argon2id$p=536870912$$$$$", "argon2id$v=19$m=8,t=1,p=536870912"] {
        assert!(verify_password("secret", text).is_err(), "text {:?}", text);
    }
}

#[test]
fn lanes_are_read_after_the_last_mark() {
    assert!(lanes_within_limit(""));
    assert!(lanes_within_limit("p"));
    assert!(lanes_within_limit("p="));
    assert!(lanes_within_limit("no mark at all 99999999999"));
    assert!(lanes_within_limit("p=0"));
    assert!(lanes_within_limit("p=16777215"));
    assert!(!lanes_within_limit("p=16777216"));
    assert!(lanes_within_limit("p=0000000000000000000016777215"));
    assert!(!lanes_within_limit("p=0000000000000000000016777216"));
    assert!(lanes_within_limit("p=16777216,p=3"));
    assert!(!lanes_within_limit("p=3,p=16777216"));
    assert!(lanes_within_limit("p=1x6777216"));
    assert!(lanes_within_limit("p=x16777216"));
    assert!(lanes_within_limit("P=16777216"));
    assert!(!lanes_within_limit("xp=16777216$rest"));
    assert!(lanes_within_limit("p=16777216p="));
    assert!(!lanes_within_limit("é p=99999999 é"));
}

#[test]
fn a_product_is_found_at_its_first_position() {
    assert_eq!(position_of(&vec![5, 7, 9, 7], 7), Some(1));
    assert_eq!(position_of(&vec![5, 7, 9], 5), Some(0));
    assert_eq!(position_of(&vec![5, 7, 9], 9), Some(2));
    assert_eq!(position_of(&vec![5, 7, 9], 8), None);
    assert_eq!(position_of(&Vec::new(), 8), None);
}

#[test]
fn error_messages_are_the_texts_passed_in() {
    assert!(matches!(AppError::not_found("User not found"), AppError::NotFound(m) if m == "User not found"));
    assert!(matches!(AppError::bad_request("invalid id"), AppError::BadRequest(m) if m == "invalid id"));
    assert!(matches!(AppError::bad_request("invalid id".to_string()), AppError::BadRequest(m) if m == "invalid id"));
    assert!(matches!(AppError::conflict(String::new()), AppError::Conflict(m) if m.is_empty()));
    assert_eq!(AppError::not_found("User not found").status_code(), 404);
    assert_eq!(AppError::bad_request("invalid id").status_code(), 400);
}
