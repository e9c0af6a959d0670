use std::collections::HashMap;

use einkaufsliste::config::{cookie_timeout, first_private_key, select_config_file, ConfigFile, LoadConfigError, DEFAULT_COOKIE_TIMEOUT};
use einkaufsliste::db::{verify_access, DbError};
use einkaufsliste::errors::{bad_request, error, not_found};
use einkaufsliste::files::FileType;
use einkaufsliste::handlers::{new_user_record, requested_user_id, validate_registration};
use einkaufsliste::identity::{login_identity, AuthenticatedUser};
use einkaufsliste::model::acl::AccessControlList;
use einkaufsliste::model::requests::{LoginUserV1, RegisterUserV1};
use einkaufsliste::model::session::Session;
use einkaufsliste::model::user::{Password, User, UserWithPassword};
use einkaufsliste::password::{blake3_hash_password_with_salt, check_password, check_stored_password, hash_password, hash_password_with_salt, verify_password_hash};
use einkaufsliste::payload::{PayloadCollector, MAX_API_PAYLOAD, MAX_DEV_PAYLOAD};
use einkaufsliste::response::{PasswordValidationError, PayloadErrorKind, Response, ResponseError};
use einkaufsliste::session_store::{generate_session_key, lookup_session, new_session, update_session, SessionLookup};
use einkaufsliste::Encoding;

fn user_with(password: Password) -> UserWithPassword {
    UserWithPassword { user: User { id: 3, name: "ann".into(), profile_picture_id: None }, password }
}

#[test]
fn argon2_hash_matches_the_crate() {
    let salt = [7u8; 16];
    let h = hash_password_with_salt("secret", &salt).unwrap();
    let mut expected = vec![0u8; 32];
    argon2::Argon2::default().hash_password_into(b"secret", &salt, &mut expected).unwrap();
    assert_eq!(h, expected);
    assert_ne!(h, salt.to_vec());
}

#[test]
fn argon2_rejects_short_salts() {
    assert!(matches!(hash_password_with_salt("secret", &[1, 2, 3]), Err(DbError::IO(_))));
    assert!(hash_password_with_salt("secret", &[0u8; 8]).is_ok());
}

#[test]
fn blake3_hash_matches_the_crate() {
    let h = blake3_hash_password_with_salt("pw", b"salt");
    assert_eq!(h, blake3::hash(b"pwsalt").as_bytes().to_vec());
}

#[test]
fn registered_password_verifies() {
    let p = hash_password("correct horse").unwrap();
    assert_eq!(p.salt.len(), 32);
    assert_eq!(p.hash.len(), 32);
    let ok = check_password(&LoginUserV1 { name: "ann".into(), password: "correct horse".into() }, user_with(p.clone()));
    assert_eq!(ok.unwrap().user.id, 3);
    let bad = check_password(&LoginUserV1 { name: "ann".into(), password: "wrong".into() }, user_with(p));
    assert!(matches!(bad, Err(DbError::Mismatch)));
}

#[test]
fn password_check_passes_hashing_errors_on() {
    let p = Password { hash: vec![1; 32], salt: vec![1, 2] };
    let r = check_password(&LoginUserV1 { name: "ann".into(), password: "x".into() }, user_with(p));
    assert!(matches!(r, Err(DbError::IO(_))));
    let r = verify_password_hash(user_with(Password { hash: vec![5], salt: vec![] }), Ok(vec![5]));
    assert!(r.is_ok());
    let r = verify_password_hash(user_with(Password { hash: vec![5], salt: vec![] }), Ok(vec![6]));
    assert!(matches!(r, Err(DbError::Mismatch)));
    let r = verify_password_hash(user_with(Password { hash: vec![5], salt: vec![] }), Err(DbError::NotFound));
    assert!(matches!(r, Err(DbError::NotFound)));
}

#[test]
fn access_decisions() {
    let acl = AccessControlList { object_id: 1, owner: 10, allowed_user_ids: vec![11] };
    assert!(verify_access(Some(&acl), 10).is_ok());
    assert!(verify_access(Some(&acl), 11).is_ok());
    assert!(matches!(verify_access(Some(&acl), 12), Err(DbError::Mismatch)));
    assert!(matches!(verify_access(None, 10), Err(DbError::NotFound)));
}

#[test]
fn db_error_messages() {
    assert_eq!(DbError::IO("disk".into()).message(), "IO error while accessing database: disk");
    assert_eq!(DbError::Encoding("bad".into()).message(), "Unexpected encoding error while accessing database bad");
    assert_eq!(DbError::NotFound.message(), "Object not found in database");
    assert_eq!(DbError::Mismatch.message(), "Mismatch between user request and database state");
}

#[test]
fn response_errors_map_to_statuses() {
    assert_eq!(ResponseError::ErrorBadRequest.status_code(), 400);
    assert_eq!(ResponseError::ErrorUnauthenticated.status_code(), 401);
    assert_eq!(ResponseError::ErrorUnauthorized.status_code(), 401);
    assert_eq!(ResponseError::ErrorNotFound.status_code(), 404);
    assert_eq!(ResponseError::ErrorInternalServerError("x".into()).status_code(), 500);
    assert_eq!(ResponseError::ErrorUnauthorized.framework_status_code(), 403);
    assert_eq!(ResponseError::ErrorUnauthenticated.framework_status_code(), 401);
    assert_eq!(ResponseError::ErrorNotFound.message(), "Requested resource can not be found.");
    assert_eq!(ResponseError::ErrorInternalServerError("secret".into()).message(), "An unknown internal Server error occurred");
    assert_eq!(ResponseError::ErrorBadRequest.message(), "Bad request: Submitted data was malformed.");
}

#[test]
fn lower_level_errors_convert() {
    assert!(matches!(ResponseError::from_db_error(DbError::NotFound), ResponseError::ErrorNotFound));
    assert!(matches!(ResponseError::from_db_error(DbError::Mismatch), ResponseError::ErrorBadRequest));
    match ResponseError::from_db_error(DbError::IO("disk".into())) {
        ResponseError::ErrorInternalServerError(m) => assert_eq!(m, "IO error while accessing database: disk"),
        other => panic!("unexpected {other:?}"),
    }
    assert!(matches!(ResponseError::from_password_validation_error(PasswordValidationError::InvalidPassword), ResponseError::ErrorBadRequest));
    assert!(matches!(ResponseError::from_password_validation_error(PasswordValidationError::NoSuchUserError), ResponseError::ErrorBadRequest));
    match ResponseError::from_password_validation_error(PasswordValidationError::DbAccessError("gone".into())) {
        ResponseError::ErrorInternalServerError(m) => assert_eq!(m, "Error accessing user data: gone"),
        other => panic!("unexpected {other:?}"),
    }
    assert_eq!(PasswordValidationError::RkyvValidationError.message(), "An unexpected error occured when deserialising from db.");
    assert!(matches!(ResponseError::from_payload_error(PayloadErrorKind::Overflow), ResponseError::ErrorBadRequest));
    assert!(matches!(ResponseError::from_payload_error(PayloadErrorKind::Other("io".into())), ResponseError::ErrorInternalServerError(_)));
}

#[test]
fn error_shorthands() {
    assert!(matches!(error("boom".to_string()), ResponseError::ErrorInternalServerError(m) if m == "boom"));
    assert!(matches!(bad_request("why"), ResponseError::ErrorBadRequest));
    assert!(matches!(not_found(()), ResponseError::ErrorNotFound));
}

#[test]
fn responses() {
    assert_eq!(Response::empty().status_code(), 200);
    assert_eq!(Response::from_output(5u64).status_code(), 200);
    assert_eq!(Response::<u64>::from_error(ResponseError::ErrorNotFound).status_code(), 404);
    assert_eq!(Response::from_output(5u64).branch().unwrap(), 5);
}

#[test]
fn config_decisions() {
    assert_eq!(select_config_file(true, false).unwrap(), ConfigFile::Home);
    assert_eq!(select_config_file(true, true).unwrap(), ConfigFile::Home);
    assert_eq!(select_config_file(false, true).unwrap(), ConfigFile::Local);
    assert!(matches!(select_config_file(false, false), Err(LoadConfigError::MissingAllConfigFiles)));
    assert_eq!(cookie_timeout(None), Some(DEFAULT_COOKIE_TIMEOUT));
    assert_eq!(DEFAULT_COOKIE_TIMEOUT, 60 * 60 * 24 * 30);
    assert_eq!(cookie_timeout(Some("120")), Some(120));
    assert_eq!(cookie_timeout(Some("soon")), None);
    assert!(matches!(first_private_key(vec![]), Err(LoadConfigError::MissingKeys)));
    assert_eq!(first_private_key(vec![vec![1], vec![2]]).unwrap(), vec![1]);
    assert_eq!(LoadConfigError::MissingKeys.message(), "Missing PEM files");
    assert_eq!(LoadConfigError::BuildingChain("x".into()).message(), "An Error occurred while building Keychain: x");
}

#[test]
fn identity_parsing() {
    assert_eq!(AuthenticatedUser::from_identity(Some("42")).unwrap().id, 42);
    assert!(matches!(AuthenticatedUser::from_identity(Some("x")), Err(ResponseError::ErrorUnauthenticated)));
    assert!(matches!(AuthenticatedUser::from_identity(None), Err(ResponseError::ErrorUnauthenticated)));
    let id = login_identity(123456789);
    assert_eq!(id, "123456789");
    assert_eq!(AuthenticatedUser::from_identity(Some(&id)).unwrap().id, 123456789);
}

#[test]
fn file_types() {
    assert_eq!(FileType::from_extension("html"), FileType::Html);
    assert_eq!(FileType::from_extension("css"), FileType::Css);
    assert_eq!(FileType::from_extension("js"), FileType::Js);
    assert_eq!(FileType::from_extension("wasm"), FileType::Wasm);
    assert_eq!(FileType::from_extension("svg"), FileType::Svg);
    assert_eq!(FileType::from_extension("png"), FileType::Other);
    assert_eq!(FileType::Wasm.mime_type(), "application/wasm");
    assert_eq!(FileType::Html.mime_type(), "text/html; charset=utf-8");
    assert_eq!(FileType::Other.mime_type(), "text/plain; charset=utf-8");
}

#[test]
fn registration_rules() {
    let short = RegisterUserV1 { name: "a".into(), password: "1234567".into() };
    assert!(matches!(validate_registration(&short, false), Err(ResponseError::ErrorBadRequest)));
    let ok = RegisterUserV1 { name: "a".into(), password: "12345678".into() };
    assert!(validate_registration(&ok, false).is_ok());
    assert!(matches!(validate_registration(&ok, true), Err(ResponseError::ErrorBadRequest)));
    // seven characters but more than eight bytes
    let wide = RegisterUserV1 { name: "a".into(), password: "äöüäöüä".into() };
    assert!(validate_registration(&wide, false).is_ok());
    let rec = new_user_record(9, &ok, Password { hash: vec![1], salt: vec![2] });
    assert_eq!(rec.user.id, 9);
    assert_eq!(rec.user.name, "a");
    assert!(rec.user.profile_picture_id.is_none());
    assert_eq!(requested_user_id(Some(4), AuthenticatedUser { id: 1 }), 4);
    assert_eq!(requested_user_id(None, AuthenticatedUser { id: 1 }), 1);
}

#[test]
fn payload_limit() {
    let mut c = PayloadCollector::new(4);
    assert!(c.push_chunk(&[1, 2]).is_ok());
    assert!(c.push_chunk(&[3, 4]).is_ok());
    assert!(matches!(c.push_chunk(&[5]), Err(ResponseError::ErrorBadRequest)));
    assert_eq!(c.into_bytes(), vec![1, 2, 3, 4]);
    let mut d = PayloadCollector::new(MAX_DEV_PAYLOAD);
    assert!(d.push_chunk(&vec![0u8; 32768]).is_ok());
    assert!(d.push_chunk(&[0]).is_err());
}

#[test]
fn session_store_decisions() {
    let mut state = HashMap::new();
    state.insert("user".to_string(), "1".to_string());
    let s = new_session(state.clone(), 1000, 60);
    assert_eq!(s.time_to_logout, 1060);
    match lookup_session(Some(s), 1059) {
        SessionLookup::Valid(st) => assert_eq!(st.get("user").unwrap(), "1"),
        other => panic!("unexpected {other:?}"),
    }
    let s = new_session(state.clone(), 1000, 60);
    assert!(matches!(lookup_session(Some(s), 1060), SessionLookup::Expired));
    assert!(matches!(lookup_session(None, 0), SessionLookup::Missing));
    let old = Session { time_to_logout: 5, state: HashMap::new() };
    let upd = update_session(old, state, 2000, 10);
    assert_eq!(upd.time_to_logout, 2010);
    assert_eq!(upd.state.len(), 1);
}

#[test]
fn session_keys_are_alphanumeric() {
    let a = generate_session_key();
    let b = generate_session_key();
    assert_eq!(a.len(), 64);
    assert!(a.iter().all(|c| c.is_ascii_alphanumeric()));
    assert_ne!(a, b);
}

#[test]
fn encoding_negotiation() {
    assert_eq!(Encoding::default(), Encoding::Rkyv);
    assert_eq!(Encoding::from_header(Some("application/json")), Encoding::JSON);
    assert_eq!(Encoding::from_header(Some("application/rkyv")), Encoding::Rkyv);
    assert_eq!(Encoding::from_header(Some("text/plain")), Encoding::Rkyv);
    assert_eq!(Encoding::from_header(None), Encoding::Rkyv);
    for e in [Encoding::JSON, Encoding::Rkyv] {
        assert_eq!(Encoding::from_header(Some(e.mime_type())), e);
    }
}

#[test]
fn api_bodies_are_limited_to_four_mebibytes() {
    assert_eq!(MAX_API_PAYLOAD, 4 * 1024 * 1024);
    let mut c = PayloadCollector::new(MAX_API_PAYLOAD);
    let chunk = vec![7u8; 1024 * 1024];
    for _ in 0..4 {
        assert!(c.push_chunk(&chunk).is_ok());
    }
    assert!(matches!(c.push_chunk(&[1]), Err(ResponseError::ErrorBadRequest)));
    assert_eq!(c.into_bytes().len(), 4 * 1024 * 1024);
}

#[test]
fn stored_login_records_are_checked() {
    let password = hash_password("correct horse").unwrap();
    let record = user_with(password);
    let login = LoginUserV1 { name: record.user.name.clone(), password: "correct horse".into() };
    let ok = check_stored_password(&login, Some(record.clone())).unwrap();
    assert_eq!(ok.user.id, record.user.id);
    let wrong = LoginUserV1 { name: record.user.name.clone(), password: "battery staple".into() };
    assert!(matches!(check_stored_password(&wrong, Some(record)), Err(DbError::Mismatch)));
    assert!(matches!(check_stored_password(&login, None), Err(DbError::Mismatch)));
}
