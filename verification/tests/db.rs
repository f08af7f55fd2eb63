use common_db::crypto::{decrypt, encrypt, CryptoError};
use common_db::error::{DbError, DriverFault};
use common_db::migrations::pending_migrations;
use common_db::models::{
    active_key, find_active, find_version, key_for_version, rotate_master_key, AppointmentStatus,
    MasterKey,
};
use common_db::DbConfig;

#[test]
fn scenario_rotation_keeps_old_versions_decryptable() {
    let password = "senha-forte-do-admin";
    let mut ring: Vec<MasterKey> = Vec::new();

    // Provision version 1 and encrypt a field under its key.
    let key_v1 = rotate_master_key(&mut ring, password, 1, 1_700_000_000).unwrap();
    assert_eq!(ring.len(), 1);
    assert_eq!(ring[0].key_version, 1);
    assert!(ring[0].active);

    let data = b"laudo emitido sob a chave antiga";
    let enc = encrypt(data, &key_v1).unwrap();

    // Rotate to version 2.
    let key_v2 = rotate_master_key(&mut ring, password, 2, 1_700_100_000).unwrap();
    assert_eq!(ring.len(), 2);
    assert!(!ring[0].active);
    assert!(ring[1].active);
    assert_eq!(ring[1].key_version, 2);
    assert_ne!(key_v1.as_bytes(), key_v2.as_bytes());

    // The active key is now version 2's.
    let active = active_key(&ring, password).unwrap();
    assert_eq!(active.as_bytes(), key_v2.as_bytes());

    // Ciphertext from version 1 still decrypts through the retained record.
    let old_key = key_for_version(&ring, 1, password).unwrap();
    assert_eq!(old_key.as_bytes(), key_v1.as_bytes());
    let decrypted = decrypt(&enc, &old_key).unwrap();
    assert_eq!(&decrypted[..], &data[..]);
}

#[test]
fn missing_master_key_is_fatal() {
    let ring: Vec<MasterKey> = Vec::new();
    assert!(matches!(
        active_key(&ring, "senha"),
        Err(CryptoError::MasterKeyNotFound)
    ));
    assert!(matches!(
        find_active(&ring),
        Err(CryptoError::MasterKeyNotFound)
    ));

    let mut ring = ring;
    rotate_master_key(&mut ring, "senha", 1, 0).unwrap();
    assert!(matches!(
        key_for_version(&ring, 7, "senha"),
        Err(CryptoError::MasterKeyNotFound)
    ));
    assert_eq!(find_version(&ring, 1).unwrap(), 0);
}

#[test]
fn wrong_password_does_not_unwrap_active_key() {
    let mut ring: Vec<MasterKey> = Vec::new();
    rotate_master_key(&mut ring, "senha-forte-do-admin", 1, 0).unwrap();
    assert!(matches!(
        active_key(&ring, "senha-errada"),
        Err(CryptoError::DecryptionFailed)
    ));
}

#[test]
fn master_key_record_splits_the_tag() {
    let mut ring: Vec<MasterKey> = Vec::new();
    rotate_master_key(&mut ring, "senha", 1, 42).unwrap();
    let record = &ring[0];
    assert_eq!(record.wrapped_key_ciphertext.len(), 32);
    assert_eq!(record.wrapped_key_tag.len(), 16);
    assert_eq!(record.wrapped_key_nonce.len(), 12);
    assert_eq!(record.wrap_salt.len(), 16);
    assert_eq!(record.created_at, 42);

    let payload = record.wrapped_payload();
    assert_eq!(&payload[..32], &record.wrapped_key_ciphertext[..]);
    assert_eq!(&payload[32..], &record.wrapped_key_tag[..]);
}

#[test]
fn status_labels_round_trip() {
    let all = [
        (AppointmentStatus::Scheduled, "scheduled"),
        (AppointmentStatus::Confirmed, "confirmed"),
        (AppointmentStatus::InProgress, "in_progress"),
        (AppointmentStatus::Completed, "completed"),
        (AppointmentStatus::Canceled, "canceled"),
        (AppointmentStatus::NoShow, "no_show"),
    ];
    for (status, label) in all {
        assert_eq!(status.as_str(), label);
        assert_eq!(AppointmentStatus::parse(label), Some(status));
    }
    assert_eq!(AppointmentStatus::parse("cancelled"), None);
    assert_eq!(AppointmentStatus::parse(""), None);
}

#[test]
fn driver_faults_are_classified() {
    let e = DbError::from_driver(DriverFault::RowNotFound);
    assert!(matches!(&e, DbError::NotFound(m) if m == "record not found"));

    let e = DbError::from_driver(DriverFault::Database {
        code: Some("23000".to_string()),
        message: "UNIQUE constraint failed".to_string(),
    });
    assert!(matches!(&e, DbError::ConstraintViolation(m) if m == "UNIQUE constraint failed"));

    let e = DbError::from_driver(DriverFault::Database {
        code: Some("2067".to_string()),
        message: "UNIQUE constraint failed".to_string(),
    });
    assert!(matches!(&e, DbError::ConstraintViolation(_)));

    let e = DbError::from_driver(DriverFault::Database {
        code: None,
        message: "syntax error".to_string(),
    });
    assert!(matches!(&e, DbError::QueryError(m) if m == "syntax error"));

    let e = DbError::from_driver(DriverFault::ColumnNotFound {
        column: "status".to_string(),
    });
    assert!(matches!(&e, DbError::QueryError(m) if m == "column not found: status"));

    let e = DbError::from_driver(DriverFault::TypeNotFound {
        name: "JSONB".to_string(),
    });
    assert!(matches!(&e, DbError::QueryError(m) if m == "type not found: JSONB"));

    let e = DbError::from_driver(DriverFault::ColumnDecode {
        index: "status".to_string(),
        message: "invalid status value".to_string(),
    });
    assert!(
        matches!(&e, DbError::QueryError(m) if m == "failed to decode column status: invalid status value")
    );

    let e = DbError::from_driver(DriverFault::Io {
        message: "broken pipe".to_string(),
    });
    assert!(matches!(&e, DbError::ConnectionError(m) if m == "broken pipe"));

    let e = DbError::from_driver(DriverFault::Configuration {
        message: "bad url".to_string(),
    });
    assert!(matches!(&e, DbError::ConnectionError(m) if m == "bad url"));

    let e = DbError::from_driver(DriverFault::PoolClosed);
    assert!(matches!(&e, DbError::ConnectionError(m) if m == "connection pool closed"));

    let e = DbError::from_driver(DriverFault::PoolTimedOut);
    assert!(matches!(&e, DbError::ConnectionError(m) if m == "connection pool timed out"));

    let e = DbError::from_driver(DriverFault::WorkerCrashed);
    assert!(matches!(&e, DbError::InternalError(m) if m == "database worker crashed"));

    let e = DbError::from_driver(DriverFault::Other {
        message: "RowNotFound".to_string(),
    });
    assert!(matches!(&e, DbError::InternalError(m) if m == "unexpected error: RowNotFound"));
    assert_eq!(e.message(), "unexpected error: RowNotFound");
}

#[test]
fn migration_plan_is_the_missing_suffix() {
    assert_eq!(pending_migrations(0, 2), vec![1, 2]);
    assert_eq!(pending_migrations(1, 2), vec![2]);
    assert_eq!(pending_migrations(2, 2), Vec::<i64>::new());
    assert_eq!(pending_migrations(5, 2), Vec::<i64>::new());
    assert_eq!(pending_migrations(-3, 2), vec![1, 2]);
    assert_eq!(pending_migrations(0, 0), Vec::<i64>::new());
}

#[test]
fn default_config_is_safe() {
    let config = DbConfig::default();
    assert_eq!(config.db_path, "data/clinic.db");
    assert_eq!(config.key_phrase, "");
    assert_eq!(config.max_connections, 5);
    assert_eq!(config.trace_level, 0);
}
