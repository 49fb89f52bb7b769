//! Tests of configuration resolution, precedence, defaults, and the
//! fail-closed licensing gate.

use license_gate::config::{
    default_database_url, default_storage_path, finalize, parse_port, resolve, CandidateOptions,
    ConfigError, DatabaseOptions, EnvOverrides, FileConfig, FileDatabaseConfig, FileSmtpConfig,
    FileStorageConfig, GateError, StorageOptions,
};
use license_gate::license::{RejectReason, VerificationOutcome};

fn no_env() -> EnvOverrides {
    EnvOverrides { host: None, port: None }
}

fn empty_file_config() -> FileConfig {
    FileConfig {
        auth_enable: None,
        cookie_domain: None,
        database: None,
        host: None,
        license: None,
        port: None,
        smtp: None,
        storage: None,
        url: None,
    }
}

fn dirs() -> (String, String) {
    (
        String::from("/home/u/.local/share/tangram"),
        String::from("/home/u/.cache/tangram"),
    )
}

#[test]
fn defaults_without_config_or_env() {
    let (data_dir, cache_dir) = dirs();
    let c = resolve(&no_env(), &None, &data_dir, &cache_dir).unwrap();
    assert_eq!(c.host, "0.0.0.0");
    assert_eq!(c.port, 8080);
    assert!(!c.auth_requested);
    assert!(c.license.is_none());
    assert!(c.cookie_domain.is_none());
    assert!(c.url.is_none());
    assert!(c.smtp.is_none());
    assert!(c.database.max_connections.is_none());
    assert_eq!(c.database.url, "sqlite:/home/u/.local/share/tangram/db/tangram.db");
    match c.storage {
        StorageOptions::Local { path } => {
            assert_eq!(path, "/home/u/.local/share/tangram/data");
        }
        StorageOptions::S3 { .. } => panic!("default storage must be local"),
    }
}

#[test]
fn env_host_beats_file_host() {
    let (data_dir, cache_dir) = dirs();
    let env = EnvOverrides {
        host: Some(String::from("127.0.0.1")),
        port: None,
    };
    let mut file = empty_file_config();
    file.host = Some(String::from("10.0.0.1"));
    let c = resolve(&env, &Some(file), &data_dir, &cache_dir).unwrap();
    assert_eq!(c.host, "127.0.0.1");
}

#[test]
fn file_host_beats_default() {
    let (data_dir, cache_dir) = dirs();
    let mut file = empty_file_config();
    file.host = Some(String::from("10.0.0.1"));
    let c = resolve(&no_env(), &Some(file), &data_dir, &cache_dir).unwrap();
    assert_eq!(c.host, "10.0.0.1");
}

#[test]
fn env_port_beats_file_port() {
    let (data_dir, cache_dir) = dirs();
    let env = EnvOverrides {
        host: None,
        port: Some(String::from("9000")),
    };
    let mut file = empty_file_config();
    file.port = Some(7000);
    let c = resolve(&env, &Some(file), &data_dir, &cache_dir).unwrap();
    assert_eq!(c.port, 9000);
}

#[test]
fn invalid_env_port_is_fatal() {
    let (data_dir, cache_dir) = dirs();
    let env = EnvOverrides {
        host: None,
        port: Some(String::from("not-a-port")),
    };
    let r = resolve(&env, &None, &data_dir, &cache_dir);
    assert_eq!(r.unwrap_err(), ConfigError::InvalidEnvValue);
}

#[test]
fn port_parsing_edges() {
    assert_eq!(parse_port(&String::from("8080")), Some(8080));
    assert_eq!(parse_port(&String::from("0")), Some(0));
    assert_eq!(parse_port(&String::from("65535")), Some(65535));
    assert_eq!(parse_port(&String::from("007")), Some(7));
    assert_eq!(parse_port(&String::from("65536")), None);
    assert_eq!(parse_port(&String::from("")), None);
    assert_eq!(parse_port(&String::from("12a")), None);
    assert_eq!(parse_port(&String::from("-1")), None);
    assert_eq!(parse_port(&String::from("999999999999999999999")), None);
}

#[test]
fn file_sections_carry_over() {
    let (data_dir, cache_dir) = dirs();
    let mut file = empty_file_config();
    file.cookie_domain = Some(String::from("example.com"));
    file.url = Some(String::from("https://app.example.com"));
    file.license = Some(String::from("/etc/tangram/license"));
    file.database = Some(FileDatabaseConfig {
        max_connections: Some(12),
        url: String::from("postgres://db.example.com/tangram"),
    });
    file.smtp = Some(FileSmtpConfig {
        host: String::from("smtp.example.com"),
        password: String::from("SECRET-REDACTED"),
        username: String::from("mailer"),
    });
    let c = resolve(&no_env(), &Some(file), &data_dir, &cache_dir).unwrap();
    assert_eq!(c.cookie_domain.as_deref(), Some("example.com"));
    assert_eq!(c.url.as_deref(), Some("https://app.example.com"));
    assert_eq!(c.license.as_deref(), Some("/etc/tangram/license"));
    assert_eq!(c.database.max_connections, Some(12));
    assert_eq!(c.database.url, "postgres://db.example.com/tangram");
    let smtp = c.smtp.unwrap();
    assert_eq!(smtp.host, "smtp.example.com");
    assert_eq!(smtp.username, "mailer");
}

#[test]
fn s3_storage_cache_path_defaults_to_cache_dir() {
    let (data_dir, cache_dir) = dirs();
    let mut file = empty_file_config();
    file.storage = Some(FileStorageConfig::S3 {
        access_key: String::from("ak"),
        secret_key: String::from("SECRET-REDACTED"),
        endpoint: String::from("https://s3.example.com"),
        bucket: String::from("models"),
        region: String::from("eu-west-1"),
        cache_path: None,
    });
    let c = resolve(&no_env(), &Some(file), &data_dir, &cache_dir).unwrap();
    match c.storage {
        StorageOptions::S3 { bucket, cache_path, .. } => {
            assert_eq!(bucket, "models");
            assert_eq!(cache_path, "/home/u/.cache/tangram");
        }
        StorageOptions::Local { .. } => panic!("storage must be S3"),
    }
}

#[test]
fn local_storage_path_carries_over() {
    let (data_dir, cache_dir) = dirs();
    let mut file = empty_file_config();
    file.storage = Some(FileStorageConfig::Local {
        path: String::from("/srv/tangram"),
    });
    let c = resolve(&no_env(), &Some(file), &data_dir, &cache_dir).unwrap();
    match c.storage {
        StorageOptions::Local { path } => assert_eq!(path, "/srv/tangram"),
        StorageOptions::S3 { .. } => panic!("storage must be local"),
    }
}

#[test]
fn default_paths_are_under_the_data_dir() {
    let data_dir = String::from("/d");
    assert_eq!(default_database_url(&data_dir), "sqlite:/d/db/tangram.db");
    assert_eq!(default_storage_path(&data_dir), "/d/data");
}

fn plain_candidate(auth_requested: bool) -> CandidateOptions {
    CandidateOptions {
        auth_requested,
        cookie_domain: None,
        database: DatabaseOptions {
            max_connections: None,
            url: String::from("sqlite:/d/db/tangram.db"),
        },
        host: String::from("0.0.0.0"),
        license: None,
        port: 8080,
        smtp: None,
        storage: StorageOptions::Local {
            path: String::from("/d/data"),
        },
        url: None,
    }
}

#[test]
fn auth_requested_without_license_fails_startup() {
    let mut file = empty_file_config();
    file.auth_enable = Some(true);
    let (data_dir, cache_dir) = dirs();
    let c = resolve(&no_env(), &Some(file), &data_dir, &cache_dir).unwrap();
    assert!(c.auth_requested);
    assert!(c.license.is_none());
    let r = finalize(c, VerificationOutcome::NotAttempted);
    let err = r.unwrap_err();
    assert_eq!(err, GateError::LicenseRequired);
    assert!(err.message().contains("license"));
    assert_eq!(
        err.message(),
        "a license is required to enable authentication"
    );
}

#[test]
fn auth_requested_with_verified_license_grants_auth() {
    let r = finalize(plain_candidate(true), VerificationOutcome::Verified);
    let opts = r.unwrap();
    assert!(opts.auth.is_some());
    assert_eq!(opts.host, "0.0.0.0");
    assert_eq!(opts.port, 8080);
}

#[test]
fn auth_requested_with_rejected_license_fails_startup() {
    for reason in [RejectReason::MalformedArtifact, RejectReason::InvalidSignature] {
        let r = finalize(
            plain_candidate(true),
            VerificationOutcome::Rejected(reason),
        );
        let err = r.unwrap_err();
        assert_eq!(err, GateError::LicenseRejected);
        assert_eq!(err.message(), "failed to verify license");
    }
}

#[test]
fn auth_not_requested_ignores_the_outcome() {
    for outcome in [
        VerificationOutcome::Verified,
        VerificationOutcome::Rejected(RejectReason::InvalidSignature),
        VerificationOutcome::NotAttempted,
    ] {
        let opts = finalize(plain_candidate(false), outcome).unwrap();
        assert!(opts.auth.is_none());
    }
}

#[test]
fn auth_enable_false_means_not_requested() {
    let mut file = empty_file_config();
    file.auth_enable = Some(false);
    let (data_dir, cache_dir) = dirs();
    let c = resolve(&no_env(), &Some(file), &data_dir, &cache_dir).unwrap();
    assert!(!c.auth_requested);
}
