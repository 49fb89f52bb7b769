//! Configuration resolution: merging environment overrides, an optional
//! config file and compiled-in defaults into one set of resolved options,
//! and the fail-closed licensing gate over them.
//!
//! Resolution is a pure merge: the caller reads the environment and the
//! config file, hands their plain values in, and also supplies the user
//! data and cache directories that the defaults are rooted under.

use vstd::prelude::*;
use vstd::string::StrSliceExecFns;
use vstd::string::StringExecFns;

use crate::license::RejectReason;
use crate::license::VerificationOutcome;

verus! {

/// Overrides read from the process environment (`HOST`, `PORT`), as the
/// raw strings found there.
pub struct EnvOverrides {
    pub host: Option<String>,
    pub port: Option<String>,
}

/// The database section of the config file.
pub struct FileDatabaseConfig {
    pub max_connections: Option<u32>,
    pub url: String,
}

/// The SMTP section of the config file.
pub struct FileSmtpConfig {
    pub host: String,
    pub password: String,
    pub username: String,
}

/// The storage section of the config file.
pub enum FileStorageConfig {
    Local { path: String },
    S3 {
        access_key: String,
        secret_key: String,
        endpoint: String,
        bucket: String,
        region: String,
        cache_path: Option<String>,
    },
}

/// The recognized fields of the config file. Unrecognized fields were
/// already dropped by the reader; every field here is optional.
pub struct FileConfig {
    pub auth_enable: Option<bool>,
    pub cookie_domain: Option<String>,
    pub database: Option<FileDatabaseConfig>,
    pub host: Option<String>,
    pub license: Option<String>,
    pub port: Option<u16>,
    pub smtp: Option<FileSmtpConfig>,
    pub storage: Option<FileStorageConfig>,
    pub url: Option<String>,
}

/// The resolved database connection descriptor.
#[derive(Debug)]
pub struct DatabaseOptions {
    pub max_connections: Option<u32>,
    pub url: String,
}

/// The resolved SMTP credentials.
#[derive(Debug)]
pub struct SmtpOptions {
    pub host: String,
    pub password: String,
    pub username: String,
}

/// The resolved storage backend.
#[derive(Debug)]
pub enum StorageOptions {
    Local { path: String },
    S3 {
        access_key: String,
        secret_key: String,
        endpoint: String,
        bucket: String,
        region: String,
        cache_path: String,
    },
}

/// The auth capability. Present in resolved options only where gating
/// admitted it.
#[derive(Debug)]
pub struct AuthOptions {}

/// Everything resolution settles before the license gate runs: the merged
/// fields, whether auth was requested, and the license artifact path.
#[derive(Debug)]
pub struct CandidateOptions {
    pub auth_requested: bool,
    pub cookie_domain: Option<String>,
    pub database: DatabaseOptions,
    pub host: String,
    pub license: Option<String>,
    pub port: u16,
    pub smtp: Option<SmtpOptions>,
    pub storage: StorageOptions,
    pub url: Option<String>,
}

/// The final, immutable options the rest of the system consumes.
#[derive(Debug)]
pub struct ResolvedOptions {
    pub auth: Option<AuthOptions>,
    pub cookie_domain: Option<String>,
    pub database: DatabaseOptions,
    pub host: String,
    pub port: u16,
    pub smtp: Option<SmtpOptions>,
    pub storage: StorageOptions,
    pub url: Option<String>,
}

/// A malformed environment override. Fatal at startup.
#[derive(Clone, Copy, Debug, PartialEq, Eq, Structural)]
pub enum ConfigError {
    InvalidEnvValue,
}

/// A gate failure. Fatal at startup: the process must not start with auth
/// silently disabled.
#[derive(Clone, Copy, Debug, PartialEq, Eq, Structural)]
pub enum GateError {
    /// Auth was requested but no license artifact path was configured.
    LicenseRequired,
    /// Auth was requested and the license artifact was rejected.
    LicenseRejected,
}

impl GateError {
    /// The startup diagnostic for this gate failure. A rejected license
    /// reads the same whether the artifact was garbage or almost valid,
    /// so a forger learns nothing from the wording.
    pub fn message(&self) -> (r: String)
        ensures
            (match self {
                GateError::LicenseRequired => r@ == "a license is required to enable authentication"@,
                GateError::LicenseRejected => r@ == "failed to verify license"@,
            }),
    {
        match self {
            GateError::LicenseRequired => String::from_str("a license is required to enable authentication"),
            GateError::LicenseRejected => String::from_str("failed to verify license"),
        }
    }
}

/// A decimal digit.
pub open spec fn is_dec_digit(c: char) -> bool {
    48 <= c as u32 <= 57
}

/// The numeric value of a digit character.
pub open spec fn digit_val(c: char) -> int {
    c as u32 - 48
}

/// Whether every character is a decimal digit.
pub open spec fn all_dec_digits(s: Seq<char>) -> bool {
    forall|i: int| 0 <= i < s.len() ==> is_dec_digit(s[i])
}

/// The value of a string read as a decimal number.
pub open spec fn dec_value(s: Seq<char>) -> int
    decreases s.len(),
{
    if s.len() == 0 {
        0
    } else {
        dec_value(s.drop_last()) * 10 + digit_val(s.last())
    }
}

/// A valid `PORT` override: non-empty, all digits, and within `u16`.
pub open spec fn valid_port_str(s: Seq<char>) -> bool {
    s.len() > 0 && all_dec_digits(s) && dec_value(s) <= 65535
}

/// Parse a decimal port number. Returns `Some` exactly on valid port
/// strings, and then the decimal value.
pub fn parse_port(s: &String) -> (r: Option<u16>)
    ensures
        r is Some <==> valid_port_str(s@),
        (match r {
            Some(p) => p as int == dec_value(s@),
            None => true,
        }),
{
    let st = s.as_str();
    let n = st.unicode_len();
    if n == 0 {
        return None;
    }
    let mut value: u32 = 0;
    let mut too_big: bool = false;
    let mut i: usize = 0;
    while i < n
        invariant
            st@ == s@,
            n == s@.len(),
            i <= n,
            forall|j: int| 0 <= j < i ==> is_dec_digit(s@[j]),
            !too_big ==> value == dec_value(s@.take(i as int)) && value <= 65535,
            too_big ==> dec_value(s@.take(i as int)) > 65535,
        decreases n - i,
    {
        let c = st.get_char(i);
        let cv = c as u32;
        if cv < 48 || cv > 57 {
            proof {
                assert(!is_dec_digit(s@[i as int]));
            }
            return None;
        }
        let d = cv - 48;
        proof {
            assert(s@.take(i + 1).drop_last() =~= s@.take(i as int));
            assert(s@.take(i + 1).last() == s@[i as int]);
        }
        if !too_big {
            let v2 = value * 10 + d;
            if v2 > 65535 {
                too_big = true;
            } else {
                value = v2;
            }
        }
        i = i + 1;
    }
    proof {
        assert(s@.take(n as int) =~= s@);
    }
    if too_big {
        return None;
    }
    Some(value as u16)
}

/// The host the config file offers, if any.
pub open spec fn file_host(file: Option<FileConfig>) -> Option<Seq<char>> {
    match file {
        Some(f) => match f.host {
            Some(h) => Some(h@),
            None => None,
        },
        None => None,
    }
}

/// The port the config file offers, or the default.
pub open spec fn file_port_or_default(file: Option<FileConfig>) -> int {
    match file {
        Some(f) => match f.port {
            Some(p) => p as int,
            None => 8080,
        },
        None => 8080,
    }
}

/// Whether the config file requests the auth feature.
pub open spec fn auth_requested_by(file: Option<FileConfig>) -> bool {
    match file {
        Some(f) => f.auth_enable == Some(true),
        None => false,
    }
}

/// The license artifact path the config file offers, if any.
pub open spec fn file_license(file: Option<FileConfig>) -> Option<Seq<char>> {
    match file {
        Some(f) => match f.license {
            Some(l) => Some(l@),
            None => None,
        },
        None => None,
    }
}

/// The cookie domain the config file offers, if any.
pub open spec fn file_cookie_domain(file: Option<FileConfig>) -> Option<Seq<char>> {
    match file {
        Some(f) => match f.cookie_domain {
            Some(d) => Some(d@),
            None => None,
        },
        None => None,
    }
}

/// The public base URL the config file offers, if any.
pub open spec fn file_url(file: Option<FileConfig>) -> Option<Seq<char>> {
    match file {
        Some(f) => match f.url {
            Some(u) => Some(u@),
            None => None,
        },
        None => None,
    }
}

/// The default database URL: a SQLite file under the user data directory.
pub open spec fn spec_default_database_url(data_dir: Seq<char>) -> Seq<char> {
    "sqlite:"@ + data_dir + "/db/tangram.db"@
}

/// The default local storage path under the user data directory.
pub open spec fn spec_default_storage_path(data_dir: Seq<char>) -> Seq<char> {
    data_dir + "/data"@
}

/// Build the default database URL for the given user data directory.
pub fn default_database_url(data_dir: &String) -> (r: String)
    ensures
        r@ == spec_default_database_url(data_dir@),
{
    let mut url = String::from_str("sqlite:");
    url.append(data_dir.as_str());
    url.append("/db/tangram.db");
    url
}

/// Build the default local storage path for the given user data directory.
pub fn default_storage_path(data_dir: &String) -> (r: String)
    ensures
        r@ == spec_default_storage_path(data_dir@),
{
    let mut path = data_dir.clone();
    path.append("/data");
    path
}

/// The database section the config file offers: URL and connection cap.
pub open spec fn file_database(file: Option<FileConfig>) -> Option<(Seq<char>, Option<u32>)> {
    match file {
        Some(f) => match f.database {
            Some(db) => Some((db.url@, db.max_connections)),
            None => None,
        },
        None => None,
    }
}

/// The SMTP section the config file offers: host, username, password.
pub open spec fn file_smtp(file: Option<FileConfig>) -> Option<(Seq<char>, Seq<char>, Seq<char>)> {
    match file {
        Some(f) => match f.smtp {
            Some(sm) => Some((sm.host@, sm.username@, sm.password@)),
            None => None,
        },
        None => None,
    }
}

/// Whether a resolved database descriptor is the right merge of the file
/// section and the default.
pub open spec fn database_resolved(db: DatabaseOptions, file: Option<FileConfig>, data_dir: Seq<char>) -> bool {
    match file_database(file) {
        Some(fd) => db.url@ == fd.0 && db.max_connections == fd.1,
        None => db.url@ == spec_default_database_url(data_dir) && db.max_connections is None,
    }
}

/// Whether resolved SMTP credentials are the right merge of the file
/// section and the default (unset).
pub open spec fn smtp_resolved(smtp: Option<SmtpOptions>, file: Option<FileConfig>) -> bool {
    match file_smtp(file) {
        Some(fs) => smtp matches Some(o) && o.host@ == fs.0 && o.username@ == fs.1 && o.password@
            == fs.2,
        None => smtp is None,
    }
}

/// Whether a resolved storage backend is the right merge of the file
/// section and the default: local filesystem storage under the user data
/// directory, and for S3 a cache path defaulting to the user cache
/// directory.
pub open spec fn storage_resolved(
    st: StorageOptions,
    file: Option<FileConfig>,
    data_dir: Seq<char>,
    cache_dir: Seq<char>,
) -> bool {
    match file {
        Some(f) => match f.storage {
            Some(FileStorageConfig::Local { path }) => st matches StorageOptions::Local {
                path: p,
            } && p@ == path@,
            Some(
                FileStorageConfig::S3 {
                    access_key,
                    secret_key,
                    endpoint,
                    bucket,
                    region,
                    cache_path,
                },
            ) => st matches StorageOptions::S3 {
                access_key: a,
                secret_key: s,
                endpoint: e,
                bucket: b,
                region: rg,
                cache_path: cp,
            } && a@ == access_key@ && s@ == secret_key@ && e@ == endpoint@ && b@ == bucket@ && rg@
                == region@ && cp@ == (match cache_path {
                Some(c) => c@,
                None => cache_dir,
            }),
            None => st matches StorageOptions::Local { path: p } && p@ == spec_default_storage_path(
                data_dir,
            ),
        },
        None => st matches StorageOptions::Local { path: p } && p@ == spec_default_storage_path(
            data_dir,
        ),
    }
}

/// Merge the environment overrides, the optional config file and the
/// compiled-in defaults into candidate options, each field by its own
/// precedence, independently of the others. Pure: the caller supplies the
/// user data and cache directories the defaults are rooted under. Fails
/// exactly when a `PORT` override is present but not a valid port number.
pub fn resolve(
    env: &EnvOverrides,
    file: &Option<FileConfig>,
    data_dir: &String,
    cache_dir: &String,
) -> (r: Result<CandidateOptions, ConfigError>)
    ensures
        r is Err <==> (env.port matches Some(p) && !valid_port_str(p@)),
        r is Err ==> r == Err::<CandidateOptions, ConfigError>(ConfigError::InvalidEnvValue),
        (match r {
            Ok(c) => {
                &&& c.host@ == (match env.host {
                    Some(h) => h@,
                    None => match file_host(*file) {
                        Some(h) => h,
                        None => "0.0.0.0"@,
                    },
                })
                &&& c.port as int == (match env.port {
                    Some(p) => dec_value(p@),
                    None => file_port_or_default(*file),
                })
                &&& c.auth_requested == auth_requested_by(*file)
                &&& (match file_license(*file) {
                    Some(l) => c.license matches Some(cl) && cl@ == l,
                    None => c.license is None,
                })
                &&& (match file_cookie_domain(*file) {
                    Some(d) => c.cookie_domain matches Some(cd) && cd@ == d,
                    None => c.cookie_domain is None,
                })
                &&& (match file_url(*file) {
                    Some(u) => c.url matches Some(cu) && cu@ == u,
                    None => c.url is None,
                })
                &&& database_resolved(c.database, *file, data_dir@)
                &&& smtp_resolved(c.smtp, *file)
                &&& storage_resolved(c.storage, *file, data_dir@, cache_dir@)
            },
            Err(_) => true,
        }),
{
    let port: u16 = match &env.port {
        Some(p) => match parse_port(p) {
            Some(v) => v,
            None => {
                return Err(ConfigError::InvalidEnvValue);
            },
        },
        None => match file {
            Some(f) => match f.port {
                Some(p) => p,
                None => 8080,
            },
            None => 8080,
        },
    };
    let host: String = match &env.host {
        Some(h) => h.clone(),
        None => match file {
            Some(f) => match &f.host {
                Some(h) => h.clone(),
                None => String::from_str("0.0.0.0"),
            },
            None => String::from_str("0.0.0.0"),
        },
    };
    let auth_requested: bool = match file {
        Some(f) => match f.auth_enable {
            Some(b) => b,
            None => false,
        },
        None => false,
    };
    let license: Option<String> = match file {
        Some(f) => match &f.license {
            Some(l) => Some(l.clone()),
            None => None,
        },
        None => None,
    };
    let cookie_domain: Option<String> = match file {
        Some(f) => match &f.cookie_domain {
            Some(d) => Some(d.clone()),
            None => None,
        },
        None => None,
    };
    let url: Option<String> = match file {
        Some(f) => match &f.url {
            Some(u) => Some(u.clone()),
            None => None,
        },
        None => None,
    };
    let database: DatabaseOptions = match file {
        Some(f) => match &f.database {
            Some(db) => DatabaseOptions { max_connections: db.max_connections, url: db.url.clone() },
            None => DatabaseOptions { max_connections: None, url: default_database_url(data_dir) },
        },
        None => DatabaseOptions { max_connections: None, url: default_database_url(data_dir) },
    };
    let smtp: Option<SmtpOptions> = match file {
        Some(f) => match &f.smtp {
            Some(sm) => Some(
                SmtpOptions {
                    host: sm.host.clone(),
                    password: sm.password.clone(),
                    username: sm.username.clone(),
                },
            ),
            None => None,
        },
        None => None,
    };
    let storage: StorageOptions = match file {
        Some(f) => match &f.storage {
            Some(FileStorageConfig::Local { path }) => StorageOptions::Local { path: path.clone() },
            Some(FileStorageConfig::S3 { access_key, secret_key, endpoint, bucket, region, cache_path }) => {
                let cp: String = match cache_path {
                    Some(c) => c.clone(),
                    None => cache_dir.clone(),
                };
                StorageOptions::S3 {
                    access_key: access_key.clone(),
                    secret_key: secret_key.clone(),
                    endpoint: endpoint.clone(),
                    bucket: bucket.clone(),
                    region: region.clone(),
                    cache_path: cp,
                }
            },
            None => StorageOptions::Local { path: default_storage_path(data_dir) },
        },
        None => StorageOptions::Local { path: default_storage_path(data_dir) },
    };
    Ok(
        CandidateOptions {
            auth_requested,
            cookie_domain,
            database,
            host,
            license,
            port,
            smtp,
            storage,
            url,
        },
    )
}

/// The candidate's fields carried into final options, with the auth
/// capability present exactly when gating granted it.
pub open spec fn spec_granted(c: CandidateOptions, with_auth: bool) -> ResolvedOptions {
    ResolvedOptions {
        auth: if with_auth {
            Some(AuthOptions {  })
        } else {
            None
        },
        cookie_domain: c.cookie_domain,
        database: c.database,
        host: c.host,
        port: c.port,
        smtp: c.smtp,
        storage: c.storage,
        url: c.url,
    }
}

/// The fail-closed gating policy. When auth was not requested the outcome
/// is irrelevant and the capability is absent; when it was requested, only
/// a verified license grants it, a rejected license is fatal, and a
/// missing license is fatal too.
pub open spec fn spec_finalize(c: CandidateOptions, outcome: VerificationOutcome) -> Result<
    ResolvedOptions,
    GateError,
> {
    if c.auth_requested {
        match outcome {
            VerificationOutcome::Verified => Ok(spec_granted(c, true)),
            VerificationOutcome::Rejected(_) => Err(GateError::LicenseRejected),
            VerificationOutcome::NotAttempted => Err(GateError::LicenseRequired),
        }
    } else {
        Ok(spec_granted(c, false))
    }
}

/// Apply the fail-closed gate to candidate options and a verification
/// outcome, producing the final options or a fatal startup error.
pub fn finalize(c: CandidateOptions, outcome: VerificationOutcome) -> (r: Result<
    ResolvedOptions,
    GateError,
>)
    ensures
        r == spec_finalize(c, outcome),
{
    if c.auth_requested {
        match outcome {
            VerificationOutcome::Verified => Ok(
                ResolvedOptions {
                    auth: Some(AuthOptions {  }),
                    cookie_domain: c.cookie_domain,
                    database: c.database,
                    host: c.host,
                    port: c.port,
                    smtp: c.smtp,
                    storage: c.storage,
                    url: c.url,
                },
            ),
            VerificationOutcome::Rejected(_) => Err(GateError::LicenseRejected),
            VerificationOutcome::NotAttempted => Err(GateError::LicenseRequired),
        }
    } else {
        Ok(
            ResolvedOptions {
                auth: None,
                cookie_domain: c.cookie_domain,
                database: c.database,
                host: c.host,
                port: c.port,
                smtp: c.smtp,
                storage: c.storage,
                url: c.url,
            },
        )
    }
}

/// Law: gating is fail-closed. Options that carry the auth capability
/// exist only where auth was requested and the license was verified; no
/// rejection, absence or ambiguity ever grants it.
pub proof fn lemma_gate_fail_closed(
    c: CandidateOptions,
    outcome: VerificationOutcome,
    opts: ResolvedOptions,
)
    requires
        spec_finalize(c, outcome) == Ok::<ResolvedOptions, GateError>(opts),
    ensures
        opts.auth is Some <==> (c.auth_requested && outcome is Verified),
{
}

} // verus!
