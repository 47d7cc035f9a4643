//! The configuration of the application, made from what its environment
//! sets and the defaults for what it leaves unset.

use vstd::prelude::*;
use crate::execution::service::{EngineConfig, MAX_TIMEOUT_SECS};
use crate::text::{lowercased, parse_u64, parsed_u64, same_text, text_of, to_lowercase};

verus! {

/// Application configuration.
#[derive(Debug, Clone)]
pub struct Config {
    pub db_host: String,
    pub db_port: String,
    pub db_user: String,
    pub db_pass: String,
    pub db_namespace: String,
    pub db_database: String,
    pub jwt_secret: String,
    pub jwt_expiry_hours: u64,
    pub aws_region: String,
    pub s3_bucket: String,
    pub s3_prefix: String,
    pub api_version: String,
    pub environment: String,
    pub code_execution_timeout_secs: u64,
}

/// What the environment sets, variable by variable; `None` where a
/// variable is unset.
#[derive(Debug, Clone)]
pub struct Environment {
    pub surrealdb_host: Option<String>,
    pub surrealdb_port: Option<String>,
    pub surrealdb_user: Option<String>,
    pub surrealdb_pass: Option<String>,
    pub surrealdb_ns: Option<String>,
    pub surrealdb_db: Option<String>,
    pub jwt_secret: Option<String>,
    pub jwt_expiry_hours: Option<String>,
    pub aws_region: Option<String>,
    pub s3_bucket: Option<String>,
    pub s3_prefix: Option<String>,
    pub api_version: Option<String>,
    pub environment: Option<String>,
    pub code_execution_timeout_secs: Option<String>,
}

/// Mathematical content of a [`Config`].
pub struct ConfigView {
    pub db_host: Seq<char>,
    pub db_port: Seq<char>,
    pub db_user: Seq<char>,
    pub db_pass: Seq<char>,
    pub db_namespace: Seq<char>,
    pub db_database: Seq<char>,
    pub jwt_secret: Seq<char>,
    pub jwt_expiry_hours: u64,
    pub aws_region: Seq<char>,
    pub s3_bucket: Seq<char>,
    pub s3_prefix: Seq<char>,
    pub api_version: Seq<char>,
    pub environment: Seq<char>,
    pub code_execution_timeout_secs: u64,
}

impl View for Config {
    type V = ConfigView;

    open spec fn view(&self) -> ConfigView {
        ConfigView {
            db_host: self.db_host@,
            db_port: self.db_port@,
            db_user: self.db_user@,
            db_pass: self.db_pass@,
            db_namespace: self.db_namespace@,
            db_database: self.db_database@,
            jwt_secret: self.jwt_secret@,
            jwt_expiry_hours: self.jwt_expiry_hours,
            aws_region: self.aws_region@,
            s3_bucket: self.s3_bucket@,
            s3_prefix: self.s3_prefix@,
            api_version: self.api_version@,
            environment: self.environment@,
            code_execution_timeout_secs: self.code_execution_timeout_secs,
        }
    }
}

/// The text of a variable, or `default` where it is unset.
pub open spec fn text_or(value: Option<Seq<char>>, default: Seq<char>) -> Seq<char> {
    match value {
        Some(text) => text,
        None => default,
    }
}

/// The number of a variable, or `default` where it is unset or writes no
/// number.
pub open spec fn number_or(value: Option<Seq<char>>, default: u64) -> u64 {
    match value {
        Some(text) => match parsed_u64(text) {
            Some(number) => number,
            None => default,
        },
        None => default,
    }
}

/// The configuration that `env` amounts to.
pub open spec fn configured(env: Environment) -> ConfigView {
    ConfigView {
        db_host: text_or(text_of(env.surrealdb_host), "localhost"@),
        db_port: text_or(text_of(env.surrealdb_port), "8000"@),
        db_user: text_or(text_of(env.surrealdb_user), "root"@),
        db_pass: text_or(text_of(env.surrealdb_pass), "root"@),
        db_namespace: text_or(text_of(env.surrealdb_ns), "code_learning_platform"@),
        db_database: text_or(text_of(env.surrealdb_db), "code_learning_platform"@),
        jwt_secret: text_or(text_of(env.jwt_secret), "kaiju_academy_secret_key"@),
        jwt_expiry_hours: number_or(text_of(env.jwt_expiry_hours), 24),
        aws_region: text_or(text_of(env.aws_region), "us-east-1"@),
        s3_bucket: text_or(text_of(env.s3_bucket), "kaiju-academy-assets"@),
        s3_prefix: text_or(text_of(env.s3_prefix), "dev/"@),
        api_version: text_or(text_of(env.api_version), "v1"@),
        environment: text_or(text_of(env.environment), "development"@),
        code_execution_timeout_secs: number_or(text_of(env.code_execution_timeout_secs), 5),
    }
}

fn value_or(value: &Option<String>, default: &str) -> (r: String)
    ensures
        r@ == text_or(text_of(*value), default@),
{
    match value {
        Some(text) => text.clone(),
        None => default.to_string(),
    }
}

fn value_or_number(value: &Option<String>, default: u64) -> (r: u64)
    ensures
        r == number_or(text_of(*value), default),
{
    match value {
        Some(text) => match parse_u64(text.as_str()) {
            Some(number) => number,
            None => default,
        },
        None => default,
    }
}

impl Config {
    /// Makes the configuration from what the environment sets. A variable
    /// that is unset takes its default, and so does a numeric variable
    /// whose text writes no number.
    pub fn from_values(env: &Environment) -> (r: Config)
        ensures
            r@ == configured(*env),
    {
        Config {
            db_host: value_or(&env.surrealdb_host, "localhost"),
            db_port: value_or(&env.surrealdb_port, "8000"),
            db_user: value_or(&env.surrealdb_user, "root"),
            db_pass: value_or(&env.surrealdb_pass, "root"),
            db_namespace: value_or(&env.surrealdb_ns, "code_learning_platform"),
            db_database: value_or(&env.surrealdb_db, "code_learning_platform"),
            jwt_secret: value_or(&env.jwt_secret, "kaiju_academy_secret_key"),
            jwt_expiry_hours: value_or_number(&env.jwt_expiry_hours, 24),
            aws_region: value_or(&env.aws_region, "us-east-1"),
            s3_bucket: value_or(&env.s3_bucket, "kaiju-academy-assets"),
            s3_prefix: value_or(&env.s3_prefix, "dev/"),
            api_version: value_or(&env.api_version, "v1"),
            environment: value_or(&env.environment, "development"),
            code_execution_timeout_secs: value_or_number(&env.code_execution_timeout_secs, 5),
        }
    }

    /// Is the application running in production mode?
    pub fn is_production(&self) -> (r: bool)
        ensures
            r == (self@.environment == "production"@),
    {
        same_text(self.environment.as_str(), "production")
    }

    /// Get the full S3 path for a file: the configured prefix, then the
    /// path of the file.
    pub fn s3_path(&self, file_path: &str) -> (r: String)
        ensures
            r@ == self@.s3_prefix + file_path@,
    {
        self.s3_prefix.clone().concat(file_path)
    }

    /// The address of the record store: `ws://`, the host, a colon, the
    /// port.
    pub fn db_address(&self) -> (r: String)
        ensures
            r@ == "ws://"@ + self@.db_host + ":"@ + self@.db_port,
    {
        "ws://".to_string().concat(self.db_host.as_str()).concat(":").concat(self.db_port.as_str())
    }

    /// The limits that executions run under: the standard ones, with the
    /// configured timeout as the default of a run that asks for none.
    pub fn engine(&self) -> (r: EngineConfig)
        ensures
            r == (EngineConfig {
                default_timeout: self@.code_execution_timeout_secs,
                max_timeout: MAX_TIMEOUT_SECS,
                max_concurrent_executions: 4,
                output_byte_limit: 65536,
                memory_ceiling: 268435456,
            }),
    {
        let standard = EngineConfig::standard();
        EngineConfig {
            default_timeout: self.code_execution_timeout_secs,
            max_timeout: standard.max_timeout,
            max_concurrent_executions: standard.max_concurrent_executions,
            output_byte_limit: standard.output_byte_limit,
            memory_ceiling: standard.memory_ceiling,
        }
    }
}

/// How much is logged.
#[derive(Debug, Clone, Copy, PartialEq, Eq, Structural)]
pub enum LogLevel {
    Trace,
    Debug,
    Info,
    Warn,
    Error,
}

/// The level that the lowercase name `name` stands for; `Info` where it
/// stands for none.
pub open spec fn level_named(name: Seq<char>) -> LogLevel {
    if name == "trace"@ {
        LogLevel::Trace
    } else if name == "debug"@ {
        LogLevel::Debug
    } else if name == "warn"@ {
        LogLevel::Warn
    } else if name == "error"@ {
        LogLevel::Error
    } else {
        LogLevel::Info
    }
}

/// The level that the environment asks for: the one that the value names,
/// in any case of letters, and `Info` where the variable is unset or names
/// none.
pub open spec fn log_level_of(value: Option<Seq<char>>) -> LogLevel {
    match value {
        Some(text) => level_named(lowercased(text)),
        None => LogLevel::Info,
    }
}

/// The level named by a name that is in lowercase already.
pub fn level_from_name(name: &str) -> (r: LogLevel)
    ensures
        r == level_named(name@),
{
    if same_text(name, "trace") {
        LogLevel::Trace
    } else if same_text(name, "debug") {
        LogLevel::Debug
    } else if same_text(name, "warn") {
        LogLevel::Warn
    } else if same_text(name, "error") {
        LogLevel::Error
    } else {
        LogLevel::Info
    }
}

/// Chooses the level of logging from what the environment sets.
pub fn log_level(value: Option<&str>) -> (r: LogLevel)
    ensures
        r == log_level_of(
            match value {
                Some(text) => Some(text@),
                None => None,
            },
        ),
{
    match value {
        Some(text) => level_from_name(to_lowercase(text).as_str()),
        None => LogLevel::Info,
    }
}

} // verus!
