use vstd::prelude::*;

use crate::error::{TError, TResult};

verus! {

#[verifier::external_type_specification]
#[verifier::external_body]
pub struct ExSetLoggerError(log::SetLoggerError);

/// How much the logger lets through.
#[derive(Debug, Clone, Copy, PartialEq, Eq, Structural)]
pub enum LogLevel {
    Error,
    Warn,
    Info,
    Debug,
    Trace,
}

/// Where the logger writes.
#[derive(Debug, Clone, Copy, PartialEq, Eq, Structural)]
pub enum LogSink {
    Stdout,
    Stderr,
}

/// The settings the global logger is built from.
#[derive(Debug, Clone, Copy, PartialEq, Eq, Structural)]
pub struct LoggerConfig {
    pub level: LogLevel,
    pub sink: LogSink,
}

/// The logger the app runs with: records of level `Info` and above, written
/// to standard output.
pub fn logger_config() -> (c: LoggerConfig)
    ensures
        c.level == LogLevel::Info,
        c.sink == LogSink::Stdout,
{
    LoggerConfig { level: LogLevel::Info, sink: LogSink::Stdout }
}

/// Builds a `fern::Dispatch` with `Dispatch::level` set to the
/// `log::LevelFilter` of the same name as `config.level`, chains standard
/// output or standard error to it as `config.sink` says, and installs it as
/// the global logger with `Dispatch::apply`. Whether that succeeds depends on
/// whether a global logger was installed before in this process, so nothing
/// is promised of the result.
#[verifier::external_body]
fn setup_logger(config: LoggerConfig) -> (r: Result<(), log::SetLoggerError>) {
    let level = match config.level {
        LogLevel::Error => log::LevelFilter::Error,
        LogLevel::Warn => log::LevelFilter::Warn,
        LogLevel::Info => log::LevelFilter::Info,
        LogLevel::Debug => log::LevelFilter::Debug,
        LogLevel::Trace => log::LevelFilter::Trace,
    };
    let dispatch = fern::Dispatch::new().level(level);
    match config.sink {
        LogSink::Stdout => dispatch.chain(std::io::stdout()).apply(),
        LogSink::Stderr => dispatch.chain(std::io::stderr()).apply(),
    }
}

/// The text that `log::SetLoggerError` displays.
pub open spec fn set_logger_error_text() -> Seq<char> {
    "attempted to set a logger after the logging system was already initialized"@
}

/// The text of a `log::SetLoggerError`, through its `Display` impl
/// (`to_string`), which writes the log crate's fixed message.
#[verifier::external_body]
fn logger_error_text(e: &log::SetLoggerError) -> (r: String)
    ensures
        r@ == set_logger_error_text(),
{
    e.to_string()
}

/// What `init` answers for the outcome of installing the logger: success
/// stays success, and a refusal becomes `TError::Logger` with the log
/// crate's message.
pub fn logger_outcome(setup: Result<(), log::SetLoggerError>) -> (r: TResult<()>)
    ensures
        r is Ok <==> setup is Ok,
        r matches Err(e) ==> e.spec_message() == set_logger_error_text(),
{
    match setup {
        Ok(()) => Ok(()),
        Err(e) => Err(TError::Logger(logger_error_text(&e))),
    }
}

/// Sets up the state the app needs before it starts: installs the global
/// logger that `logger_config` describes.
pub fn init() -> (r: TResult<()>)
    ensures
        r matches Err(e) ==> e.spec_message() == set_logger_error_text(),
{
    logger_outcome(setup_logger(logger_config()))
}

} // verus!
