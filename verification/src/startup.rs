//! Start-up: the order of the steps that bring the application up, and the
//! settings that the log sink is started with.
//!
//! The steps themselves (reading a marker file, creating directories,
//! starting the sink) are the caller's work; here is what is decided.

use crate::text::starts_with;
use vstd::prelude::*;
use vstd::string::*;

verus! {

/// How far start-up has come.
#[derive(Clone, Copy, Debug, PartialEq, Eq, Structural)]
pub enum InitStage {
    /// Next: find out whether the application runs in portable mode.
    DetectPortable,
    /// Next: make sure that the directories exist.
    CreateDirectories,
    /// Next: configure and start the log sink.
    StartLogger,
    /// Every step succeeded.
    Ready,
    /// A step failed; start-up is given up.
    Failed,
}

/// The least severe level of the lines that are logged.
#[derive(Clone, Copy, Debug, PartialEq, Eq, Structural)]
pub enum LogLevel {
    Debug,
    Info,
}

/// What the log sink is started with.
#[derive(Clone, Copy, Debug, PartialEq, Eq, Structural)]
pub struct LoggerSettings {
    /// The level, for the log files and for the copy on standard output.
    pub level: LogLevel,
    /// The size in bytes at which a log file is rotated.
    pub max_file_bytes: u64,
    /// The number of rotated log files that are kept.
    pub keep_files: u32,
    /// Whether lines from the noisy modules are suppressed.
    pub filter_noise: bool,
}

/// The size of a log file, in KB, where none is configured.
pub const DEFAULT_LOG_MAX_SIZE: u32 = 128;

/// The number of log files kept where none is configured.
pub const DEFAULT_LOG_MAX_COUNT: u32 = 8;

/// The first part of the name of every log file.
pub open spec fn log_basename_text() -> Seq<char> {
    "app"@
}

/// What stands in the name of the log file that is being written, where a
/// rotated file has the time of its rotation.
pub open spec fn current_infix_text() -> Seq<char> {
    "latest"@
}

/// The extension of the log files.
pub open spec fn log_suffix_text() -> Seq<char> {
    "log"@
}

/// The name of the log file that the sink is writing to: base name, `_`,
/// infix, `.`, extension. Rotated files have other names.
pub open spec fn live_log_name_text() -> Seq<char> {
    log_basename_text() + seq!['_'] + current_infix_text() + seq!['.'] + log_suffix_text()
}

/// The stage that follows `stage` when its step succeeded or failed. The
/// steps run in a fixed order, and the first failure ends start-up.
pub open spec fn next_stage(stage: InitStage, succeeded: bool) -> InitStage {
    match stage {
        InitStage::DetectPortable => if succeeded {
            InitStage::CreateDirectories
        } else {
            InitStage::Failed
        },
        InitStage::CreateDirectories => if succeeded {
            InitStage::StartLogger
        } else {
            InitStage::Failed
        },
        InitStage::StartLogger => if succeeded {
            InitStage::Ready
        } else {
            InitStage::Failed
        },
        InitStage::Ready => InitStage::Ready,
        InitStage::Failed => InitStage::Failed,
    }
}

/// The settings of the log sink: in production, informational and with the
/// noise filter; in development, verbose and unfiltered. The thresholds come
/// from the configuration, with 128 KB and 8 files where it gives none.
pub open spec fn settings_for(
    log_max_size: Option<u32>,
    log_max_count: Option<u32>,
    production: bool,
) -> LoggerSettings {
    LoggerSettings {
        level: if production {
            LogLevel::Info
        } else {
            LogLevel::Debug
        },
        max_file_bytes: (match log_max_size {
            Some(kilobytes) => kilobytes,
            None => DEFAULT_LOG_MAX_SIZE,
        } * 1024) as u64,
        keep_files: match log_max_count {
            Some(count) => count,
            None => DEFAULT_LOG_MAX_COUNT,
        },
        filter_noise: production,
    }
}

/// The modules whose lines the noise filter suppresses.
pub open spec fn noise_modules() -> Seq<Seq<char>> {
    seq!["wry"@, "tauri"@, "tokio"@, "hyper"@]
}

/// Whether a line from the module `origin` is noise: the path starts
/// with the name of one of the noisy modules.
pub open spec fn is_noise(origin: Seq<char>) -> bool {
    exists|i: int|
        0 <= i < noise_modules().len() && (#[trigger] noise_modules()[i]).is_prefix_of(
            origin,
        )
}

/// Whether a line is written under `settings`; `origin` is the module
/// it comes from, where that is known.
pub open spec fn is_written(settings: LoggerSettings, origin: Option<Seq<char>>) -> bool {
    match origin {
        Some(path) => !(settings.filter_noise && is_noise(path)),
        None => true,
    }
}

/// The first part of the name of every log file.
pub fn log_basename() -> (name: &'static str)
    ensures
        name@ == log_basename_text(),
{
    "app"
}

/// The infix of the log file that is being written.
pub fn current_infix() -> (infix: &'static str)
    ensures
        infix@ == current_infix_text(),
{
    "latest"
}

/// The extension of the log files.
pub fn log_suffix() -> (suffix: &'static str)
    ensures
        suffix@ == log_suffix_text(),
{
    "log"
}

/// The form of the time that stands in the name of a rotated log file.
pub fn rotation_time_format() -> (format: &'static str)
    ensures
        format@ == "%Y-%m-%d_%H-%M-%S"@,
{
    "%Y-%m-%d_%H-%M-%S"
}

/// The name of the log file that the sink is writing to.
pub fn live_log_name() -> (name: String)
    ensures
        name@ == live_log_name_text(),
{
    proof {
        reveal_strlit("_");
        reveal_strlit(".");
        assert("_"@ =~= seq!['_']);
        assert("."@ =~= seq!['.']);
    }
    let base: String = log_basename().to_owned();
    base.concat("_").concat(current_infix()).concat(".").concat(log_suffix())
}

/// Starts start-up at its first step.
pub fn init_app() -> (stage: InitStage)
    ensures
        stage == InitStage::DetectPortable,
{
    InitStage::DetectPortable
}

impl InitStage {
    /// The stage after the step of this stage succeeded or failed.
    pub fn after(self, succeeded: bool) -> (next: InitStage)
        ensures
            next == next_stage(self, succeeded),
    {
        match self {
            InitStage::DetectPortable => if succeeded {
                InitStage::CreateDirectories
            } else {
                InitStage::Failed
            },
            InitStage::CreateDirectories => if succeeded {
                InitStage::StartLogger
            } else {
                InitStage::Failed
            },
            InitStage::StartLogger => if succeeded {
                InitStage::Ready
            } else {
                InitStage::Failed
            },
            InitStage::Ready => InitStage::Ready,
            InitStage::Failed => InitStage::Failed,
        }
    }

    /// Whether start-up is over, one way or the other.
    pub fn is_over(self) -> (over: bool)
        ensures
            over == (self == InitStage::Ready || self == InitStage::Failed),
    {
        match self {
            InitStage::Ready => true,
            InitStage::Failed => true,
            _ => false,
        }
    }
}

/// The settings that the log sink is started with.
pub fn logger_settings(
    log_max_size: Option<u32>,
    log_max_count: Option<u32>,
    production: bool,
) -> (settings: LoggerSettings)
    ensures
        settings == settings_for(log_max_size, log_max_count, production),
{
    let kilobytes: u32 = match log_max_size {
        Some(size) => size,
        None => DEFAULT_LOG_MAX_SIZE,
    };
    let keep_files: u32 = match log_max_count {
        Some(count) => count,
        None => DEFAULT_LOG_MAX_COUNT,
    };
    let wide: u64 = kilobytes as u64;
    LoggerSettings {
        level: if production {
            LogLevel::Info
        } else {
            LogLevel::Debug
        },
        max_file_bytes: wide * 1024,
        keep_files,
        filter_noise: production,
    }
}

/// Whether a line from the module `origin` is noise.
pub fn is_noise_module(origin: &str) -> (noise: bool)
    ensures
        noise == is_noise(origin@),
{
    let noise: bool = starts_with(origin, "wry") || starts_with(origin, "tauri")
        || starts_with(origin, "tokio") || starts_with(origin, "hyper");
    proof {
        let names = noise_modules();
        assert(names[0] == "wry"@ && names[1] == "tauri"@ && names[2] == "tokio"@ && names[3]
            == "hyper"@);
    }
    noise
}

impl LoggerSettings {
    /// Whether a line is written; `origin` is the module it comes
    /// from, where that is known.
    pub fn writes(&self, origin: Option<&str>) -> (written: bool)
        ensures
            written == is_written(
                *self,
                match origin {
                    Some(path) => Some(path@),
                    None => None,
                },
            ),
    {
        match origin {
            Some(path) => !(self.filter_noise && is_noise_module(path)),
            None => true,
        }
    }
}

/// Start-up becomes ready exactly when all three steps succeed; after a
/// failure nothing brings it back.
pub proof fn ready_needs_every_step(first: bool, second: bool, third: bool)
    ensures
        next_stage(next_stage(next_stage(InitStage::DetectPortable, first), second), third)
            == InitStage::Ready <==> first && second && third,
        !(first && second && third) ==> next_stage(
            next_stage(next_stage(InitStage::DetectPortable, first), second),
            third,
        ) == InitStage::Failed,
{
}

/// A failure is final, and so is success.
pub proof fn outcome_is_final(succeeded: bool)
    ensures
        next_stage(InitStage::Failed, succeeded) == InitStage::Failed,
        next_stage(InitStage::Ready, succeeded) == InitStage::Ready,
{
}

/// In development nothing is suppressed.
pub proof fn development_writes_everything(
    log_max_size: Option<u32>,
    log_max_count: Option<u32>,
    origin: Option<Seq<char>>,
)
    ensures
        is_written(settings_for(log_max_size, log_max_count, false), origin),
{
}

/// The live log file is `app_latest.log`.
pub proof fn live_log_name_is_app_latest_log()
    ensures
        live_log_name_text() == "app_latest.log"@,
{
    reveal_strlit("app");
    reveal_strlit("latest");
    reveal_strlit("log");
    reveal_strlit("app_latest.log");
    assert(live_log_name_text() =~= "app_latest.log"@);
}

} // verus!
