//! The stored preferences, and how they combine with what the command line
//! says.
//!
//! The file itself is the caller's: it reads and parses, writes and reports,
//! and this module decides what follows.

use crate::logger::{LogEntry, LogLevel};
use crate::models::RsOcrError;
use crate::text::opt_text;
use vstd::prelude::*;
use vstd::string::*;

verus! {

/// The stored preferences: an image file and the address of the service.
#[derive(Debug, Clone)]
pub struct Config {
    pub file: Option<String>,
    pub url: Option<String>,
}

/// What a `Config` holds, as values.
pub struct ConfigView {
    pub file: Option<Seq<char>>,
    pub url: Option<Seq<char>>,
}

impl View for Config {
    type V = ConfigView;

    open spec fn view(&self) -> ConfigView {
        ConfigView { file: opt_text(self.file), url: opt_text(self.url) }
    }
}

/// The address that is used where none is stored and none is given.
pub open spec fn default_url_text() -> Seq<char> {
    "http://127.0.0.1:1224/api/ocr"@
}

/// The message of the error where no image file can be had.
pub open spec fn missing_file_text() -> Seq<char> {
    "必须提供图片文件路径"@
}

/// The first of two optional values that is there.
pub open spec fn first_of(first: Option<Seq<char>>, second: Option<Seq<char>>) -> Option<
    Seq<char>,
> {
    if first is Some {
        first
    } else {
        second
    }
}

impl ConfigView {
    /// The preferences of a first run: no file, the default address.
    pub open spec fn initial() -> ConfigView {
        ConfigView { file: None, url: Some(default_url_text()) }
    }

    /// The effective file and address: what is given wins over what is
    /// stored, and the address falls back to the default. Without a file
    /// there is no result.
    pub open spec fn resolve(self, file: Option<Seq<char>>, url: Option<Seq<char>>) -> Option<
        (Seq<char>, Seq<char>),
    > {
        match first_of(file, self.file) {
            Some(f) => Some(
                (
                    f,
                    match first_of(url, self.url) {
                        Some(u) => u,
                        None => default_url_text(),
                    },
                ),
            ),
            None => None,
        }
    }

    /// The preferences after what is given has been taken over.
    pub open spec fn updated(self, file: Option<Seq<char>>, url: Option<Seq<char>>) -> ConfigView {
        ConfigView { file: first_of(file, self.file), url: first_of(url, self.url) }
    }
}

/// What became of reading the stored preferences.
#[derive(Debug)]
pub enum LoadOutcome {
    /// There is no file.
    Missing,
    /// The file could not be read; the words say why.
    Unreadable(String),
    /// The file does not hold preferences; the words say why.
    Malformed(String),
    /// The file holds these preferences.
    Parsed(Config),
}

/// What became of storing the preferences.
#[derive(Debug)]
pub enum SaveOutcome {
    /// The preferences could not be put into the file's format.
    NotSerialized(String),
    /// The file could not be written.
    NotWritten(String),
    /// The file was written.
    Written,
}

/// The words that introduce the record of a file that could not be read.
pub open spec fn unreadable_text(words: Seq<char>) -> Seq<char> {
    "读取配置文件失败: "@ + words
}

/// The words that introduce the record of a file that holds something else.
pub open spec fn malformed_text(words: Seq<char>) -> Seq<char> {
    "配置文件格式错误: "@ + words
}

fn copy_of(value: &Option<String>) -> (copy: Option<String>)
    ensures
        copy == *value,
{
    match value {
        Some(s) => Some(s.clone()),
        None => None,
    }
}

impl Default for Config {
    /// The preferences of a first run.
    fn default() -> (config: Config)
        ensures
            config@ == ConfigView::initial(),
    {
        Config { file: None, url: Some(String::from_str("http://127.0.0.1:1224/api/ocr")) }
    }
}

impl Config {
    /// The preferences to go on with after an attempt to read them, and the
    /// record to log, if any. Only a file that was read and parsed is used;
    /// every failure falls back to the preferences of a first run, and a file
    /// that is there but useless is logged as an error.
    pub fn load(outcome: LoadOutcome) -> (loaded: (Config, Option<LogEntry>))
        ensures
            match outcome {
                LoadOutcome::Missing => loaded.0@ == ConfigView::initial() && loaded.1 is None,
                LoadOutcome::Unreadable(words) => loaded.0@ == ConfigView::initial() && (loaded.1
                    matches Some(e) && e.holds(LogLevel::Error, unreadable_text(words@))),
                LoadOutcome::Malformed(words) => loaded.0@ == ConfigView::initial() && (loaded.1
                    matches Some(e) && e.holds(LogLevel::Error, malformed_text(words@))),
                LoadOutcome::Parsed(config) => loaded.0 == config && loaded.1 is None,
            },
    {
        match outcome {
            LoadOutcome::Missing => (Config::default(), None),
            LoadOutcome::Unreadable(words) => {
                let message: String = String::from_str("读取配置文件失败: ").concat(
                    words.as_str(),
                );
                (Config::default(), Some(LogEntry { level: LogLevel::Error, message }))
            },
            LoadOutcome::Malformed(words) => {
                let message: String = String::from_str("配置文件格式错误: ").concat(
                    words.as_str(),
                );
                (Config::default(), Some(LogEntry { level: LogLevel::Error, message }))
            },
            LoadOutcome::Parsed(config) => (config, None),
        }
    }

    /// The result of storing the preferences: preferences that could not be
    /// put into the file's format are an error of the kind `Config`, a file
    /// that could not be written is one of the kind `Io`.
    pub fn save(outcome: SaveOutcome) -> (saved: Result<(), RsOcrError>)
        ensures
            match outcome {
                SaveOutcome::NotSerialized(words) => saved == Err::<(), RsOcrError>(
                    RsOcrError::Config(words),
                ),
                SaveOutcome::NotWritten(words) => saved == Err::<(), RsOcrError>(
                    RsOcrError::Io(words),
                ),
                SaveOutcome::Written => saved is Ok,
            },
    {
        match outcome {
            SaveOutcome::NotSerialized(words) => Err(RsOcrError::Config(words)),
            SaveOutcome::NotWritten(words) => Err(RsOcrError::Io(words)),
            SaveOutcome::Written => Ok(()),
        }
    }

    /// The effective file and address: what the command line gives wins over
    /// what is stored, and the address falls back to the default. Without a
    /// file from either source the result is an error of the kind `Config`.
    pub fn merge_with_args(&self, args_file: Option<String>, args_url: Option<String>) -> (merged:
        Result<(String, String), RsOcrError>)
        ensures
            match self@.resolve(opt_text(args_file), opt_text(args_url)) {
                Some(pair) => merged matches Ok(found) && found.0@ == pair.0 && found.1@
                    == pair.1,
                None => merged matches Err(RsOcrError::Config(m)) && m@ == missing_file_text(),
            },
    {
        let file: Option<String> = match args_file {
            Some(f) => Some(f),
            None => copy_of(&self.file),
        };
        let url: Option<String> = match args_url {
            Some(u) => Some(u),
            None => copy_of(&self.url),
        };
        match file {
            Some(f) => {
                let u: String = match url {
                    Some(u) => u,
                    None => String::from_str("http://127.0.0.1:1224/api/ocr"),
                };
                Ok((f, u))
            },
            None => Err(RsOcrError::Config(String::from_str("必须提供图片文件路径"))),
        }
    }

    /// Takes over what the command line gives; what it does not give stays.
    pub fn update_with_args(&mut self, args_file: Option<String>, args_url: Option<String>)
        ensures
            final(self)@ == old(self)@.updated(opt_text(args_file), opt_text(args_url)),
    {
        if let Some(file) = args_file {
            self.file = Some(file);
        }
        if let Some(url) = args_url {
            self.url = Some(url);
        }
    }
}

/// What the command line gives for both the file and the address is the
/// result, whatever is stored.
pub proof fn lemma_overrides_dominate(stored: ConfigView, file: Seq<char>, url: Seq<char>)
    ensures
        stored.resolve(Some(file), Some(url)) == Some((file, url)),
{
}

/// Where the command line gives nothing, there is a result exactly when a
/// file is stored; it is the stored file, with the stored address or, for
/// want of one, the default.
pub proof fn lemma_stored_values_apply(stored: ConfigView)
    ensures
        stored.file is None <==> stored.resolve(None, None) is None,
        stored.file matches Some(f) ==> stored.resolve(None, None) == Some(
            (
                f,
                match stored.url {
                    Some(u) => u,
                    None => default_url_text(),
                },
            ),
        ),
{
}

/// To take over what the command line gives and then resolve with nothing
/// given is to resolve with it given.
pub proof fn lemma_update_then_resolve(
    stored: ConfigView,
    file: Option<Seq<char>>,
    url: Option<Seq<char>>,
)
    ensures
        stored.updated(file, url).resolve(None, None) == stored.resolve(file, url),
{
}

/// To take over the same values twice is to take them over once.
pub proof fn lemma_update_is_idempotent(
    stored: ConfigView,
    file: Option<Seq<char>>,
    url: Option<Seq<char>>,
)
    ensures
        stored.updated(file, url).updated(file, url) == stored.updated(file, url),
{
}

} // verus!
