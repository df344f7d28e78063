//! The sink's configuration and the dispatch of one log call.
//!
//! A `UniLog` is assembled once, by a chain of setters, and then asked what
//! a message turns into: the line itself, whether and where it is appended
//! to a file, and what is echoed on the terminal.

use vstd::prelude::*;
use vstd::string::*;
use vstd::utf8::encode_utf8;

use crate::clock::{is_clock_stamp, local_time_text, STAMP_PATTERN};
use crate::level::{Level, LABEL_WIDTH};
use crate::rotation::{
    lemma_write_appends_within_limit, lemma_write_clears_oversized_file, spec_file_after,
    spec_limit_in_bytes, spec_write_step,
};
use crate::text::pad_right;

verus! {

/// Size, in megabytes, that a log file may reach by default.
pub const DEFAULT_MAX_LOG_FILE_SIZE_IN_MB: usize = 2000;

/// The configuration of a sink.
pub struct UniLog {
    /// Whether lines are echoed on standard output. On by default.
    pub log_to_terminal: bool,
    /// Whether a line carries the time of the call. Off by default.
    pub enable_timestamping: bool,
    /// Whether the file is written off the caller's thread. Off by default.
    pub async_logging: bool,
    /// Whether the echo starts with the severity's colour. On by default.
    pub colorful: bool,
    /// The file that lines are appended to; without one nothing is stored.
    pub log_file_name: Option<String>,
    /// Size in megabytes above which the file is cleared before a write.
    pub max_log_file_size_in_mb: usize,
}

/// A configuration as a mathematical value.
pub struct SinkConfig {
    pub log_to_terminal: bool,
    pub enable_timestamping: bool,
    pub async_logging: bool,
    pub colorful: bool,
    pub log_file_name: Option<Seq<char>>,
    pub max_log_file_size_in_mb: nat,
}

impl View for UniLog {
    type V = SinkConfig;

    open spec fn view(&self) -> SinkConfig {
        SinkConfig {
            log_to_terminal: self.log_to_terminal,
            enable_timestamping: self.enable_timestamping,
            async_logging: self.async_logging,
            colorful: self.colorful,
            log_file_name: match self.log_file_name {
                Some(name) => Some(name@),
                None => None,
            },
            max_log_file_size_in_mb: self.max_log_file_size_in_mb as nat,
        }
    }
}

/// One line waiting to be appended to the log file.
#[derive(Debug, PartialEq, Eq)]
pub struct FileJob {
    /// Path of the log file, needed again should the file be cleared.
    pub file_name: String,
    /// The rendered line.
    pub log_entry: String,
    /// Size in megabytes above which the file is cleared first.
    pub max_log_file_size_in_mb: usize,
    /// Whether the write is handed to a thread of its own and not awaited.
    pub detached: bool,
}

/// A file job as a mathematical value.
pub struct FileJobView {
    pub file_name: Seq<char>,
    pub log_entry: Seq<char>,
    pub max_log_file_size_in_mb: nat,
    pub detached: bool,
}

impl View for FileJob {
    type V = FileJobView;

    open spec fn view(&self) -> FileJobView {
        FileJobView {
            file_name: self.file_name@,
            log_entry: self.log_entry@,
            max_log_file_size_in_mb: self.max_log_file_size_in_mb as nat,
            detached: self.detached,
        }
    }
}

/// Everything one log call asks to be done.
#[derive(Debug, PartialEq, Eq)]
pub struct Dispatch {
    /// The write to the log file, if a file is configured.
    pub file: Option<FileJob>,
    /// The text to print on standard output, if the echo is on.
    pub terminal: Option<String>,
}

/// A dispatch as a mathematical value.
pub struct DispatchView {
    pub file: Option<FileJobView>,
    pub terminal: Option<Seq<char>>,
}

impl View for Dispatch {
    type V = DispatchView;

    open spec fn view(&self) -> DispatchView {
        DispatchView {
            file: match self.file {
                Some(job) => Some(job@),
                None => None,
            },
            terminal: match self.terminal {
                Some(text) => Some(text@),
                None => None,
            },
        }
    }
}

/// The rendered line: `[<stamp>] | [<label>]   : <message>` and a newline.
/// Without a timestamp `stamp` is empty and the line starts with `[]`.
pub open spec fn spec_line(stamp: Seq<char>, level: Level, message: Seq<char>) -> Seq<char> {
    "["@ + stamp + "] | ["@ + level.spec_label() + "]   : "@ + message + "\n"@
}

impl SinkConfig {
    /// The line as it is echoed: behind the severity's colour where colours
    /// are on, bare where they are off. No reset sequence follows it.
    pub open spec fn spec_echo(self, line: Seq<char>, level: Level) -> Seq<char> {
        if self.colorful {
            level.spec_color() + line
        } else {
            line
        }
    }

    /// What a log call with this configuration asks for, once the timestamp
    /// is known: a file job exactly if a file is named, an echo exactly if
    /// the echo is on, both carrying the same rendered line.
    pub open spec fn spec_dispatch(self, stamp: Seq<char>, message: Seq<char>, level: Level)
        -> DispatchView {
        let line = spec_line(stamp, level, message);
        DispatchView {
            file: match self.log_file_name {
                Some(name) => Some(
                    FileJobView {
                        file_name: name,
                        log_entry: line,
                        max_log_file_size_in_mb: self.max_log_file_size_in_mb,
                        detached: self.async_logging,
                    },
                ),
                None => None,
            },
            terminal: if self.log_to_terminal {
                Some(self.spec_echo(line, level))
            } else {
                None
            },
        }
    }
}

impl SinkConfig {
    /// What a log file that held `contents` holds after a log call with
    /// this configuration: the outcome of the planned write, for the size
    /// that the file had. Without a file name the file is not touched.
    pub open spec fn spec_file_after_log(
        self,
        stamp: Seq<char>,
        message: Seq<char>,
        level: Level,
        contents: Seq<u8>,
    ) -> Seq<u8> {
        match self.spec_dispatch(stamp, message, level).file {
            Some(job) => spec_file_after(
                spec_write_step(
                    job.log_entry,
                    job.file_name,
                    Some(contents.len() as u64),
                    job.max_log_file_size_in_mb,
                ),
                contents,
            ),
            None => contents,
        }
    }
}

impl UniLog {
    /// The configuration that `init` starts from.
    pub open spec fn spec_init() -> SinkConfig {
        SinkConfig {
            log_to_terminal: true,
            enable_timestamping: false,
            async_logging: false,
            colorful: true,
            log_file_name: None,
            max_log_file_size_in_mb: DEFAULT_MAX_LOG_FILE_SIZE_IN_MB as nat,
        }
    }

    /// A sink with the default configuration: echo on, colours on, no
    /// timestamp, no file, writes on the caller's thread, 2000 MB.
    pub fn init() -> (sink: Self)
        ensures
            sink@ == Self::spec_init(),
    {
        Self {
            log_to_terminal: true,
            enable_timestamping: false,
            async_logging: false,
            colorful: true,
            log_file_name: None,
            max_log_file_size_in_mb: DEFAULT_MAX_LOG_FILE_SIZE_IN_MB,
        }
    }

    /// Switches the severity colours of the echo on.
    pub fn enable_colored_logs(self) -> (sink: Self)
        ensures
            sink@ == (SinkConfig { colorful: true, ..self@ }),
    {
        let mut sink = self;
        sink.colorful = true;
        sink
    }

    /// Names the file that lines are appended to. Without a name no line is
    /// stored anywhere.
    pub fn set_log_file_name(self, name: &str) -> (sink: Self)
        ensures
            sink@ == (SinkConfig { log_file_name: Some(name@), ..self@ }),
    {
        let mut sink = self;
        sink.log_file_name = Some(String::from_str(name));
        sink
    }

    /// Switches the echo on standard output on or off.
    pub fn log_to_terminal(self, value: bool) -> (sink: Self)
        ensures
            sink@ == (SinkConfig { log_to_terminal: value, ..self@ }),
    {
        let mut sink = self;
        sink.log_to_terminal = value;
        sink
    }

    /// Sets the size, in megabytes, above which the file is cleared.
    pub fn max_log_file_size(self, size: usize) -> (sink: Self)
        ensures
            sink@ == (SinkConfig { max_log_file_size_in_mb: size as nat, ..self@ }),
    {
        let mut sink = self;
        sink.max_log_file_size_in_mb = size;
        sink
    }

    /// Makes every line carry the time of the call.
    pub fn enable_timestamping(self) -> (sink: Self)
        ensures
            sink@ == (SinkConfig { enable_timestamping: true, ..self@ }),
    {
        let mut sink = self;
        sink.enable_timestamping = true;
        sink
    }

    /// Makes file writes detached: each is handed to a thread of its own and
    /// the caller does not wait for it.
    pub fn async_logging(self) -> (sink: Self)
        ensures
            sink@ == (SinkConfig { async_logging: true, ..self@ }),
    {
        let mut sink = self;
        sink.async_logging = true;
        sink
    }

    /// The label of a severity: its name, padded with spaces on the right to
    /// six characters.
    pub fn log_level_enum_to_string(level: Level) -> (label: String)
        ensures
            label@ == level.spec_label(),
            label@.len() == LABEL_WIDTH,
    {
        proof {
            crate::level::lemma_label_text(level);
        }
        pad_right(level.name(), LABEL_WIDTH)
    }

    /// Renders one line from a timestamp (empty for none), a severity and a
    /// message.
    pub fn render(stamp: &str, message: &str, level: Level) -> (line: String)
        ensures
            line@ == spec_line(stamp@, level, message@),
    {
        let label = Self::log_level_enum_to_string(level);
        let mut line = String::from_str("[");
        line.append(stamp);
        line.append("] | [");
        line.append(label.as_str());
        line.append("]   : ");
        line.append(message);
        line.append("\n");
        assert(line@ =~= spec_line(stamp@, level, message@));
        line
    }

    /// What a log call asks for when the timestamp is `stamp`: renders the
    /// line once and addresses it to the file and to the terminal as the
    /// configuration says.
    pub fn log_stamped(&self, stamp: &str, message: &str, level: Level) -> (dispatch: Dispatch)
        ensures
            dispatch@ == self@.spec_dispatch(stamp@, message@, level),
    {
        let line = Self::render(stamp, message, level);
        let file = match &self.log_file_name {
            Some(name) => Some(
                FileJob {
                    file_name: name.clone(),
                    log_entry: line.clone(),
                    max_log_file_size_in_mb: self.max_log_file_size_in_mb,
                    detached: self.async_logging,
                },
            ),
            None => None,
        };
        let terminal = if self.log_to_terminal {
            if self.colorful {
                Some(String::from_str(level.color()).concat(line.as_str()))
            } else {
                Some(line)
            }
        } else {
            None
        };
        Dispatch { file, terminal }
    }

    /// Logs `message` at `level`: reads the clock if timestamps are on, then
    /// says what is to be written where. The call asks nothing of its
    /// arguments and always returns.
    ///
    /// Without timestamps the result is fixed by the arguments. With them
    /// it is the dispatch for some timestamp of the clock's shape.
    pub fn log(&self, message: &str, level: Level) -> (dispatch: Dispatch)
        ensures
            !self.enable_timestamping ==> dispatch@ == self@.spec_dispatch(
                Seq::empty(),
                message@,
                level,
            ),
            self.enable_timestamping ==> exists|stamp: Seq<char>|
                #[trigger] is_clock_stamp(stamp) && dispatch@ == self@.spec_dispatch(
                    stamp,
                    message@,
                    level,
                ),
    {
        if self.enable_timestamping {
            let stamp = local_time_text(STAMP_PATTERN);
            self.log_stamped(stamp.as_str(), message, level)
        } else {
            proof {
                reveal_strlit("");
                assert(""@ =~= Seq::<char>::empty());
            }
            self.log_stamped("", message, level)
        }
    }
}

/// A line without a timestamp opens with the empty bracket `[]`, whatever
/// the message and the severity.
pub proof fn lemma_unstamped_line(message: Seq<char>, level: Level)
    ensures
        spec_line(Seq::empty(), level, message) == "[] | ["@ + level.spec_label() + "]   : "@
            + message + "\n"@,
        spec_line(Seq::empty(), level, message).subrange(0, 2) == "[]"@,
{
    reveal_strlit("[");
    reveal_strlit("[]");
    reveal_strlit("] | [");
    reveal_strlit("[] | [");
    let line = spec_line(Seq::empty(), level, message);
    assert(line =~= "[] | ["@ + level.spec_label() + "]   : "@ + message + "\n"@);
    assert(line.subrange(0, 2) =~= "[]"@);
}

/// Two sinks fresh from `init` hold the same configuration and answer every
/// log call alike: nothing goes to a file, and the coloured line is echoed.
pub proof fn lemma_default_sinks_agree(
    a: UniLog,
    b: UniLog,
    stamp: Seq<char>,
    message: Seq<char>,
    level: Level,
)
    requires
        a@ == UniLog::spec_init(),
        b@ == UniLog::spec_init(),
    ensures
        a@ == b@,
        a@.spec_dispatch(stamp, message, level) == b@.spec_dispatch(stamp, message, level),
        a@.spec_dispatch(stamp, message, level) == (DispatchView {
            file: None,
            terminal: Some(level.spec_color() + spec_line(stamp, level, message)),
        }),
{
}

/// A log call that finds its file above the size limit leaves a file that
/// holds the new line and nothing else.
pub proof fn lemma_log_clears_oversized_file(
    config: SinkConfig,
    stamp: Seq<char>,
    message: Seq<char>,
    level: Level,
    contents: Seq<u8>,
)
    requires
        config.log_file_name is Some,
        contents.len() <= u64::MAX,
        contents.len() > spec_limit_in_bytes(config.max_log_file_size_in_mb),
    ensures
        config.spec_file_after_log(stamp, message, level, contents) == encode_utf8(
            spec_line(stamp, level, message),
        ),
        config.spec_file_after_log(stamp, message, level, contents).len() == encode_utf8(
            spec_line(stamp, level, message),
        ).len(),
{
    lemma_write_clears_oversized_file(
        spec_line(stamp, level, message),
        config.log_file_name->0,
        contents,
        config.max_log_file_size_in_mb,
    );
}

/// A log call that finds its file within the size limit appends the new
/// line and discards nothing: the file grows by the line's length.
pub proof fn lemma_log_appends_within_limit(
    config: SinkConfig,
    stamp: Seq<char>,
    message: Seq<char>,
    level: Level,
    contents: Seq<u8>,
)
    requires
        config.log_file_name is Some,
        contents.len() <= u64::MAX,
        contents.len() <= spec_limit_in_bytes(config.max_log_file_size_in_mb),
    ensures
        config.spec_file_after_log(stamp, message, level, contents) == contents + encode_utf8(
            spec_line(stamp, level, message),
        ),
        config.spec_file_after_log(stamp, message, level, contents).len() == contents.len()
            + encode_utf8(spec_line(stamp, level, message)).len(),
{
    lemma_write_appends_within_limit(
        spec_line(stamp, level, message),
        config.log_file_name->0,
        contents,
        config.max_log_file_size_in_mb,
    );
}

} // verus!
