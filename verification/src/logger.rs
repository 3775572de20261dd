//! Where the log goes, and how much of it.
use crate::number::{parse_u64, u64_in, IntError};
use crate::text::{chars_of, opt_text};
use vstd::prelude::*;
use vstd::string::*;

verus! {

/// The file that the service manager connected to the journal.
#[derive(Debug, Clone, Copy, PartialEq, Eq, Structural)]
pub struct JournalStream {
    pub device: u64,
    pub inode: u64,
}

/// Why a text does not name such a file.
#[derive(Debug, Clone, Copy, PartialEq, Eq, Structural)]
pub enum JournalStreamError {
    /// There is no colon.
    NotAPair,
    Device { error: IntError },
    Inode { error: IntError },
}

/// Where the log goes.
#[derive(Debug, Clone, Copy, PartialEq, Eq, Structural)]
pub enum LogTarget {
    /// To the journal alone: what goes to stderr would end up there once more.
    Journald,
    Stderr,
}

/// How much is logged.
#[derive(Debug, Clone, Copy, PartialEq, Eq, Structural)]
pub enum Level {
    Error,
    Warn,
    Info,
    Debug,
    Trace,
}

/// How much is logged where the environment does not say.
pub fn default_level() -> (level: Level)
    ensures
        level == Level::Debug,
{
    Level::Debug
}

/// How far the choice has come.
#[derive(Debug, Clone, Copy, PartialEq, Eq, Structural)]
pub enum LoggerStage {
    /// Which file is stderr?
    AskStderr { stream: JournalStream },
    Chosen { target: LogTarget },
    Failed { error: JournalStreamError },
}

/// The file that a text names: device and inode, around the first colon.
pub open spec fn journal_stream_in(text: Seq<char>) -> Result<(int, int), JournalStreamError> {
    match text.index_of_first(':') {
        None => Err(JournalStreamError::NotAPair),
        Some(colon) => match u64_in(text.take(colon)) {
            Err(error) => Err(JournalStreamError::Device { error }),
            Ok(device) => match u64_in(text.skip(colon + 1)) {
                Err(error) => Err(JournalStreamError::Inode { error }),
                Ok(inode) => Ok((device, inode)),
            },
        },
    }
}

impl JournalStreamError {
    /// What went wrong, in words.
    pub open spec fn text(self) -> Seq<char> {
        match self {
            JournalStreamError::NotAPair => "JOURNAL_STREAM wasn't a colon-separated pair"@,
            JournalStreamError::Device { error } => error.text(),
            JournalStreamError::Inode { error } => error.text(),
        }
    }

    /// What went wrong, in words.
    pub fn message(&self) -> (message: String)
        ensures
            message@ == self.text(),
    {
        match self {
            JournalStreamError::NotAPair => {
                "JOURNAL_STREAM wasn't a colon-separated pair".to_owned()
            },
            JournalStreamError::Device { error } => error.message(),
            JournalStreamError::Inode { error } => error.message(),
        }
    }
}

impl JournalStream {
    /// Reads the file that a text names.
    pub fn parse(text: &str) -> (parsed: Result<JournalStream, JournalStreamError>)
        ensures
            match parsed {
                Ok(stream) => journal_stream_in(text@) == Ok::<(int, int), JournalStreamError>(
                    (stream.device as int, stream.inode as int),
                ),
                Err(error) => journal_stream_in(text@) == Err::<(int, int), JournalStreamError>(
                    error,
                ),
            },
    {
        let chars = chars_of(text);
        let mut colon: usize = 0;
        while colon < chars.len() && chars[colon] != ':'
            invariant
                chars@ == text@,
                colon <= chars.len(),
                forall|i: int| 0 <= i < colon ==> chars@[i] != ':',
            decreases chars.len() - colon,
        {
            colon = colon + 1;
        }
        proof {
            text@.index_of_first_ensures(':');
        }
        if colon == chars.len() {
            return Err(JournalStreamError::NotAPair);
        }
        assert(text@.contains(text@[colon as int]));
        assert(text@.index_of_first(':') == Some(colon as int));
        let before = text.substring_char(0, colon);
        let behind = text.substring_char(colon + 1, chars.len());
        assert(before@ =~= text@.take(colon as int));
        assert(behind@ =~= text@.skip(colon + 1));
        match parse_u64(before) {
            Err(error) => Err(JournalStreamError::Device { error }),
            Ok(device) => match parse_u64(behind) {
                Err(error) => Err(JournalStreamError::Inode { error }),
                Ok(inode) => Ok(JournalStream { device, inode }),
            },
        }
    }
}

impl LoggerStage {
    /// The stage that the choice starts in: `journald` forces the journal,
    /// otherwise it takes a stream that is connected to it.
    pub open spec fn is_start_of(self, journald: bool, journal_stream: Option<Seq<char>>) -> bool {
        if journald {
            self == (LoggerStage::Chosen { target: LogTarget::Journald })
        } else {
            match journal_stream {
                None => self == (LoggerStage::Chosen { target: LogTarget::Stderr }),
                Some(text) => match journal_stream_in(text) {
                    Ok((device, inode)) => {
                        &&& self matches LoggerStage::AskStderr { stream }
                        &&& stream.device == device
                        &&& stream.inode == inode
                    },
                    Err(error) => self == (LoggerStage::Failed { error }),
                },
            }
        }
    }

    /// The stage that follows when stderr is known.
    pub open spec fn after(self, device: u64, inode: u64) -> LoggerStage {
        match self {
            LoggerStage::AskStderr { stream } => LoggerStage::Chosen {
                target: if stream.device == device && stream.inode == inode {
                    LogTarget::Journald
                } else {
                    LogTarget::Stderr
                },
            },
            _ => self,
        }
    }

    /// The stage that the choice starts in.
    pub fn start(journald: bool, journal_stream: &Option<String>) -> (stage: LoggerStage)
        ensures
            stage.is_start_of(journald, opt_text(*journal_stream)),
    {
        if journald {
            return LoggerStage::Chosen { target: LogTarget::Journald };
        }
        match journal_stream {
            None => LoggerStage::Chosen { target: LogTarget::Stderr },
            Some(text) => match JournalStream::parse(text.as_str()) {
                Ok(stream) => LoggerStage::AskStderr { stream },
                Err(error) => LoggerStage::Failed { error },
            },
        }
    }

    /// The stage that follows when stderr turns out to be the file `inode` of `device`.
    pub fn next(self, device: u64, inode: u64) -> (stage: LoggerStage)
        ensures
            stage == self.after(device, inode),
    {
        match self {
            LoggerStage::AskStderr { stream } => LoggerStage::Chosen {
                target: if stream.device == device && stream.inode == inode {
                    LogTarget::Journald
                } else {
                    LogTarget::Stderr
                },
            },
            stage => stage,
        }
    }
}

/// Without the flag, the log goes to the journal exactly if stderr is the file
/// that the service manager named.
pub proof fn law_journal_is_used_where_stderr_is_connected(
    start: LoggerStage,
    journal_stream: Option<Seq<char>>,
    device: u64,
    inode: u64,
)
    requires
        start.is_start_of(false, journal_stream),
    ensures
        start.after(device, inode) == (LoggerStage::Chosen { target: LogTarget::Journald }) <==> (
        journal_stream is Some && journal_stream_in(journal_stream->0) == Ok::<
            (int, int),
            JournalStreamError,
        >((device as int, inode as int))),
{
}

/// Without the flag, a stream that names no file is an error, and no log is chosen
/// in its place, whatever stderr turns out to be.
pub proof fn law_bad_stream_is_an_error(
    start: LoggerStage,
    text: Seq<char>,
    device: u64,
    inode: u64,
)
    requires
        start.is_start_of(false, Some(text)),
    ensures
        start is Failed <==> journal_stream_in(text) is Err,
        start is Failed ==> start.after(device, inode) == start,
        !text.contains(':') ==> start == (LoggerStage::Failed {
            error: JournalStreamError::NotAPair,
        }),
{
    text.index_of_first_ensures(':');
}

/// With the flag, the log goes to the journal, whatever the environment holds.
pub proof fn law_flag_forces_the_journal(
    start: LoggerStage,
    journal_stream: Option<Seq<char>>,
    device: u64,
    inode: u64,
)
    requires
        start.is_start_of(true, journal_stream),
    ensures
        start == (LoggerStage::Chosen { target: LogTarget::Journald }),
        start.after(device, inode) == start,
{
}

/// A stream is named by two numbers around the first colon: the device stands in front
/// of it and the inode behind. The fault of the device comes before that of the inode,
/// and a text without a colon names nothing.
pub proof fn law_stream_is_two_numbers(before: Seq<char>, behind: Seq<char>)
    requires
        !before.contains(':'),
    ensures
        journal_stream_in(before) == Err::<(int, int), JournalStreamError>(
            JournalStreamError::NotAPair,
        ),
        u64_in(before) matches Err(error) ==> journal_stream_in(before + seq![':'] + behind)
            == Err::<(int, int), JournalStreamError>(JournalStreamError::Device { error }),
        u64_in(before) is Ok ==> (u64_in(behind) matches Err(error) ==> journal_stream_in(
            before + seq![':'] + behind,
        ) == Err::<(int, int), JournalStreamError>(JournalStreamError::Inode { error })),
        u64_in(before) is Ok && u64_in(behind) is Ok ==> journal_stream_in(
            before + seq![':'] + behind,
        ) == Ok::<(int, int), JournalStreamError>((u64_in(before)->Ok_0, u64_in(behind)->Ok_0)),
{
    let text = before + seq![':'] + behind;
    let colon = before.len() as int;
    before.index_of_first_ensures(':');
    text.index_of_first_ensures(':');
    assert(text[colon] == ':');
    assert(text.contains(text[colon]));
    let found = text.index_of_first(':')->0;
    if found < colon {
        assert(before[found] == ':');
        assert(before.contains(before[found]));
    }
    assert(found == colon);
    assert(text.take(colon) =~= before);
    assert(text.skip(colon + 1) =~= behind);
}

/// Without the flag and without a stream the log goes to stderr; so it does where stderr
/// is another file than the stream, in device or in inode.
pub proof fn law_log_goes_to_stderr_otherwise(
    start: LoggerStage,
    journal_stream: Option<Seq<char>>,
    stream: JournalStream,
    device: u64,
    inode: u64,
)
    requires
        start.is_start_of(false, journal_stream),
    ensures
        journal_stream is None ==> start == (LoggerStage::Chosen { target: LogTarget::Stderr })
            && start.after(device, inode) == start,
        journal_stream is Some && journal_stream_in(journal_stream->0) == Ok::<
            (int, int),
            JournalStreamError,
        >((stream.device as int, stream.inode as int)) ==> start == (LoggerStage::AskStderr {
            stream,
        }) && start.after(device, inode) == (LoggerStage::Chosen {
            target: if stream.device == device && stream.inode == inode {
                LogTarget::Journald
            } else {
                LogTarget::Stderr
            },
        }),
        journal_stream is Some ==> (journal_stream_in(journal_stream->0) matches Err(error)
            ==> start == (LoggerStage::Failed { error })),
{
}

/// What is wrong with a stream, in words: a number that cannot be read speaks for itself.
pub proof fn law_faults_of_streams_in_words(error: JournalStreamError)
    ensures
        error is NotAPair ==> error.text() == "JOURNAL_STREAM wasn't a colon-separated pair"@,
        error matches JournalStreamError::Device { error: fault } ==> error.text() == (match fault {
            IntError::Empty => "cannot parse integer from empty string"@,
            IntError::InvalidDigit => "invalid digit found in string"@,
            IntError::PosOverflow => "number too large to fit in target type"@,
            IntError::NegOverflow => "number too small to fit in target type"@,
        }),
        error matches JournalStreamError::Inode { error: fault } ==> error.text() == (match fault {
            IntError::Empty => "cannot parse integer from empty string"@,
            IntError::InvalidDigit => "invalid digit found in string"@,
            IntError::PosOverflow => "number too large to fit in target type"@,
            IntError::NegOverflow => "number too small to fit in target type"@,
        }),
{
}

} // verus!
