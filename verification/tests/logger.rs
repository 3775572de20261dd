use spot_gitlab_driver::logger::{
    default_level, JournalStream, JournalStreamError, Level, LogTarget, LoggerStage,
};
use spot_gitlab_driver::number::IntError;

#[test]
fn streams() {
    assert_eq!(JournalStream::parse("9:36212"), Ok(JournalStream { device: 9, inode: 36212 }));
    assert_eq!(JournalStream::parse("+9:0"), Ok(JournalStream { device: 9, inode: 0 }));
}

#[test]
fn stream_faults() {
    assert_eq!(JournalStream::parse(""), Err(JournalStreamError::NotAPair));
    assert_eq!(JournalStream::parse("9"), Err(JournalStreamError::NotAPair));
    assert_eq!(
        JournalStream::parse(":1"),
        Err(JournalStreamError::Device { error: IntError::Empty })
    );
    assert_eq!(
        JournalStream::parse("x:y"),
        Err(JournalStreamError::Device { error: IntError::InvalidDigit })
    );
    assert_eq!(
        JournalStream::parse("1:"),
        Err(JournalStreamError::Inode { error: IntError::Empty })
    );
    assert_eq!(
        JournalStream::parse("1:2:3"),
        Err(JournalStreamError::Inode { error: IntError::InvalidDigit })
    );
    assert_eq!(
        JournalStream::parse("1:18446744073709551616"),
        Err(JournalStreamError::Inode { error: IntError::PosOverflow })
    );
}

#[test]
fn the_flag_forces_the_journal() {
    for stream in [None, Some("nonsense".to_string())] {
        let stage = LoggerStage::start(true, &stream);
        assert_eq!(stage, LoggerStage::Chosen { target: LogTarget::Journald });
        assert_eq!(stage.next(1, 2), stage);
    }
}

#[test]
fn the_journal_is_used_where_stderr_is_connected() {
    let none = LoggerStage::start(false, &None);
    assert_eq!(none, LoggerStage::Chosen { target: LogTarget::Stderr });
    let stage = LoggerStage::start(false, &Some("9:7".to_string()));
    assert_eq!(stage, LoggerStage::AskStderr { stream: JournalStream { device: 9, inode: 7 } });
    assert_eq!(stage.next(9, 7), LoggerStage::Chosen { target: LogTarget::Journald });
    assert_eq!(stage.next(9, 8), LoggerStage::Chosen { target: LogTarget::Stderr });
    assert_eq!(stage.next(8, 7), LoggerStage::Chosen { target: LogTarget::Stderr });
    let bad = LoggerStage::start(false, &Some("9".to_string()));
    assert_eq!(bad, LoggerStage::Failed { error: JournalStreamError::NotAPair });
    assert_eq!(bad.next(9, 7), bad);
}

#[test]
fn stream_faults_in_words() {
    let words = |text: &str| JournalStream::parse(text).unwrap_err().message();
    assert_eq!(words("garbage"), "JOURNAL_STREAM wasn't a colon-separated pair");
    assert_eq!(words(":1"), "cannot parse integer from empty string");
    assert_eq!(words("x:1"), "invalid digit found in string");
    assert_eq!(words("1:18446744073709551616"), "number too large to fit in target type");
    let stage = LoggerStage::start(false, &Some("garbage".to_string()));
    assert_eq!(stage, LoggerStage::Failed { error: JournalStreamError::NotAPair });
}

#[test]
fn everything_but_traces_is_logged_by_default() {
    assert_eq!(default_level(), Level::Debug);
}
