use unilog::text::{decimal, pad_right};
use unilog::{Level, UniLog};

const ALL: [Level; 7] = [
    Level::Fatal,
    Level::Error,
    Level::Warn,
    Level::Notice,
    Level::Info,
    Level::Debug,
    Level::Trace,
];

#[test]
fn labels_are_six_characters_wide() {
    for level in ALL {
        let label = UniLog::log_level_enum_to_string(level);
        assert_eq!(label.chars().count(), 6, "{:?}", level);
    }
}

#[test]
fn labels_are_spelled_as_documented() {
    assert_eq!(UniLog::log_level_enum_to_string(Level::Fatal), "FATAL ");
    assert_eq!(UniLog::log_level_enum_to_string(Level::Error), "ERROR ");
    assert_eq!(UniLog::log_level_enum_to_string(Level::Warn), "WARNN ");
    assert_eq!(UniLog::log_level_enum_to_string(Level::Notice), "NOTICE");
    assert_eq!(UniLog::log_level_enum_to_string(Level::Info), "INFO  ");
    assert_eq!(UniLog::log_level_enum_to_string(Level::Debug), "DEBUG ");
    assert_eq!(UniLog::log_level_enum_to_string(Level::Trace), "TRACE ");
}

#[test]
fn labels_are_pairwise_distinct() {
    for (i, a) in ALL.iter().enumerate() {
        for (j, b) in ALL.iter().enumerate() {
            let same = UniLog::log_level_enum_to_string(*a) == UniLog::log_level_enum_to_string(*b);
            assert_eq!(same, i == j, "{:?} and {:?}", a, b);
            assert_eq!(a == b, i == j);
        }
    }
}

#[test]
fn names_are_labels_without_padding() {
    for level in ALL {
        let label = UniLog::log_level_enum_to_string(level);
        assert_eq!(label.trim_end(), level.name());
    }
    assert_eq!(Level::Warn.name(), "WARNN");
    assert_eq!(Level::Notice.name(), "NOTICE");
    assert_eq!(Level::Info.name(), "INFO");
}

#[test]
fn colors_are_ansi_escape_sequences() {
    assert_eq!(Level::Fatal.color(), "\x1b[1m\x1b[31m");
    assert_eq!(Level::Error.color(), "\x1b[91m");
    assert_eq!(Level::Warn.color(), "\x1b[33m");
    assert_eq!(Level::Notice.color(), "\x1b[34m");
    assert_eq!(Level::Info.color(), "\x1b[32m");
    assert_eq!(Level::Debug.color(), "\x1b[35m");
    assert_eq!(Level::Trace.color(), "\x1b[37m");
}

#[test]
fn colors_are_pairwise_distinct() {
    for (i, a) in ALL.iter().enumerate() {
        for (j, b) in ALL.iter().enumerate() {
            assert_eq!(a.color() == b.color(), i == j);
        }
    }
}

#[test]
fn pad_right_fills_with_spaces() {
    assert_eq!(pad_right("INFO", 6), "INFO  ");
    assert_eq!(pad_right("", 3), "   ");
    assert_eq!(pad_right("a", 2), "a ");
}

#[test]
fn pad_right_leaves_wide_text_alone() {
    assert_eq!(pad_right("NOTICE", 6), "NOTICE");
    assert_eq!(pad_right("NOTICES", 6), "NOTICES");
    assert_eq!(pad_right("abc", 0), "abc");
    assert_eq!(pad_right("", 0), "");
}

#[test]
fn pad_right_counts_characters_not_bytes() {
    assert_eq!(pad_right("é", 3), "é  ");
    assert_eq!(pad_right("日本語", 4), "日本語 ");
    assert_eq!(pad_right("日本語", 3), "日本語");
}

#[test]
fn decimal_writes_numerals() {
    assert_eq!(decimal(0), "0");
    assert_eq!(decimal(7), "7");
    assert_eq!(decimal(10), "10");
    assert_eq!(decimal(2000), "2000");
    assert_eq!(decimal(1234567890), "1234567890");
    assert_eq!(decimal(usize::MAX), format!("{}", usize::MAX));
}
