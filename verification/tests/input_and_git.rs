use helix_ios::git_cli::{
    branch_kind, clone_shallow, dirty_suffix, effective_mode, fetch_shallow, index_attributes,
    open_settings, parse_blame_range, parse_rename_fraction, repository_mode, status_thread_limit,
    BranchKind, GixCommand, IndexAttributes, OpenSettings, RangeError, RenameFraction, RepoMode,
    Shallow,
};
use helix_ios::input::{
    after_poll, after_read, more_input_waiting, InputReader, PollEvents, PollOutcome, ReadOutcome,
    ReaderStep,
};
use termina::event::KeyCode;
use termina::Event;

fn events(readable: bool, hangup: bool, error: bool) -> PollEvents {
    PollEvents { readable, hangup, error }
}

#[test]
fn reader_after_poll() {
    assert_eq!(after_poll(PollOutcome::Failed { interrupted: true }), ReaderStep::PollAgain);
    assert_eq!(after_poll(PollOutcome::Failed { interrupted: false }), ReaderStep::ReportErrorAndStop);
    assert_eq!(after_poll(PollOutcome::TimedOut), ReaderStep::PollAgain);
    assert_eq!(after_poll(PollOutcome::Ready(events(true, false, false))), ReaderStep::Read);
    assert_eq!(after_poll(PollOutcome::Ready(events(true, true, false))), ReaderStep::Stop);
    assert_eq!(after_poll(PollOutcome::Ready(events(false, false, true))), ReaderStep::Stop);
    assert_eq!(after_poll(PollOutcome::Ready(events(false, false, false))), ReaderStep::PollAgain);
}

#[test]
fn reader_after_read() {
    assert_eq!(after_read(ReadOutcome::EndOfInput), ReaderStep::Stop);
    assert_eq!(after_read(ReadOutcome::Bytes(12)), ReaderStep::Forward(12));
    assert_eq!(after_read(ReadOutcome::Failed { interrupted: true }), ReaderStep::PollAgain);
    assert_eq!(after_read(ReadOutcome::Failed { interrupted: false }), ReaderStep::ReportErrorAndStop);
}

#[test]
fn more_input() {
    assert!(more_input_waiting(PollOutcome::Ready(events(true, false, false))));
    assert!(more_input_waiting(PollOutcome::Ready(events(true, true, false))));
    assert!(!more_input_waiting(PollOutcome::Ready(events(false, true, false))));
    assert!(!more_input_waiting(PollOutcome::TimedOut));
    assert!(!more_input_waiting(PollOutcome::Failed { interrupted: false }));
}

#[test]
fn cli_configuration_makes_modes_strict() {
    assert_eq!(effective_mode(RepoMode::Lenient, true), RepoMode::Strict);
    assert_eq!(
        effective_mode(RepoMode::LenientWithGitInstallConfig, true),
        RepoMode::StrictWithGitInstallConfig
    );
    assert_eq!(effective_mode(RepoMode::Lenient, false), RepoMode::Lenient);
    assert_eq!(effective_mode(RepoMode::Strict, true), RepoMode::Strict);
}

#[test]
fn open_settings_per_mode() {
    assert_eq!(
        open_settings(RepoMode::Lenient, false, false),
        OpenSettings { strict_config: false, use_git_installation: false, apply_cli_overrides: false }
    );
    assert_eq!(
        open_settings(RepoMode::Lenient, false, true),
        OpenSettings { strict_config: true, use_git_installation: false, apply_cli_overrides: false }
    );
    assert_eq!(
        open_settings(RepoMode::LenientWithGitInstallConfig, true, false),
        OpenSettings { strict_config: true, use_git_installation: true, apply_cli_overrides: true }
    );
    assert_eq!(
        open_settings(RepoMode::StrictWithGitInstallConfig, false, false),
        OpenSettings { strict_config: true, use_git_installation: true, apply_cli_overrides: false }
    );
}

#[test]
fn repository_modes_per_command() {
    assert_eq!(repository_mode(GixCommand::Env), None);
    assert_eq!(repository_mode(GixCommand::Clone), None);
    assert_eq!(repository_mode(GixCommand::Status), Some(RepoMode::Lenient));
    assert_eq!(repository_mode(GixCommand::Fetch), Some(RepoMode::LenientWithGitInstallConfig));
    assert_eq!(repository_mode(GixCommand::Config), Some(RepoMode::LenientWithGitInstallConfig));
    assert_eq!(repository_mode(GixCommand::Remote), Some(RepoMode::LenientWithGitInstallConfig));
    assert_eq!(repository_mode(GixCommand::CommitDescribe), Some(RepoMode::Strict));
    assert_eq!(repository_mode(GixCommand::CommitVerify), Some(RepoMode::Lenient));
    assert_eq!(repository_mode(GixCommand::TreeInfo), Some(RepoMode::Strict));
    assert_eq!(repository_mode(GixCommand::OdbStats), Some(RepoMode::Strict));
    assert_eq!(repository_mode(GixCommand::Fsck), Some(RepoMode::Strict));
    assert_eq!(repository_mode(GixCommand::MergeBase), Some(RepoMode::Lenient));
}

#[test]
fn shallow_boundaries() {
    assert_eq!(clone_shallow(Some(3)), Shallow::DepthAtRemote(3));
    assert_eq!(clone_shallow(None), Shallow::NoChange);
    assert_eq!(fetch_shallow(Some(2), Some(5), true), Shallow::DepthAtRemote(2));
    assert_eq!(fetch_shallow(None, Some(5), true), Shallow::Deepen(5));
    assert_eq!(fetch_shallow(None, None, true), Shallow::Undo);
    assert_eq!(fetch_shallow(None, None, false), Shallow::NoChange);
}

#[test]
fn option_defaults() {
    assert_eq!(status_thread_limit(None), Some(3));
    assert_eq!(status_thread_limit(Some(0)), Some(0));
    assert_eq!(dirty_suffix(None), None);
    assert_eq!(dirty_suffix(Some(None)), Some("dirty".to_string()));
    assert_eq!(dirty_suffix(Some(Some("wip".to_string()))), Some("wip".to_string()));
    assert_eq!(index_attributes(true, true), None);
    assert_eq!(index_attributes(false, true), Some(IndexAttributes::Index));
    assert_eq!(index_attributes(false, false), Some(IndexAttributes::WorktreeAndIndex));
    assert_eq!(branch_kind(true), BranchKind::All);
    assert_eq!(branch_kind(false), BranchKind::Local);
}

#[test]
fn blame_ranges() {
    assert_eq!(parse_blame_range(b"3,10"), Ok((3, 10)));
    assert_eq!(parse_blame_range(b"7,7"), Ok((7, 7)));
    assert_eq!(parse_blame_range(b"+1,2"), Ok((1, 2)));
    assert_eq!(parse_blame_range(b"10"), Err(RangeError::MissingComma));
    assert_eq!(parse_blame_range(b"a,3"), Err(RangeError::InvalidNumber(b"a".to_vec())));
    assert_eq!(parse_blame_range(b"1,2,3"), Err(RangeError::InvalidNumber(b"2,3".to_vec())));
    assert_eq!(parse_blame_range(b",3"), Err(RangeError::InvalidNumber(Vec::new())));
    assert_eq!(parse_blame_range(b"9,3"), Err(RangeError::StartAfterEnd));
    assert_eq!(
        parse_blame_range(b"1,4294967296"),
        Err(RangeError::InvalidNumber(b"4294967296".to_vec()))
    );
}

#[test]
fn rename_fractions() {
    assert_eq!(parse_rename_fraction(b"50%"), Ok(RenameFraction::Percent(50)));
    assert_eq!(parse_rename_fraction(b"5"), Ok(RenameFraction::Decimal(5)));
    assert_eq!(parse_rename_fraction(b"05"), Ok(RenameFraction::Decimal(5)));
    assert_eq!(parse_rename_fraction(b"%"), Err(Vec::new()));
    assert_eq!(parse_rename_fraction(b"x%"), Err(b"x".to_vec()));
    assert_eq!(parse_rename_fraction(b"0.5"), Err(b"0.5".to_vec()));
}

fn key(code: KeyCode) -> Event {
    Event::Key(code.into())
}

#[test]
fn read_step_parses_only_the_bytes_read() {
    let mut reader = InputReader::new();
    let (step, parsed) = reader.read_step(ReadOutcome::Bytes(4), b"\x1b[5~xy", PollOutcome::TimedOut);
    assert_eq!(step, ReaderStep::Forward(4));
    assert_eq!(parsed, vec![key(KeyCode::PageUp)]);
    let (step, parsed) = reader.read_step(ReadOutcome::Bytes(2), b"ab", PollOutcome::TimedOut);
    assert_eq!(step, ReaderStep::Forward(2));
    assert_eq!(parsed, vec![key(KeyCode::Char('a')), key(KeyCode::Char('b'))]);
}

#[test]
fn read_step_joins_a_sequence_split_across_reads() {
    let mut reader = InputReader::new();
    let waiting = PollOutcome::Ready(events(true, false, false));
    let (step, parsed) = reader.read_step(ReadOutcome::Bytes(2), b"\x1b[", waiting);
    assert_eq!(step, ReaderStep::Forward(2));
    assert!(parsed.is_empty());
    let (_, parsed) = reader.read_step(ReadOutcome::Bytes(2), b"5~", PollOutcome::TimedOut);
    assert_eq!(parsed, vec![key(KeyCode::PageUp)]);
}

#[test]
fn read_step_lone_escape_without_more_input() {
    let mut reader = InputReader::new();
    let (_, parsed) = reader.read_step(ReadOutcome::Bytes(1), b"\x1b", PollOutcome::TimedOut);
    assert_eq!(parsed, vec![key(KeyCode::Escape)]);
}

#[test]
fn read_step_without_bytes_parses_nothing() {
    let mut reader = InputReader::new();
    let (step, parsed) = reader.read_step(ReadOutcome::EndOfInput, b"abc", PollOutcome::TimedOut);
    assert_eq!(step, ReaderStep::Stop);
    assert!(parsed.is_empty());
    let (step, parsed) =
        reader.read_step(ReadOutcome::Failed { interrupted: true }, b"abc", PollOutcome::TimedOut);
    assert_eq!(step, ReaderStep::PollAgain);
    assert!(parsed.is_empty());
}
