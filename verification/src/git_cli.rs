//! The option handling of the `gix` command: how a repository is opened for
//! each subcommand, and the values its command line takes apart.
use vstd::prelude::*;
use crate::text::{decimal, parse_u32, spec_parse_u32};

verus! {

/// How strictly a repository's configuration is read, and whether the Git
/// installation's configuration is read too.
#[derive(Clone, Copy, Debug, PartialEq, Eq, Structural)]
pub enum RepoMode {
    Strict,
    StrictWithGitInstallConfig,
    Lenient,
    LenientWithGitInstallConfig,
}

/// Configuration given on the command line makes a lenient mode strict,
/// keeping whether the installation's configuration is read.
pub open spec fn spec_effective_mode(mode: RepoMode, has_cli_config: bool) -> RepoMode {
    if has_cli_config {
        match mode {
            RepoMode::Lenient => RepoMode::Strict,
            RepoMode::LenientWithGitInstallConfig => RepoMode::StrictWithGitInstallConfig,
            other => other,
        }
    } else {
        mode
    }
}

/// Returns the mode a repository is opened in, given whether configuration
/// was passed on the command line.
pub fn effective_mode(mode: RepoMode, has_cli_config: bool) -> (m: RepoMode)
    ensures
        m == spec_effective_mode(mode, has_cli_config),
{
    if has_cli_config {
        match mode {
            RepoMode::Lenient => RepoMode::Strict,
            RepoMode::LenientWithGitInstallConfig => RepoMode::StrictWithGitInstallConfig,
            other => other,
        }
    } else {
        mode
    }
}

/// The settings a repository is opened with.
#[derive(Clone, Copy, Debug, PartialEq, Eq, Structural)]
pub struct OpenSettings {
    /// Configuration errors are fatal.
    pub strict_config: bool,
    /// The Git installation's configuration and attributes are read.
    pub use_git_installation: bool,
    /// The command-line configuration overrides the repository's.
    pub apply_cli_overrides: bool,
}

/// Configuration is strict in the strict modes — after command-line
/// configuration made a lenient mode strict — or when `--strict` was given;
/// the installation is read in the modes that ask for it; command-line
/// configuration, when there is some, overrides the repository's.
pub open spec fn spec_open_settings(mode: RepoMode, has_cli_config: bool, strict: bool) -> OpenSettings {
    let m = spec_effective_mode(mode, has_cli_config);
    OpenSettings {
        strict_config: m == RepoMode::Strict || m == RepoMode::StrictWithGitInstallConfig || strict,
        use_git_installation: m == RepoMode::StrictWithGitInstallConfig || m
            == RepoMode::LenientWithGitInstallConfig,
        apply_cli_overrides: has_cli_config,
    }
}

/// Returns the settings a repository is opened with in `mode`.
pub fn open_settings(mode: RepoMode, has_cli_config: bool, strict: bool) -> (s: OpenSettings)
    ensures
        s == spec_open_settings(mode, has_cli_config, strict),
{
    let m = effective_mode(mode, has_cli_config);
    let strict_toggle = match m {
        RepoMode::Strict | RepoMode::StrictWithGitInstallConfig => true,
        _ => false,
    } || strict;
    let git_installation = match m {
        RepoMode::StrictWithGitInstallConfig | RepoMode::LenientWithGitInstallConfig => true,
        _ => false,
    };
    OpenSettings {
        strict_config: strict_toggle,
        use_git_installation: git_installation,
        apply_cli_overrides: has_cli_config,
    }
}

/// Command-line configuration always makes configuration errors fatal, and
/// never changes whether the installation's configuration is read.
pub proof fn lemma_cli_config_is_strict(mode: RepoMode, strict: bool)
    ensures
        spec_open_settings(mode, true, strict).strict_config,
        spec_open_settings(mode, true, strict).use_git_installation == spec_open_settings(
            mode,
            false,
            strict,
        ).use_git_installation,
        spec_effective_mode(spec_effective_mode(mode, true), true) == spec_effective_mode(
            mode,
            true,
        ),
{
}

/// Configuration errors are fatal exactly when `--strict` is given, when
/// configuration is passed on the command line, or when the mode is one of the
/// strict ones; without those a lenient mode stays lenient. The installation's
/// configuration is read exactly in the modes that name it, and command-line
/// overrides apply exactly when there is command-line configuration.
pub proof fn lemma_open_settings_strictness(mode: RepoMode, has_cli_config: bool, strict: bool)
    ensures
        spec_open_settings(mode, has_cli_config, strict).strict_config <==> (strict
            || has_cli_config || mode == RepoMode::Strict || mode
            == RepoMode::StrictWithGitInstallConfig),
        (mode == RepoMode::Lenient || mode == RepoMode::LenientWithGitInstallConfig)
            && !has_cli_config && !strict ==> !spec_open_settings(
            mode,
            has_cli_config,
            strict,
        ).strict_config,
        spec_open_settings(mode, has_cli_config, strict).use_git_installation <==> (mode
            == RepoMode::StrictWithGitInstallConfig || mode == RepoMode::LenientWithGitInstallConfig),
        spec_open_settings(mode, has_cli_config, strict).apply_cli_overrides == has_cli_config,
{
}

/// The subcommands of `gix`.
#[derive(Clone, Copy, Debug, PartialEq, Eq, Structural)]
pub enum GixCommand {
    Env,
    Status,
    Log,
    DiffTree,
    DiffFile,
    Clone,
    Fetch,
    Config,
    BranchList,
    TagList,
    Blame,
    Cat,
    CommitDescribe,
    CommitVerify,
    TreeEntries,
    TreeInfo,
    IsClean,
    IsChanged,
    Remote,
    IndexEntries,
    MailmapEntries,
    MailmapCheck,
    OdbEntries,
    OdbInfo,
    OdbStats,
    WorktreeList,
    SubmoduleList,
    MergeBase,
    Fsck,
}

/// The mode each subcommand opens the repository in: `env` and `clone` open
/// none; the commands that talk to remotes or list configuration read the
/// installation's configuration leniently; `commit describe`, the tree and
/// object-database commands and `fsck` are strict; the rest are lenient.
pub open spec fn spec_repository_mode(cmd: GixCommand) -> Option<RepoMode> {
    match cmd {
        GixCommand::Env | GixCommand::Clone => None,
        GixCommand::Fetch | GixCommand::Config | GixCommand::Remote => Some(
            RepoMode::LenientWithGitInstallConfig,
        ),
        GixCommand::CommitDescribe | GixCommand::TreeEntries | GixCommand::TreeInfo
        | GixCommand::OdbEntries | GixCommand::OdbInfo | GixCommand::OdbStats
        | GixCommand::Fsck => Some(RepoMode::Strict),
        _ => Some(RepoMode::Lenient),
    }
}

/// Returns the mode a subcommand opens the repository in, if it opens one.
pub fn repository_mode(cmd: GixCommand) -> (mode: Option<RepoMode>)
    ensures
        mode == spec_repository_mode(cmd),
{
    match cmd {
        GixCommand::Env | GixCommand::Clone => None,
        GixCommand::Fetch | GixCommand::Config | GixCommand::Remote => Some(
            RepoMode::LenientWithGitInstallConfig,
        ),
        GixCommand::CommitDescribe | GixCommand::TreeEntries | GixCommand::TreeInfo
        | GixCommand::OdbEntries | GixCommand::OdbInfo | GixCommand::OdbStats
        | GixCommand::Fsck => Some(RepoMode::Strict),
        _ => Some(RepoMode::Lenient),
    }
}

/// Only `env` and `clone` open no repository. `fetch`, `config` and `remote`
/// open it leniently with the installation's configuration; `commit
/// describe`, the tree and object-database commands and `fsck` open it
/// strictly; every other subcommand (`status`, `log`, the diffs, the branch
/// and tag lists, `blame`, `cat`, `commit verify`, the clean and changed
/// checks, the index, mailmap, worktree and submodule listings and
/// `merge-base`) opens it leniently. No subcommand asks for strictness with
/// the installation's configuration.
pub proof fn lemma_repository_modes(cmd: GixCommand)
    ensures
        spec_repository_mode(cmd) is None <==> (cmd == GixCommand::Env || cmd == GixCommand::Clone),
        spec_repository_mode(cmd) == Some(RepoMode::LenientWithGitInstallConfig) <==> (cmd
            == GixCommand::Fetch || cmd == GixCommand::Config || cmd == GixCommand::Remote),
        spec_repository_mode(cmd) == Some(RepoMode::Strict) <==> (cmd == GixCommand::CommitDescribe
            || cmd == GixCommand::TreeEntries || cmd == GixCommand::TreeInfo || cmd
            == GixCommand::OdbEntries || cmd == GixCommand::OdbInfo || cmd == GixCommand::OdbStats
            || cmd == GixCommand::Fsck),
        spec_repository_mode(cmd) == Some(RepoMode::Lenient) <==> (cmd == GixCommand::Status || cmd
            == GixCommand::Log || cmd == GixCommand::DiffTree || cmd == GixCommand::DiffFile || cmd
            == GixCommand::BranchList || cmd == GixCommand::TagList || cmd == GixCommand::Blame
            || cmd == GixCommand::Cat || cmd == GixCommand::CommitVerify || cmd
            == GixCommand::IsClean || cmd == GixCommand::IsChanged || cmd
            == GixCommand::IndexEntries || cmd == GixCommand::MailmapEntries || cmd
            == GixCommand::MailmapCheck || cmd == GixCommand::WorktreeList || cmd
            == GixCommand::SubmoduleList || cmd == GixCommand::MergeBase),
        spec_repository_mode(cmd) != Some(RepoMode::StrictWithGitInstallConfig),
{
}

/// How a fetch or clone moves the shallow boundary.
#[derive(Clone, Copy, Debug, PartialEq, Eq, Structural)]
pub enum Shallow {
    /// The boundary stays as it is.
    NoChange,
    /// Keep this many commits (more than zero) as the remote sees them.
    DepthAtRemote(u32),
    /// Extend the boundary by this many commits.
    Deepen(u32),
    /// Remove the boundary.
    Undo,
}

/// A clone keeps the history depth it is given, else all history.
pub open spec fn spec_clone_shallow(depth: Option<u32>) -> Shallow {
    match depth {
        Some(d) => Shallow::DepthAtRemote(d),
        None => Shallow::NoChange,
    }
}

/// Returns how a clone limits its history.
pub fn clone_shallow(depth: Option<u32>) -> (s: Shallow)
    ensures
        s == spec_clone_shallow(depth),
{
    match depth {
        Some(d) => Shallow::DepthAtRemote(d),
        None => Shallow::NoChange,
    }
}

/// A fetch takes `--depth` first, then `--deepen`, then `--unshallow`.
pub open spec fn spec_fetch_shallow(depth: Option<u32>, deepen: Option<u32>, unshallow: bool) -> Shallow {
    match depth {
        Some(d) => Shallow::DepthAtRemote(d),
        None => match deepen {
            Some(d) => Shallow::Deepen(d),
            None => if unshallow {
                Shallow::Undo
            } else {
                Shallow::NoChange
            },
        },
    }
}

/// Returns how a fetch moves the shallow boundary.
pub fn fetch_shallow(depth: Option<u32>, deepen: Option<u32>, unshallow: bool) -> (s: Shallow)
    ensures
        s == spec_fetch_shallow(depth, deepen, unshallow),
{
    if let Some(d) = depth {
        Shallow::DepthAtRemote(d)
    } else if let Some(d) = deepen {
        Shallow::Deepen(d)
    } else if unshallow {
        Shallow::Undo
    } else {
        Shallow::NoChange
    }
}

/// `status` runs on at most three threads unless `--threads` says otherwise.
pub fn status_thread_limit(threads: Option<usize>) -> (limit: Option<usize>)
    ensures
        limit == match threads {
            Some(t) => Some(t),
            None => Some(3usize),
        },
{
    match threads {
        Some(t) => Some(t),
        None => Some(3),
    }
}

/// The suffix marking a dirty worktree: none without the flag, `dirty` for
/// the flag without a value, else the value given.
pub fn dirty_suffix(flag: Option<Option<String>>) -> (suffix: Option<String>)
    ensures
        match flag {
            None => suffix is None,
            Some(None) => suffix matches Some(s) && s@ == "dirty"@,
            Some(Some(v)) => suffix == Some(v),
        },
{
    match flag {
        None => None,
        Some(None) => Some("dirty".to_owned()),
        Some(Some(v)) => Some(v),
    }
}

/// Where `index entries` reads attributes from.
#[derive(Clone, Copy, Debug, PartialEq, Eq, Structural)]
pub enum IndexAttributes {
    Index,
    WorktreeAndIndex,
}

/// Returns where `index entries` reads attributes from: nowhere with
/// `--no-attributes`, the index alone with `--attributes-from-index`, else
/// the worktree and the index.
pub fn index_attributes(no_attributes: bool, attributes_from_index: bool) -> (a: Option<
    IndexAttributes,
>)
    ensures
        a == if no_attributes {
            None
        } else if attributes_from_index {
            Some(IndexAttributes::Index)
        } else {
            Some(IndexAttributes::WorktreeAndIndex)
        },
{
    if no_attributes {
        None
    } else {
        Some(
            if attributes_from_index {
                IndexAttributes::Index
            } else {
                IndexAttributes::WorktreeAndIndex
            },
        )
    }
}

/// Which branches `branch list` shows.
#[derive(Clone, Copy, Debug, PartialEq, Eq, Structural)]
pub enum BranchKind {
    All,
    Local,
}

/// Returns which branches `branch list` shows: all with `--all`, else the
/// local ones.
pub fn branch_kind(all: bool) -> (kind: BranchKind)
    ensures
        kind == if all {
            BranchKind::All
        } else {
            BranchKind::Local
        },
{
    if all {
        BranchKind::All
    } else {
        BranchKind::Local
    }
}

/// The position of the first byte `b` in `s`.
pub open spec fn first_index_of(s: Seq<u8>, b: u8) -> Option<int> {
    if exists|i: int| 0 <= i < s.len() && s[i] == b {
        Some(choose|i: int| 0 <= i < s.len() && s[i] == b && forall|j: int| 0 <= j < i ==> s[j] != b)
    } else {
        None
    }
}

/// Why a blame range was refused.
#[derive(Debug, PartialEq, Eq)]
pub enum RangeError {
    /// There is no comma: the expected format is `start,end`.
    MissingComma,
    /// This part is not a decimal `u32`.
    InvalidNumber(Vec<u8>),
    /// The start lies after the end.
    StartAfterEnd,
}

/// The view of a range or of the reason it was refused.
pub enum RangeResultView {
    Range(u32, u32),
    MissingComma,
    InvalidNumber(Seq<u8>),
    StartAfterEnd,
}

/// The view of a parsed range.
pub open spec fn range_result_view(r: Result<(u32, u32), RangeError>) -> RangeResultView {
    match r {
        Ok((a, b)) => RangeResultView::Range(a, b),
        Err(RangeError::MissingComma) => RangeResultView::MissingComma,
        Err(RangeError::InvalidNumber(t)) => RangeResultView::InvalidNumber(t@),
        Err(RangeError::StartAfterEnd) => RangeResultView::StartAfterEnd,
    }
}

/// A blame range `start,end`: split at the first comma, both parts read as
/// `u32` (the start first), and the start no later than the end.
pub open spec fn spec_parse_blame_range(s: Seq<u8>) -> RangeResultView {
    match first_index_of(s, 0x2c) {
        None => RangeResultView::MissingComma,
        Some(c) => {
            let start = s.subrange(0, c);
            let end = s.subrange(c + 1, s.len() as int);
            match spec_parse_u32(start) {
                None => RangeResultView::InvalidNumber(start),
                Some(a) => match spec_parse_u32(end) {
                    None => RangeResultView::InvalidNumber(end),
                    Some(b) => if a <= b {
                        RangeResultView::Range(a, b)
                    } else {
                        RangeResultView::StartAfterEnd
                    },
                },
            }
        },
    }
}

fn copy_range(s: &[u8], from: usize, to: usize) -> (out: Vec<u8>)
    requires
        from <= to <= s.len(),
    ensures
        out@ == s@.subrange(from as int, to as int),
{
    let mut out: Vec<u8> = Vec::new();
    let mut i = from;
    while i < to
        invariant
            from <= i <= to <= s.len(),
            out@ == s@.subrange(from as int, i as int),
        decreases to - i,
    {
        out.push(s[i]);
        assert(s@.subrange(from as int, i + 1) =~= s@.subrange(from as int, i as int).push(
            s@[i as int],
        ));
        i += 1;
    }
    out
}

fn find_byte(s: &[u8], b: u8) -> (index: Option<usize>)
    ensures
        match index {
            Some(i) => first_index_of(s@, b) == Some(i as int) && i < s.len(),
            None => first_index_of(s@, b) is None,
        },
{
    let mut i: usize = 0;
    while i < s.len()
        invariant
            i <= s.len(),
            forall|j: int| 0 <= j < i ==> s@[j] != b,
        decreases s.len() - i,
    {
        if s[i] == b {
            proof {
                let c = choose|k: int| 0 <= k < s@.len() && s@[k] == b && forall|j: int|
                    0 <= j < k ==> s@[j] != b;
                assert(0 <= i < s@.len() && s@[i as int] == b && forall|j: int|
                    0 <= j < i ==> s@[j] != b);
                if c < i {
                    assert(s@[c] != b);
                } else if c > i {
                    assert(s@[i as int] != b);
                }
            }
            return Some(i);
        }
        i += 1;
    }
    None
}

/// Reads a blame line range written `start,end`.
pub fn parse_blame_range(s: &[u8]) -> (range: Result<(u32, u32), RangeError>)
    ensures
        range_result_view(range) == spec_parse_blame_range(s@),
{
    let comma = match find_byte(s, 0x2c) {
        Some(c) => c,
        None => return Err(RangeError::MissingComma),
    };
    let start_text = copy_range(s, 0, comma);
    let end_text = copy_range(s, comma + 1, s.len());
    let start = match parse_u32(start_text.as_slice()) {
        Some(v) => v,
        None => return Err(RangeError::InvalidNumber(start_text)),
    };
    let end = match parse_u32(end_text.as_slice()) {
        Some(v) => v,
        None => return Err(RangeError::InvalidNumber(end_text)),
    };
    if start <= end {
        Ok((start, end))
    } else {
        Err(RangeError::StartAfterEnd)
    }
}

/// Writing a range as `start,end` in decimal and reading it back gives the
/// same range.
pub proof fn lemma_blame_range_round_trip(a: u32, b: u32)
    requires
        a <= b,
    ensures
        spec_parse_blame_range(decimal(a as nat) + seq![0x2cu8] + decimal(b as nat))
            == RangeResultView::Range(a, b),
{
    let da = decimal(a as nat);
    let s = da + seq![0x2cu8] + decimal(b as nat);
    crate::text::lemma_decimal_all_digits(a as nat);
    crate::text::lemma_parse_u32_reads_decimal(a);
    crate::text::lemma_parse_u32_reads_decimal(b);
    assert(s[da.len() as int] == 0x2c);
    assert forall|j: int| 0 <= j < da.len() implies s[j] != 0x2c by {
        assert(s[j] == da[j]);
    }
    let c = choose|i: int| 0 <= i < s.len() && s[i] == 0x2c && forall|j: int|
        0 <= j < i ==> s[j] != 0x2c;
    if c < da.len() {
        assert(s[c] == da[c]);
    } else if c > da.len() {
        assert(s[da.len() as int] != 0x2c);
    }
    assert(s.subrange(0, da.len() as int) =~= da);
    assert(s.subrange(da.len() as int + 1, s.len() as int) =~= decimal(b as nat));
}

/// A rename-similarity threshold as written on the command line.
#[derive(Clone, Copy, Debug, PartialEq, Eq, Structural)]
pub enum RenameFraction {
    /// `<n>%`: `n` hundredths.
    Percent(u32),
    /// `<n>`: the decimal fraction written `0.<n>`, with `n` in decimal
    /// without leading zeros.
    Decimal(u32),
}

/// A threshold ending in `%` is a percentage of the `u32` before it; any
/// other is a `u32` read as the digits after `0.`. The text that is not a
/// `u32` is refused.
pub open spec fn spec_parse_rename_fraction(s: Seq<u8>) -> Result<RenameFraction, Seq<u8>> {
    if s.len() > 0 && s.last() == 0x25 {
        match spec_parse_u32(s.drop_last()) {
            Some(v) => Ok(RenameFraction::Percent(v)),
            None => Err(s.drop_last()),
        }
    } else {
        match spec_parse_u32(s) {
            Some(v) => Ok(RenameFraction::Decimal(v)),
            None => Err(s),
        }
    }
}

/// The view of a parsed threshold.
pub open spec fn fraction_result_view(r: Result<RenameFraction, Vec<u8>>) -> Result<
    RenameFraction,
    Seq<u8>,
> {
    match r {
        Ok(f) => Ok(f),
        Err(t) => Err(t@),
    }
}

/// Reads a rename-similarity threshold, returning the text that is not a
/// `u32` when it is refused.
pub fn parse_rename_fraction(s: &[u8]) -> (fraction: Result<RenameFraction, Vec<u8>>)
    ensures
        fraction_result_view(fraction) == spec_parse_rename_fraction(s@),
{
    if s.len() > 0 && s[s.len() - 1] == 0x25 {
        let digits = copy_range(s, 0, s.len() - 1);
        assert(digits@ =~= s@.drop_last());
        match parse_u32(digits.as_slice()) {
            Some(v) => Ok(RenameFraction::Percent(v)),
            None => Err(digits),
        }
    } else {
        let digits = copy_range(s, 0, s.len());
        assert(digits@ =~= s@);
        match parse_u32(digits.as_slice()) {
            Some(v) => Ok(RenameFraction::Decimal(v)),
            None => Err(digits),
        }
    }
}

} // verus!
