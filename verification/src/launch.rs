//! The decisions taken when the host app asks for an editor instance: which
//! error code a request earns, the command line the editor starts with, the
//! process-wide runtime directory, which file descriptors to close, and what
//! to print instead of starting the editor.
use vstd::prelude::*;
use vstd::utf8::{decode_utf8, encode_utf8, valid_utf8};
use crate::text::push_str;

verus! {

/// No error was recorded.
pub const HELIX_ERROR_NONE: i32 = 0;

/// The runtime path was a null pointer.
pub const HELIX_ERROR_NULL_RUNTIME_PATH: i32 = 1;

/// The runtime path was not UTF-8.
pub const HELIX_ERROR_INVALID_RUNTIME_PATH_UTF8: i32 = 2;

/// The runtime path differed from the one the process already uses.
pub const HELIX_ERROR_RUNTIME_PATH_MISMATCH: i32 = 3;

/// The file path was not UTF-8.
pub const HELIX_ERROR_INVALID_FILE_PATH_UTF8: i32 = 4;

/// The editor thread could not be started.
pub const HELIX_ERROR_THREAD_SPAWN_FAILED: i32 = 5;

/// A command-line argument was not UTF-8.
pub const HELIX_ERROR_INVALID_ARG_UTF8: i32 = 6;

/// The command line was rejected by the editor's argument parser.
pub const HELIX_ERROR_ARG_PARSE_FAILED: i32 = 7;

/// Why an editor instance was not created.
#[derive(Clone, Copy, Debug, PartialEq, Eq, Structural)]
pub enum CreateError {
    NullRuntimePath,
    InvalidRuntimePathUtf8,
    RuntimePathMismatch,
    InvalidFilePathUtf8,
    ThreadSpawnFailed,
    InvalidArgUtf8,
    ArgParseFailed,
}

/// The error code reported for each failure.
pub open spec fn spec_error_code(e: CreateError) -> i32 {
    match e {
        CreateError::NullRuntimePath => HELIX_ERROR_NULL_RUNTIME_PATH,
        CreateError::InvalidRuntimePathUtf8 => HELIX_ERROR_INVALID_RUNTIME_PATH_UTF8,
        CreateError::RuntimePathMismatch => HELIX_ERROR_RUNTIME_PATH_MISMATCH,
        CreateError::InvalidFilePathUtf8 => HELIX_ERROR_INVALID_FILE_PATH_UTF8,
        CreateError::ThreadSpawnFailed => HELIX_ERROR_THREAD_SPAWN_FAILED,
        CreateError::InvalidArgUtf8 => HELIX_ERROR_INVALID_ARG_UTF8,
        CreateError::ArgParseFailed => HELIX_ERROR_ARG_PARSE_FAILED,
    }
}

impl CreateError {
    /// Returns the error code reported for this failure.
    pub fn code(&self) -> (code: i32)
        ensures
            code == spec_error_code(*self),
    {
        match self {
            CreateError::NullRuntimePath => HELIX_ERROR_NULL_RUNTIME_PATH,
            CreateError::InvalidRuntimePathUtf8 => HELIX_ERROR_INVALID_RUNTIME_PATH_UTF8,
            CreateError::RuntimePathMismatch => HELIX_ERROR_RUNTIME_PATH_MISMATCH,
            CreateError::InvalidFilePathUtf8 => HELIX_ERROR_INVALID_FILE_PATH_UTF8,
            CreateError::ThreadSpawnFailed => HELIX_ERROR_THREAD_SPAWN_FAILED,
            CreateError::InvalidArgUtf8 => HELIX_ERROR_INVALID_ARG_UTF8,
            CreateError::ArgParseFailed => HELIX_ERROR_ARG_PARSE_FAILED,
        }
    }
}

/// Every failure has its own nonzero code.
pub proof fn lemma_error_codes_distinct(a: CreateError, b: CreateError)
    ensures
        spec_error_code(a) != HELIX_ERROR_NONE,
        spec_error_code(a) == spec_error_code(b) <==> a == b,
{
}

/// Calls `std::str::from_utf8`. Claimed, as its documentation says: it
/// succeeds exactly on well-formed UTF-8 (vstd's `valid_utf8`) and then
/// yields the characters the bytes encode (vstd's `decode_utf8`).
#[verifier::external_body]
fn utf8_str(bytes: &[u8]) -> (s: Option<&str>)
    ensures
        s is Some <==> valid_utf8(bytes@),
        s matches Some(t) ==> t@ == decode_utf8(bytes@),
{
    std::str::from_utf8(bytes).ok()
}

/// The outcome of offering a runtime directory.
#[derive(Clone, Copy, Debug, PartialEq, Eq, Structural)]
pub enum Registration {
    /// No directory was set; this one is now the process's.
    Installed,
    /// The offered directory is the one already set.
    Matched,
    /// Another directory is already set; nothing changes.
    Mismatched,
}

/// The runtime directory shared by every editor instance of the process: the
/// one of the first instance that starts stays.
pub struct RuntimePathRegistry {
    configured: Option<String>,
}

impl View for RuntimePathRegistry {
    type V = Option<Seq<char>>;

    closed spec fn view(&self) -> Option<Seq<char>> {
        match self.configured {
            Some(s) => Some(s@),
            None => None,
        }
    }
}

/// The directory set and the outcome after offering `path`.
pub open spec fn spec_register(current: Option<Seq<char>>, path: Seq<char>) -> (
    Option<Seq<char>>,
    Registration,
) {
    match current {
        None => (Some(path), Registration::Installed),
        Some(p) => if p == path {
            (current, Registration::Matched)
        } else {
            (current, Registration::Mismatched)
        },
    }
}

/// Whether `path` may be the runtime directory: none is set yet, or it is the
/// one set.
pub open spec fn spec_accepts(current: Option<Seq<char>>, path: Seq<char>) -> bool {
    current is None || current == Some(path)
}

impl RuntimePathRegistry {
    /// A registry with no directory set.
    pub fn new() -> (registry: RuntimePathRegistry)
        ensures
            registry@ is None,
    {
        RuntimePathRegistry { configured: None }
    }

    /// Whether `path` may be the runtime directory.
    pub fn accepts(&self, path: &str) -> (ok: bool)
        ensures
            ok == spec_accepts(self@, path@),
    {
        match &self.configured {
            None => true,
            Some(existing) => {
                let offered: String = path.to_owned();
                *existing == offered
            },
        }
    }

    /// Offers `path` as the runtime directory.
    pub fn register(&mut self, path: &str) -> (outcome: Registration)
        ensures
            (final(self)@, outcome) == spec_register(old(self)@, path@),
    {
        let offered: String = path.to_owned();
        match &self.configured {
            None => {
                self.configured = Some(offered);
                Registration::Installed
            },
            Some(existing) => {
                if *existing == offered {
                    Registration::Matched
                } else {
                    Registration::Mismatched
                }
            },
        }
    }

    /// Returns the directory set, if any.
    pub fn configured(&self) -> (path: Option<&String>)
        ensures
            match path {
                Some(s) => self@ == Some(s@),
                None => self@ is None,
            },
    {
        match &self.configured {
            Some(s) => Some(s),
            None => None,
        }
    }
}

/// Offering a directory is accepted exactly when none is set or it is the one
/// set, and then that directory is the one set afterwards.
pub proof fn lemma_registration_accepts_same_path(current: Option<Seq<char>>, path: Seq<char>)
    ensures
        (spec_register(current, path).1 != Registration::Mismatched) <==> spec_accepts(
            current,
            path,
        ),
        spec_accepts(current, path) ==> spec_register(current, path).0 == Some(path),
        !spec_accepts(current, path) ==> spec_register(current, path).0 == current,
{
}

/// The program name the editor's command line starts with.
pub open spec fn program_name() -> Seq<char> {
    "hx"@
}

/// The views of a list of strings.
pub open spec fn string_views(v: Seq<String>) -> Seq<Seq<char>> {
    v.map_values(|s: String| s@)
}

/// The view of an optional byte string.
pub open spec fn opt_bytes(o: Option<&[u8]>) -> Option<Seq<u8>> {
    match o {
        Some(b) => Some(b@),
        None => None,
    }
}

/// The view of a decoded path or of the reason there is none.
pub open spec fn path_view(r: Result<String, CreateError>) -> Result<Seq<char>, CreateError> {
    match r {
        Ok(s) => Ok(s@),
        Err(e) => Err(e),
    }
}

/// The view of a command line or of the reason there is none.
pub open spec fn plan_view(r: Result<Vec<String>, CreateError>) -> Result<
    Seq<Seq<char>>,
    CreateError,
> {
    match r {
        Ok(v) => Ok(string_views(v@)),
        Err(e) => Err(e),
    }
}

/// The view of an accepted request (its runtime directory and its command
/// line) or of the reason it is refused.
pub open spec fn request_view(r: Result<(String, Vec<String>), CreateError>) -> Result<
    (Seq<char>, Seq<Seq<char>>),
    CreateError,
> {
    match r {
        Ok((path, args)) => Ok((path@, string_views(args@))),
        Err(e) => Err(e),
    }
}

/// Checks the runtime path offered by the host app against the process's
/// runtime directory: a null path, a path that is not UTF-8 and a path other
/// than the one set each earn their error; otherwise the decoded path.
pub open spec fn spec_runtime_check(
    registry: Option<Seq<char>>,
    runtime_path: Option<Seq<u8>>,
) -> Result<Seq<char>, CreateError> {
    match runtime_path {
        None => Err(CreateError::NullRuntimePath),
        Some(b) => if !valid_utf8(b) {
            Err(CreateError::InvalidRuntimePathUtf8)
        } else if !spec_accepts(registry, decode_utf8(b)) {
            Err(CreateError::RuntimePathMismatch)
        } else {
            Ok(decode_utf8(b))
        },
    }
}

/// The runtime directory and the editor's command line — `hx`, followed by
/// the file to open when there is one — or the reason the request is refused.
pub open spec fn spec_create_plan(
    registry: Option<Seq<char>>,
    runtime_path: Option<Seq<u8>>,
    file_path: Option<Seq<u8>>,
) -> Result<(Seq<char>, Seq<Seq<char>>), CreateError> {
    match spec_runtime_check(registry, runtime_path) {
        Err(e) => Err(e),
        Ok(path) => match file_path {
            None => Ok((path, seq![program_name()])),
            Some(f) => if valid_utf8(f) {
                Ok((path, seq![program_name(), decode_utf8(f)]))
            } else {
                Err(CreateError::InvalidFilePathUtf8)
            },
        },
    }
}

/// The runtime directory and the editor's command line — every argument
/// decoded — or the reason the request is refused.
pub open spec fn spec_create_with_args_plan(
    registry: Option<Seq<char>>,
    runtime_path: Option<Seq<u8>>,
    args: Seq<Seq<u8>>,
) -> Result<(Seq<char>, Seq<Seq<char>>), CreateError> {
    match spec_runtime_check(registry, runtime_path) {
        Err(e) => Err(e),
        Ok(path) => match spec_decode_args(args) {
            Err(e) => Err(e),
            Ok(decoded) => Ok((path, decoded)),
        },
    }
}

/// Checks the runtime path offered by the host app; returns it decoded, or
/// the error it earns. The registry is only read: the directory is set once
/// an editor has started (see `finish_create`).
pub fn check_runtime_path(runtime_path: Option<&[u8]>, registry: &RuntimePathRegistry) -> (checked:
    Result<String, CreateError>)
    ensures
        path_view(checked) == spec_runtime_check(registry@, opt_bytes(runtime_path)),
{
    match runtime_path {
        None => Err(CreateError::NullRuntimePath),
        Some(bytes) => match utf8_str(bytes) {
            None => Err(CreateError::InvalidRuntimePathUtf8),
            Some(path) => {
                if registry.accepts(path) {
                    Ok(path.to_owned())
                } else {
                    Err(CreateError::RuntimePathMismatch)
                }
            },
        },
    }
}

/// Validates a request to open the editor on an optional file and returns its
/// runtime directory and command line. Nothing is recorded: a refused request
/// leaves the process as it was.
pub fn prepare_create(
    runtime_path: Option<&[u8]>,
    file_path: Option<&[u8]>,
    registry: &RuntimePathRegistry,
) -> (plan: Result<(String, Vec<String>), CreateError>)
    ensures
        request_view(plan) == spec_create_plan(
            registry@,
            opt_bytes(runtime_path),
            opt_bytes(file_path),
        ),
{
    let path = match check_runtime_path(runtime_path, registry) {
        Ok(p) => p,
        Err(e) => return Err(e),
    };
    let mut args: Vec<String> = Vec::new();
    args.push("hx".to_owned());
    match file_path {
        None => {},
        Some(bytes) => match utf8_str(bytes) {
            Some(file) => args.push(file.to_owned()),
            None => return Err(CreateError::InvalidFilePathUtf8),
        },
    }
    proof {
        match opt_bytes(file_path) {
            None => assert(string_views(args@) =~= seq![program_name()]),
            Some(f) => assert(string_views(args@) =~= seq![program_name(), decode_utf8(f)]),
        }
    }
    Ok((path, args))
}

/// Records whether the editor of an accepted request started: a started
/// editor sets the process's runtime directory to `runtime_path` (when none is
/// set yet); an editor thread that could not be started earns its error and
/// changes nothing.
pub fn finish_create(registry: &mut RuntimePathRegistry, runtime_path: &str, spawned: bool) -> (err:
    Option<CreateError>)
    ensures
        final(registry)@ == (if spawned {
            spec_register(old(registry)@, runtime_path@).0
        } else {
            old(registry)@
        }),
        err == (if spawned {
            None
        } else {
            Some(CreateError::ThreadSpawnFailed)
        }),
{
    if spawned {
        registry.register(runtime_path);
        None
    } else {
        Some(CreateError::ThreadSpawnFailed)
    }
}

/// Decodes a command line argument by argument; the first argument that is
/// not UTF-8 refuses it.
pub open spec fn spec_decode_args(args: Seq<Seq<u8>>) -> Result<Seq<Seq<char>>, CreateError> {
    if forall|i: int| 0 <= i < args.len() ==> valid_utf8(#[trigger] args[i]) {
        Ok(args.map_values(|a: Seq<u8>| decode_utf8(a)))
    } else {
        Err(CreateError::InvalidArgUtf8)
    }
}

/// Decodes the arguments of a command line.
pub fn decode_args(args: &[Vec<u8>]) -> (decoded: Result<Vec<String>, CreateError>)
    ensures
        plan_view(decoded) == spec_decode_args(args@.map_values(|a: Vec<u8>| a@)),
{
    let ghost arg_views = args@.map_values(|a: Vec<u8>| a@);
    let mut raw_args: Vec<String> = Vec::new();
    let mut i: usize = 0;
    while i < args.len()
        invariant
            i <= args.len(),
            arg_views == args@.map_values(|a: Vec<u8>| a@),
            forall|j: int| 0 <= j < i ==> valid_utf8(#[trigger] arg_views[j]),
            string_views(raw_args@) =~= arg_views.take(i as int).map_values(
                |a: Seq<u8>| decode_utf8(a),
            ),
        decreases args.len() - i,
    {
        let bytes = args[i].as_slice();
        assert(bytes@ == arg_views[i as int]);
        let ghost before = raw_args@;
        match utf8_str(bytes) {
            Some(arg) => raw_args.push(arg.to_owned()),
            None => {
                assert(!valid_utf8(arg_views[i as int]));
                return Err(CreateError::InvalidArgUtf8);
            },
        }
        assert(string_views(raw_args@) =~= string_views(before).push(
            decode_utf8(arg_views[i as int]),
        ));
        assert(arg_views.take(i + 1) =~= arg_views.take(i as int).push(arg_views[i as int]));
        assert(arg_views.take(i + 1).map_values(|a: Seq<u8>| decode_utf8(a)) =~= arg_views.take(
            i as int,
        ).map_values(|a: Seq<u8>| decode_utf8(a)).push(decode_utf8(arg_views[i as int])));
        i += 1;
    }
    assert(arg_views.take(i as int) =~= arg_views);
    Ok(raw_args)
}

/// Validates a request to start the editor with a full command line and
/// returns its runtime directory and the command line decoded; the first
/// argument that is not UTF-8 refuses it. Nothing is recorded.
pub fn prepare_create_with_args(
    runtime_path: Option<&[u8]>,
    args: &[Vec<u8>],
    registry: &RuntimePathRegistry,
) -> (plan: Result<(String, Vec<String>), CreateError>)
    ensures
        request_view(plan) == spec_create_with_args_plan(
            registry@,
            opt_bytes(runtime_path),
            args@.map_values(|a: Vec<u8>| a@),
        ),
{
    let path = match check_runtime_path(runtime_path, registry) {
        Ok(p) => p,
        Err(e) => return Err(e),
    };
    match decode_args(args) {
        Ok(decoded) => Ok((path, decoded)),
        Err(e) => Err(e),
    }
}

/// The rest of a request's command line: the file to open, or the full
/// argument list.
pub enum RequestedCommand {
    File(Option<Seq<u8>>),
    Args(Seq<Seq<u8>>),
}

/// One request of the host app as the library sees it: the runtime path it
/// offers, the rest of its command line, and whether its editor thread
/// started once the request was accepted.
pub struct CreateRequest {
    pub runtime_path: Option<Seq<u8>>,
    pub command: RequestedCommand,
    pub spawned: bool,
}

/// The runtime directory and command line of a request, or the reason it is
/// refused.
pub open spec fn spec_request_plan(registry: Option<Seq<char>>, req: CreateRequest) -> Result<
    (Seq<char>, Seq<Seq<char>>),
    CreateError,
> {
    match req.command {
        RequestedCommand::File(f) => spec_create_plan(registry, req.runtime_path, f),
        RequestedCommand::Args(a) => spec_create_with_args_plan(registry, req.runtime_path, a),
    }
}

/// Whether a request succeeds: it is accepted and its editor starts.
pub open spec fn spec_request_succeeds(registry: Option<Seq<char>>, req: CreateRequest) -> bool {
    spec_request_plan(registry, req) is Ok && req.spawned
}

/// The runtime directory after a request: `prepare_create` (or
/// `prepare_create_with_args`) and then, for an accepted request,
/// `finish_create`.
pub open spec fn spec_after_request(registry: Option<Seq<char>>, req: CreateRequest) -> Option<
    Seq<char>,
> {
    match spec_request_plan(registry, req) {
        Ok((path, _)) => if req.spawned {
            spec_register(registry, path).0
        } else {
            registry
        },
        Err(_) => registry,
    }
}

/// The runtime directory after each of `reqs` in turn.
pub open spec fn spec_after_requests(registry: Option<Seq<char>>, reqs: Seq<CreateRequest>) -> Option<
    Seq<char>,
>
    decreases reqs.len(),
{
    if reqs.len() == 0 {
        registry
    } else {
        spec_after_requests(spec_after_request(registry, reqs[0]), reqs.drop_first())
    }
}

/// The runtime path of the first of `reqs` that succeeds in a process with no
/// runtime directory set, if any does.
pub open spec fn first_successful_runtime_path(reqs: Seq<CreateRequest>) -> Option<Seq<char>>
    decreases reqs.len(),
{
    if reqs.len() == 0 {
        None
    } else if spec_request_succeeds(None, reqs[0]) {
        match spec_request_plan(None, reqs[0]) {
            Ok((path, _)) => Some(path),
            Err(_) => None,
        }
    } else {
        first_successful_runtime_path(reqs.drop_first())
    }
}

/// A request that does not succeed (refused, or its editor did not start)
/// leaves the runtime directory as it was; one that succeeds leaves its own
/// runtime path set.
pub proof fn lemma_only_success_sets_runtime_path(registry: Option<Seq<char>>, req: CreateRequest)
    ensures
        !spec_request_succeeds(registry, req) ==> spec_after_request(registry, req) == registry,
        spec_request_succeeds(registry, req) ==> (spec_request_plan(registry, req) matches Ok(
            (path, _),
        ) && spec_after_request(registry, req) == Some(path)),
{
}

/// The runtime path of a request is checked against the first successful
/// request only: whatever requests failed before, a request is refused for
/// its runtime path exactly when another directory is set.
pub proof fn lemma_runtime_path_checked_against_set_directory(
    registry: Option<Seq<char>>,
    runtime_path: Seq<u8>,
)
    ensures
        (spec_runtime_check(registry, Some(runtime_path)) == Err::<Seq<char>, CreateError>(
            CreateError::RuntimePathMismatch,
        )) <==> (valid_utf8(runtime_path) && registry is Some && registry != Some(
            decode_utf8(runtime_path),
        )),
{
}

/// Whichever requests the host app makes, the runtime directory stays the one
/// already set, or else becomes the runtime path of the first request that
/// succeeds; failed requests set nothing.
pub proof fn lemma_first_runtime_path_wins(registry: Option<Seq<char>>, reqs: Seq<CreateRequest>)
    ensures
        spec_after_requests(registry, reqs) == (match registry {
            Some(p) => Some(p),
            None => first_successful_runtime_path(reqs),
        }),
    decreases reqs.len(),
{
    if reqs.len() > 0 {
        let next = spec_after_request(registry, reqs[0]);
        match registry {
            Some(p) => {
                assert(next == registry);
            },
            None => {},
        }
        lemma_first_runtime_path_wins(next, reqs.drop_first());
    }
}

/// The descriptors to close when a request is refused: the input pipe, and
/// the output pipe unless it is the same descriptor.
pub fn fds_to_close(input_fd: i32, output_fd: i32) -> (fds: Vec<i32>)
    ensures
        fds@ == if output_fd == input_fd {
            seq![input_fd]
        } else {
            seq![input_fd, output_fd]
        },
{
    let mut fds: Vec<i32> = Vec::new();
    fds.push(input_fd);
    if output_fd != input_fd {
        fds.push(output_fd);
    }
    fds
}

/// What an editor instance does once its command line is parsed.
#[derive(Clone, Copy, Debug, PartialEq, Eq, Structural)]
pub enum StartupAction {
    /// Print the health report and stop.
    PrintHealth,
    /// Print the notice that grammars are compiled in and stop.
    PrintGrammarNotice,
    /// Run the editor.
    RunEditor,
}

/// The health report wins over the grammar commands; either stops the
/// instance before the editor runs.
pub open spec fn spec_startup_action(health: bool, fetch_grammars: bool, build_grammars: bool) -> StartupAction {
    if health {
        StartupAction::PrintHealth
    } else if fetch_grammars || build_grammars {
        StartupAction::PrintGrammarNotice
    } else {
        StartupAction::RunEditor
    }
}

/// Decides what an instance does from its print-and-exit flags.
pub fn startup_action(health: bool, fetch_grammars: bool, build_grammars: bool) -> (action:
    StartupAction)
    ensures
        action == spec_startup_action(health, fetch_grammars, build_grammars),
{
    if health || fetch_grammars || build_grammars {
        if health {
            StartupAction::PrintHealth
        } else {
            StartupAction::PrintGrammarNotice
        }
    } else {
        StartupAction::RunEditor
    }
}

/// The health report is printed whenever it is asked for, whatever grammar
/// command comes with it; a grammar command alone prints the notice; the
/// editor runs only when none of the three is given.
pub proof fn lemma_startup_action_flags(health: bool, fetch_grammars: bool, build_grammars: bool)
    ensures
        health ==> spec_startup_action(health, fetch_grammars, build_grammars)
            == StartupAction::PrintHealth,
        !health && (fetch_grammars || build_grammars) ==> spec_startup_action(
            health,
            fetch_grammars,
            build_grammars,
        ) == StartupAction::PrintGrammarNotice,
        (spec_startup_action(health, fetch_grammars, build_grammars) == StartupAction::RunEditor)
            <==> (!health && !fetch_grammars && !build_grammars),
{
}

/// The message written to the output pipe when the command line is refused:
/// `hx: `, the parser's message, `\r\n`.
pub open spec fn arg_parse_failure_text(message: Seq<char>) -> Seq<u8> {
    encode_utf8("hx: "@) + encode_utf8(message) + seq![0x0du8, 0x0au8]
}

/// Returns the message written to the output pipe when the command line is
/// refused with the parser's `message`.
pub fn arg_parse_failure_message(message: &str) -> (text: Vec<u8>)
    ensures
        text@ == arg_parse_failure_text(message@),
{
    let mut out: Vec<u8> = Vec::new();
    push_str(&mut out, "hx: ");
    push_str(&mut out, message);
    out.push(0x0d);
    out.push(0x0a);
    out
}

} // verus!
