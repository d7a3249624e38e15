//! The decisions of the thread that reads terminal input from the input pipe:
//! it polls the pipe with a timeout, so that it can notice a shutdown request,
//! reads what arrives and hands it to the escape-sequence parser.
use vstd::prelude::*;
use vstd::slice::slice_subrange;

verus! {

/// The events a poll reported for the pipe.
#[derive(Clone, Copy, Debug, PartialEq, Eq, Structural)]
pub struct PollEvents {
    /// Data can be read.
    pub readable: bool,
    /// The writing end was closed.
    pub hangup: bool,
    /// The pipe is in an error state.
    pub error: bool,
}

/// What a poll of the input pipe returned.
#[derive(Clone, Copy, Debug, PartialEq, Eq, Structural)]
pub enum PollOutcome {
    /// The poll failed; `interrupted` when a signal interrupted it.
    Failed { interrupted: bool },
    /// The timeout passed with nothing to report.
    TimedOut,
    /// The pipe is ready with these events.
    Ready(PollEvents),
}

/// What a read of the input pipe returned.
#[derive(Clone, Copy, Debug, PartialEq, Eq, Structural)]
pub enum ReadOutcome {
    /// The writing end is closed and everything was read.
    EndOfInput,
    /// This many bytes arrived (more than zero).
    Bytes(usize),
    /// The read failed; `interrupted` when a signal interrupted it.
    Failed { interrupted: bool },
}

/// What the reader does next.
#[derive(Clone, Copy, Debug, PartialEq, Eq, Structural)]
pub enum ReaderStep {
    /// Check for shutdown and poll again.
    PollAgain,
    /// Read from the pipe.
    Read,
    /// Parse and forward this many bytes, then poll again.
    Forward(usize),
    /// Send the error to the editor and stop reading.
    ReportErrorAndStop,
    /// Stop reading.
    Stop,
}

/// After a poll: interrupted polls and timeouts poll again; any other failure
/// is reported and ends the reader; a hang-up or error ends it even when data
/// is readable; readable data is read; anything else polls again.
pub open spec fn spec_after_poll(outcome: PollOutcome) -> ReaderStep {
    match outcome {
        PollOutcome::Failed { interrupted } => if interrupted {
            ReaderStep::PollAgain
        } else {
            ReaderStep::ReportErrorAndStop
        },
        PollOutcome::TimedOut => ReaderStep::PollAgain,
        PollOutcome::Ready(events) => if events.hangup || events.error {
            ReaderStep::Stop
        } else if events.readable {
            ReaderStep::Read
        } else {
            ReaderStep::PollAgain
        },
    }
}

/// Decides what follows a poll of the input pipe.
pub fn after_poll(outcome: PollOutcome) -> (step: ReaderStep)
    ensures
        step == spec_after_poll(outcome),
{
    match outcome {
        PollOutcome::Failed { interrupted } => {
            if interrupted {
                ReaderStep::PollAgain
            } else {
                ReaderStep::ReportErrorAndStop
            }
        },
        PollOutcome::TimedOut => ReaderStep::PollAgain,
        PollOutcome::Ready(events) => {
            if events.hangup || events.error {
                ReaderStep::Stop
            } else if events.readable {
                ReaderStep::Read
            } else {
                ReaderStep::PollAgain
            }
        },
    }
}

/// After a read: the end of input stops the reader; bytes are forwarded; an
/// interrupted read polls again; any other failure is reported and ends the
/// reader.
pub open spec fn spec_after_read(outcome: ReadOutcome) -> ReaderStep {
    match outcome {
        ReadOutcome::EndOfInput => ReaderStep::Stop,
        ReadOutcome::Bytes(n) => ReaderStep::Forward(n),
        ReadOutcome::Failed { interrupted } => if interrupted {
            ReaderStep::PollAgain
        } else {
            ReaderStep::ReportErrorAndStop
        },
    }
}

/// Decides what follows a read of the input pipe.
pub fn after_read(outcome: ReadOutcome) -> (step: ReaderStep)
    ensures
        step == spec_after_read(outcome),
{
    match outcome {
        ReadOutcome::EndOfInput => ReaderStep::Stop,
        ReadOutcome::Bytes(n) => ReaderStep::Forward(n),
        ReadOutcome::Failed { interrupted } => {
            if interrupted {
                ReaderStep::PollAgain
            } else {
                ReaderStep::ReportErrorAndStop
            }
        },
    }
}

/// Whether a zero-timeout poll taken right after a read shows more input
/// waiting: it succeeded and reported readable data. The parser is told so,
/// which lets it wait for the rest of an escape sequence split across reads.
pub open spec fn spec_more_input_waiting(outcome: PollOutcome) -> bool {
    match outcome {
        PollOutcome::Ready(events) => events.readable,
        _ => false,
    }
}

/// Returns whether a zero-timeout poll shows more input waiting.
pub fn more_input_waiting(outcome: PollOutcome) -> (waiting: bool)
    ensures
        waiting == spec_more_input_waiting(outcome),
{
    match outcome {
        PollOutcome::Ready(events) => events.readable,
        _ => false,
    }
}

/// termina's incremental input parser.
#[verifier::external_type_specification]
#[verifier::external_body]
pub struct ExTerminaParser(termina::Parser);

/// A terminal input event, as termina's parser produces it.
#[verifier::external_type_specification]
#[verifier::external_body]
pub struct ExTerminaEvent(termina::Event);

/// The bytes a parser holds of an input sequence not yet complete.
pub uninterp spec fn parser_pending(parser: termina::Parser) -> Seq<u8>;

/// The events a parser has completed and not yet handed out, oldest first.
pub uninterp spec fn parser_queue(parser: termina::Parser) -> Seq<termina::Event>;

/// What termina's parser makes of `chunk` while it holds `pending`: the bytes
/// it holds afterwards, and the events it completes, oldest first.
pub uninterp spec fn parse_result(pending: Seq<u8>, chunk: Seq<u8>, maybe_more: bool) -> (
    Seq<u8>,
    Seq<termina::Event>,
);

/// Calls `termina::Parser::default`. Claimed, as its source shows: the new
/// parser holds no bytes and no events.
#[verifier::external_body]
fn new_parser() -> (parser: termina::Parser)
    ensures
        parser_pending(parser) == Seq::<u8>::empty(),
        parser_queue(parser) == Seq::<termina::Event>::empty(),
{
    termina::Parser::default()
}

/// Calls `termina::Parser::parse`. Claimed: the bytes held afterwards and the
/// events completed depend only on the bytes held before, `chunk` and
/// `maybe_more` (named `parse_result`, not spelled out), and the completed
/// events join the end of the queue.
#[verifier::external_body]
fn parse_into(parser: &mut termina::Parser, chunk: &[u8], maybe_more: bool)
    ensures
        parser_pending(*final(parser)) == parse_result(
            parser_pending(*old(parser)),
            chunk@,
            maybe_more,
        ).0,
        parser_queue(*final(parser)) == parser_queue(*old(parser)) + parse_result(
            parser_pending(*old(parser)),
            chunk@,
            maybe_more,
        ).1,
{
    parser.parse(chunk, maybe_more)
}

/// Calls `termina::Parser::pop`. Claimed, as its source shows: the oldest
/// queued event leaves the queue and is returned; an empty queue gives
/// nothing; the bytes held do not change.
#[verifier::external_body]
fn pop_event(parser: &mut termina::Parser) -> (event: Option<termina::Event>)
    ensures
        parser_pending(*final(parser)) == parser_pending(*old(parser)),
        parser_queue(*old(parser)).len() == 0 ==> event is None && parser_queue(*final(parser))
            == parser_queue(*old(parser)),
        parser_queue(*old(parser)).len() > 0 ==> event == Some(parser_queue(*old(parser))[0])
            && parser_queue(*final(parser)) == parser_queue(*old(parser)).drop_first(),
{
    parser.pop()
}

/// The reader's escape-sequence parser.
pub struct InputReader {
    parser: termina::Parser,
}

impl InputReader {
    /// The bytes the reader holds of a sequence not yet complete.
    pub closed spec fn pending(&self) -> Seq<u8> {
        parser_pending(self.parser)
    }

    /// The events completed and not yet handed out.
    pub closed spec fn queued(&self) -> Seq<termina::Event> {
        parser_queue(self.parser)
    }

    /// A reader that holds no bytes and no events.
    pub fn new() -> (reader: InputReader)
        ensures
            reader.pending() == Seq::<u8>::empty(),
            reader.queued() == Seq::<termina::Event>::empty(),
    {
        InputReader { parser: new_parser() }
    }

    /// Decides what follows a read of the input pipe and, when bytes arrived,
    /// hands the first `n` bytes of `buf` to the parser — told whether more
    /// input is waiting, from `more_waiting`, a zero-timeout poll taken after
    /// the read — and returns every event completed, oldest first. Otherwise
    /// nothing changes and no event is returned.
    pub fn read_step(&mut self, outcome: ReadOutcome, buf: &[u8], more_waiting: PollOutcome) -> (r: (
        ReaderStep,
        Vec<termina::Event>,
    ))
        requires
            outcome matches ReadOutcome::Bytes(n) ==> n <= buf@.len(),
        ensures
            r.0 == spec_after_read(outcome),
            match outcome {
                ReadOutcome::Bytes(n) => {
                    let parsed = parse_result(
                        old(self).pending(),
                        buf@.take(n as int),
                        spec_more_input_waiting(more_waiting),
                    );
                    &&& final(self).pending() == parsed.0
                    &&& r.1@ == old(self).queued() + parsed.1
                    &&& final(self).queued() == Seq::<termina::Event>::empty()
                },
                _ => {
                    &&& final(self).pending() == old(self).pending()
                    &&& final(self).queued() == old(self).queued()
                    &&& r.1@ == Seq::<termina::Event>::empty()
                },
            },
    {
        let step = after_read(outcome);
        let mut events: Vec<termina::Event> = Vec::new();
        if let ReadOutcome::Bytes(n) = outcome {
            let chunk = slice_subrange(buf, 0, n);
            let maybe_more = more_input_waiting(more_waiting);
            let ghost before = parser_queue(self.parser);
            let ghost parsed = parse_result(parser_pending(self.parser), chunk@, maybe_more);
            parse_into(&mut self.parser, chunk, maybe_more);
            loop
                invariant
                    parser_pending(self.parser) == parsed.0,
                    events@ + parser_queue(self.parser) == before + parsed.1,
                ensures
                    parser_pending(self.parser) == parsed.0,
                    events@ == before + parsed.1,
                    parser_queue(self.parser).len() == 0,
                decreases parser_queue(self.parser).len(),
            {
                let ghost q = parser_queue(self.parser);
                match pop_event(&mut self.parser) {
                    Some(event) => {
                        events.push(event);
                        assert(q =~= seq![q[0]] + q.drop_first());
                        assert(events@ + parser_queue(self.parser) =~= before + parsed.1);
                    },
                    None => {
                        assert(events@ =~= events@ + q);
                        break;
                    },
                }
            }
            proof {
                assert(chunk@ == buf@.take(n as int));
                assert(parser_queue(self.parser) =~= Seq::<termina::Event>::empty());
            }
        }
        (step, events)
    }
}

/// A reader never reads after its pipe hung up or failed, and a poll never
/// asks to forward bytes: only a read does.
pub proof fn lemma_poll_never_forwards(outcome: PollOutcome)
    ensures
        !(spec_after_poll(outcome) is Forward),
        outcome matches PollOutcome::Ready(e) && (e.hangup || e.error) ==> spec_after_poll(outcome)
            == ReaderStep::Stop,
{
}

/// Interrupted system calls never end the reader.
pub proof fn lemma_interruptions_are_retried()
    ensures
        spec_after_poll(PollOutcome::Failed { interrupted: true }) == ReaderStep::PollAgain,
        spec_after_read(ReadOutcome::Failed { interrupted: true }) == ReaderStep::PollAgain,
{
}

} // verus!
