//! The reader of a launched process: what it asks for next, and how each
//! answer changes the recorded state.
//!
//! The reader drains standard output to its end, line by line, then standard
//! error in the same way, and then asks how the process exited. The two
//! streams are captured in two passes, so their lines are not interleaved,
//! and a process that fills its standard error while its standard output is
//! still open can stall the reader. A read that fails ends the draining at
//! once. The status stays `Running` until the exit has been reported, and is
//! written exactly once.

use vstd::prelude::*;
use crate::state::{ExecutionState, Snapshot};
use crate::status::ProcessStatus;

verus! {

/// What the reader needs from the host next.
#[derive(Clone, Copy, Debug, PartialEq, Eq, Structural)]
pub enum ReaderAction {
    /// Read the next line of the standard output of the process.
    ReadOutput,
    /// Read the next line of the standard error of the process.
    ReadErrorOutput,
    /// Ask for the exit status of the process, without blocking.
    QueryExit,
    /// Nothing: the state is final.
    Stop,
}

/// What the host reports back to the reader.
#[derive(Clone, Debug)]
pub enum ReaderEvent {
    /// The stream being drained gave one complete line, held here without
    /// its line terminator.
    Line(String),
    /// The stream being drained reached its end.
    EndOfStream,
    /// Reading the stream being drained failed.
    ReadFailed,
    /// The exit status was asked for: `Some(true)` for an exit with code
    /// zero, `Some(false)` for an exit with another code, `None` where the
    /// status could not be determined.
    Exited(Option<bool>),
}

/// How far the reader has come with a process that is still running.
#[derive(Clone, Copy, Debug, PartialEq, Eq, Structural)]
pub enum ReaderStage {
    /// Draining standard output.
    Output,
    /// Standard output is done; draining standard error.
    ErrorOutput,
    /// Both streams are done; the exit status is still to be asked for.
    Exit,
}

/// Consumes the output of a process and stores it in a state that it owns.
#[derive(Debug)]
pub struct ProcessReader {
    stage: ReaderStage,
    state: ExecutionState,
}

/// What a [`ProcessReader`] holds: how far it has come, and the state
/// recorded so far.
pub struct ReaderView {
    pub stage: ReaderStage,
    pub state: Snapshot,
}

impl ReaderView {
    /// The reader of a process that has just been launched.
    pub open spec fn initial() -> ReaderView {
        ReaderView { stage: ReaderStage::Output, state: Snapshot::initial() }
    }

    /// What the reader needs next: nothing once the status is terminal, and
    /// before that what its stage calls for.
    pub open spec fn pending(self) -> ReaderAction {
        if self.state.status.finished() {
            ReaderAction::Stop
        } else {
            match self.stage {
                ReaderStage::Output => ReaderAction::ReadOutput,
                ReaderStage::ErrorOutput => ReaderAction::ReadErrorOutput,
                ReaderStage::Exit => ReaderAction::QueryExit,
            }
        }
    }

    /// The reader after a line of standard output was captured.
    pub open spec fn with_output(self, line: Seq<char>) -> ReaderView {
        ReaderView {
            stage: self.stage,
            state: Snapshot {
                output: self.state.output.push(line),
                error_output: self.state.error_output,
                status: self.state.status,
            },
        }
    }

    /// The reader after a line of standard error was captured.
    pub open spec fn with_error_output(self, line: Seq<char>) -> ReaderView {
        ReaderView {
            stage: self.stage,
            state: Snapshot {
                output: self.state.output,
                error_output: self.state.error_output.push(line),
                status: self.state.status,
            },
        }
    }

    /// The reader at another stage, with the same state.
    pub open spec fn at_stage(self, stage: ReaderStage) -> ReaderView {
        ReaderView { stage, state: self.state }
    }

    /// The reader with the status that an exit report resolves to.
    pub open spec fn with_exit(self, exit: Option<bool>) -> ReaderView {
        ReaderView {
            stage: self.stage,
            state: Snapshot {
                output: self.state.output,
                error_output: self.state.error_output,
                status: ProcessStatus::of_exit(exit),
            },
        }
    }

    /// The reader after one event. An event that does not answer the
    /// pending request changes nothing.
    pub open spec fn step(self, event: ReaderEvent) -> ReaderView {
        match (self.pending(), event) {
            (ReaderAction::ReadOutput, ReaderEvent::Line(line)) => self.with_output(line@),
            (ReaderAction::ReadOutput, ReaderEvent::EndOfStream) => self.at_stage(
                ReaderStage::ErrorOutput,
            ),
            (ReaderAction::ReadOutput, ReaderEvent::ReadFailed) => self.at_stage(ReaderStage::Exit),
            (ReaderAction::ReadErrorOutput, ReaderEvent::Line(line)) => self.with_error_output(
                line@,
            ),
            (ReaderAction::ReadErrorOutput, ReaderEvent::EndOfStream) => self.at_stage(
                ReaderStage::Exit,
            ),
            (ReaderAction::ReadErrorOutput, ReaderEvent::ReadFailed) => self.at_stage(
                ReaderStage::Exit,
            ),
            (ReaderAction::QueryExit, ReaderEvent::Exited(exit)) => self.with_exit(exit),
            _ => self,
        }
    }

    /// The reader after a sequence of events, the first of them first.
    pub open spec fn run(self, events: Seq<ReaderEvent>) -> ReaderView
        decreases events.len(),
    {
        if events.len() == 0 {
            self
        } else {
            self.run(events.drop_last()).step(events.last())
        }
    }
}

impl View for ProcessReader {
    type V = ReaderView;

    closed spec fn view(&self) -> ReaderView {
        ReaderView { stage: self.stage, state: self.state@ }
    }
}

impl ProcessReader {
    /// The reader of a process that has just been launched: it waits on the
    /// first line of standard output, with nothing captured and the status
    /// `Running`.
    pub fn new() -> (reader: Self)
        ensures
            reader@ == ReaderView::initial(),
    {
        ProcessReader { stage: ReaderStage::Output, state: ExecutionState::new() }
    }

    /// What the reader needs next.
    pub fn pending(&self) -> (action: ReaderAction)
        ensures
            action == self@.pending(),
    {
        if self.state.status.is_finished() {
            ReaderAction::Stop
        } else {
            match self.stage {
                ReaderStage::Output => ReaderAction::ReadOutput,
                ReaderStage::ErrorOutput => ReaderAction::ReadErrorOutput,
                ReaderStage::Exit => ReaderAction::QueryExit,
            }
        }
    }

    /// An independent copy of the state recorded so far.
    pub fn state(&self) -> (state: ExecutionState)
        ensures
            state@ == self@.state,
    {
        self.state.clone()
    }

    /// Take in one event and return the next request. While a stream is
    /// drained, a line is appended to the sequence of that stream; the end
    /// of standard output turns the reader to standard error; the end of
    /// standard error, or a read that failed on either stream, turns it to
    /// the exit status. The exit report then sets the terminal status. An
    /// event that does not answer the pending request is ignored. Whatever
    /// the event, nothing recorded before is taken back.
    pub fn process_output(&mut self, event: ReaderEvent) -> (action: ReaderAction)
        ensures
            final(self)@ == old(self)@.step(event),
            old(self)@.state.precedes(final(self)@.state),
            action == final(self)@.pending(),
    {
        let ghost before = self@;
        proof {
            lemma_step_precedes(before, event);
        }
        match (self.pending(), event) {
            (ReaderAction::ReadOutput, ReaderEvent::Line(line)) => {
                self.state.output.push(line);
                assert(self.state.output.deep_view() =~= before.state.output.push(line@));
            },
            (ReaderAction::ReadOutput, ReaderEvent::EndOfStream) => {
                self.stage = ReaderStage::ErrorOutput;
            },
            (ReaderAction::ReadOutput, ReaderEvent::ReadFailed) => {
                self.stage = ReaderStage::Exit;
            },
            (ReaderAction::ReadErrorOutput, ReaderEvent::Line(line)) => {
                self.state.error_output.push(line);
                assert(self.state.error_output.deep_view() =~= before.state.error_output.push(
                    line@,
                ));
            },
            (ReaderAction::ReadErrorOutput, ReaderEvent::EndOfStream) => {
                self.stage = ReaderStage::Exit;
            },
            (ReaderAction::ReadErrorOutput, ReaderEvent::ReadFailed) => {
                self.stage = ReaderStage::Exit;
            },
            (ReaderAction::QueryExit, ReaderEvent::Exited(exit)) => {
                self.state.status = ProcessStatus::from_exit(exit);
            },
            _ => {},
        }
        self.pending()
    }

    /// Take in a sequence of events, the first of them first, and return
    /// the request that the reader is left with. Whatever the events,
    /// nothing recorded before is taken back.
    pub fn run(&mut self, events: Vec<ReaderEvent>) -> (action: ReaderAction)
        ensures
            final(self)@ == old(self)@.run(events@),
            old(self)@.state.precedes(final(self)@.state),
            action == final(self)@.pending(),
    {
        let ghost before = self@;
        proof {
            lemma_run_precedes(before, events@);
        }
        for event in it: events
            invariant
                it.seq() == events@,
                self@ == before.run(events@.take(it.index() as int)),
        {
            let ghost taken = events@.take(it.index() as int + 1);
            assert(taken.drop_last() =~= events@.take(it.index() as int));
            assert(taken.last() == event);
            self.process_output(event);
        }
        assert(events@.take(events@.len() as int) =~= events@);
        self.pending()
    }
}

/// The events of a stream that gives `lines`, one event for each line, in
/// their order.
pub open spec fn line_events(lines: Seq<String>) -> Seq<ReaderEvent> {
    lines.map_values(|line: String| ReaderEvent::Line(line))
}

/// The characters of each of `lines`.
pub open spec fn line_views(lines: Seq<String>) -> Seq<Seq<char>> {
    lines.map_values(|line: String| line@)
}

/// No event takes anything back: after it, both sequences of lines start
/// with what they held before, and a terminal state is what it was.
pub proof fn lemma_step_precedes(reader: ReaderView, event: ReaderEvent)
    ensures
        reader.state.precedes(reader.step(event).state),
{
}

/// No sequence of events takes anything back.
pub proof fn lemma_run_precedes(reader: ReaderView, events: Seq<ReaderEvent>)
    ensures
        reader.state.precedes(reader.run(events).state),
    decreases events.len(),
{
    if events.len() > 0 {
        lemma_run_precedes(reader, events.drop_last());
        lemma_step_precedes(reader.run(events.drop_last()), events.last());
    }
}

/// Running over two sequences of events, one after the other, is running
/// over the first and then, from where that left the reader, over the
/// second.
pub proof fn lemma_run_concat(
    reader: ReaderView,
    first: Seq<ReaderEvent>,
    later: Seq<ReaderEvent>,
)
    ensures
        reader.run(first + later) == reader.run(first).run(later),
    decreases later.len(),
{
    if later.len() == 0 {
        assert(first + later =~= first);
    } else {
        assert((first + later).drop_last() =~= first + later.drop_last());
        assert((first + later).last() == later.last());
        lemma_run_concat(reader, first, later.drop_last());
    }
}

/// A terminal status is absorbing. Take two polls of one reader, the
/// earlier after the events `first` and the other after the events `later`
/// that followed. If the earlier poll saw `Success` or `Failure`, the other
/// sees that same status, and with it the same lines: neither `Running` nor
/// the opposite terminal value can be seen again.
pub proof fn lemma_terminal_status_is_absorbing(
    reader: ReaderView,
    first: Seq<ReaderEvent>,
    later: Seq<ReaderEvent>,
)
    requires
        reader.run(first).state.status.finished(),
    ensures
        reader.run(first + later).state.status == reader.run(first).state.status,
        reader.run(first + later).state == reader.run(first).state,
        reader.run(first + later).pending() == ReaderAction::Stop,
{
    lemma_run_concat(reader, first, later);
    lemma_run_precedes(reader.run(first), later);
}

/// The captured output only grows. Take two polls of one reader, the
/// earlier after the events `first` and the other after the events `later`
/// that followed. What the earlier poll saw of each stream is the start of
/// what the other sees: no line is dropped, changed or moved.
pub proof fn lemma_output_only_grows(
    reader: ReaderView,
    first: Seq<ReaderEvent>,
    later: Seq<ReaderEvent>,
)
    ensures
        reader.run(first).state.output.is_prefix_of(reader.run(first + later).state.output),
        reader.run(first).state.error_output.is_prefix_of(
            reader.run(first + later).state.error_output,
        ),
{
    lemma_run_concat(reader, first, later);
    lemma_run_precedes(reader.run(first), later);
}

/// The status stays `Running` until the exit is reported: events that
/// report no exit leave a running process running, whatever they capture.
pub proof fn lemma_running_until_exit(reader: ReaderView, events: Seq<ReaderEvent>)
    requires
        reader.state.status == ProcessStatus::Running,
        forall|i: int| 0 <= i < events.len() ==> !(#[trigger] events[i] is Exited),
    ensures
        reader.run(events).state.status == ProcessStatus::Running,
    decreases events.len(),
{
    if events.len() > 0 {
        lemma_running_until_exit(reader, events.drop_last());
        assert(!(events[events.len() - 1] is Exited));
    }
}

/// An exit is taken in only once both streams are done: a reader that is
/// not waiting on the exit status, because it still drains a stream or has
/// stopped, ignores an exit report.
pub proof fn lemma_exit_waits_for_streams(reader: ReaderView, exit: Option<bool>)
    requires
        reader.pending() != ReaderAction::QueryExit,
    ensures
        reader.step(ReaderEvent::Exited(exit)) == reader,
{
}

/// A reader that drains a stream captures the lines that the stream gives,
/// in their order, at the end of the sequence of that stream, and goes on
/// draining it.
pub proof fn lemma_lines_are_appended(reader: ReaderView, lines: Seq<String>)
    ensures
        reader.pending() == ReaderAction::ReadOutput ==> reader.run(line_events(lines))
            == (ReaderView {
            stage: reader.stage,
            state: Snapshot {
                output: reader.state.output + line_views(lines),
                error_output: reader.state.error_output,
                status: reader.state.status,
            },
        }),
        reader.pending() == ReaderAction::ReadErrorOutput ==> reader.run(line_events(lines))
            == (ReaderView {
            stage: reader.stage,
            state: Snapshot {
                output: reader.state.output,
                error_output: reader.state.error_output + line_views(lines),
                status: reader.state.status,
            },
        }),
    decreases lines.len(),
{
    if lines.len() == 0 {
        assert(reader.state.output + line_views(lines) =~= reader.state.output);
        assert(reader.state.error_output + line_views(lines) =~= reader.state.error_output);
    } else {
        let shorter = lines.drop_last();
        lemma_lines_are_appended(reader, shorter);
        assert(line_events(lines).drop_last() =~= line_events(shorter));
        assert(line_events(lines).last() == ReaderEvent::Line(lines.last()));
        assert(line_views(lines) =~= line_views(shorter).push(lines.last()@));
        assert(reader.state.output + line_views(lines) =~= (reader.state.output + line_views(
            shorter,
        )).push(lines.last()@));
        assert(reader.state.error_output + line_views(lines) =~= (reader.state.error_output
            + line_views(shorter)).push(lines.last()@));
    }
}

/// The events of a process that prints `output` and `error_output`, closes
/// both streams and is then seen to exit as `exit` says.
pub open spec fn complete_run(
    output: Seq<String>,
    error_output: Seq<String>,
    exit: Option<bool>,
) -> Seq<ReaderEvent> {
    line_events(output) + seq![ReaderEvent::EndOfStream] + line_events(error_output)
        + seq![ReaderEvent::EndOfStream, ReaderEvent::Exited(exit)]
}

/// A process that is followed to its end leaves exactly what it printed:
/// its lines of standard output in their order, its lines of standard
/// error in their order, and the status that its exit resolves to.
pub proof fn lemma_complete_run(output: Seq<String>, error_output: Seq<String>, exit: Option<bool>)
    ensures
        ReaderView::initial().run(complete_run(output, error_output, exit)).state == (Snapshot {
            output: line_views(output),
            error_output: line_views(error_output),
            status: ProcessStatus::of_exit(exit),
        }),
        ReaderView::initial().run(complete_run(output, error_output, exit)).pending()
            == ReaderAction::Stop,
{
    let start = ReaderView::initial();
    let output_end = seq![ReaderEvent::EndOfStream];
    let error_end = seq![ReaderEvent::EndOfStream, ReaderEvent::Exited(exit)];
    let drained = start.run(line_events(output));
    lemma_lines_are_appended(start, output);
    assert(Seq::<Seq<char>>::empty() + line_views(output) =~= line_views(output));
    let turned = drained.run(output_end);
    assert(turned == drained.at_stage(ReaderStage::ErrorOutput)) by {
        reveal_with_fuel(ReaderView::run, 2);
        assert(output_end.drop_last().len() == 0);
    }
    let drained_twice = turned.run(line_events(error_output));
    lemma_lines_are_appended(turned, error_output);
    assert(Seq::<Seq<char>>::empty() + line_views(error_output) =~= line_views(error_output));
    let ended = drained_twice.run(error_end);
    assert(ended == drained_twice.at_stage(ReaderStage::Exit).with_exit(exit)) by {
        reveal_with_fuel(ReaderView::run, 3);
        assert(error_end.drop_last().len() == 1);
        assert(error_end.drop_last().drop_last().len() == 0);
        assert(error_end.drop_last().last() == ReaderEvent::EndOfStream);
    }
    lemma_run_concat(start, line_events(output), output_end);
    lemma_run_concat(start, line_events(output) + output_end, line_events(error_output));
    lemma_run_concat(
        start,
        line_events(output) + output_end + line_events(error_output),
        error_end,
    );
}

} // verus!
