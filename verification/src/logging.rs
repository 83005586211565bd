//! The worker that drains the redirected standard output into `app.log`,
//! putting the file aside as `app.log.old` whenever it has grown to
//! `MAX_LOGFILE_LENGTH` bytes or a write to it has failed.
//!
//! The worker's thread, the pipe and the files belong to the program. After
//! every read and every write it reports the outcome here and is told how to
//! go on. `LogFiles` and `drain` describe what the two files hold when the
//! program follows these decisions.

use vstd::prelude::*;
use crate::utils::strings::{join_path, joined};

verus! {

/// Size at which the current log file is put aside, in bytes.
pub const MAX_LOGFILE_LENGTH: usize = 20971520;

/// Path of the current log file below `base_dir`.
pub fn log_file_path(base_dir: &str) -> (path: String)
    ensures
        path@ == joined(base_dir@, "app.log"@),
{
    join_path(base_dir, "app.log")
}

/// Path below `base_dir` under which the previous log file is kept.
pub fn rotated_log_file_path(base_dir: &str) -> (path: String)
    ensures
        path@ == joined(base_dir@, "app.log.old"@),
{
    join_path(base_dir, "app.log.old")
}

/// Path below `base_dir` of the file that receives the standard error stream.
pub fn error_log_file_path(base_dir: &str) -> (path: String)
    ensures
        path@ == joined(base_dir@, "app_err.log"@),
{
    join_path(base_dir, "app_err.log")
}

/// A sink that accepts every write and keeps nothing.
pub struct Discard {}

impl Discard {
    /// Accepts all of `buf`.
    pub fn write(&mut self, buf: &[u8]) -> (accepted: Result<usize, ()>)
        ensures
            accepted == Ok::<usize, ()>(buf@.len() as usize),
    {
        Ok(buf.len())
    }

    /// Nothing is buffered, so nothing is left to do.
    pub fn flush(&mut self) -> (done: Result<(), ()>)
        ensures
            done == Ok::<(), ()>(()),
    {
        Ok(())
    }
}

/// What the worker writes to.
#[derive(Clone, Copy, PartialEq, Eq, Debug, Structural)]
pub enum Sink {
    /// The current log file.
    File,
    /// Nothing: the log file could not be opened.
    Discard,
}

/// One operation on the log directory.
#[derive(Clone, Copy, PartialEq, Eq, Debug, Structural)]
pub enum FileStep {
    /// Delete the rotated file.
    RemoveRotated,
    /// Give the current file the rotated file's name.
    RenameCurrentToRotated,
    /// Create the current file, or empty it, and open it for writing.
    OpenCurrent,
}

/// The sink to use once the attempt to open the current file has ended.
pub open spec fn sink_after_open(opened: bool) -> Sink {
    if opened {
        Sink::File
    } else {
        Sink::Discard
    }
}

/// The operations that put the current file aside and start a new one. An
/// older rotated file is removed first, whether or not there is a current
/// file to take its name.
pub open spec fn reopen_steps(current_exists: bool) -> Seq<FileStep> {
    if current_exists {
        seq![FileStep::RemoveRotated, FileStep::RenameCurrentToRotated, FileStep::OpenCurrent]
    } else {
        seq![FileStep::RemoveRotated, FileStep::OpenCurrent]
    }
}

/// Whether the worker is done, given what the last read from the pipe
/// returned: the number of bytes, or `None` after a failed read.
pub open spec fn read_ends_stream(outcome: Option<usize>) -> bool {
    match outcome {
        Some(size) => size == 0,
        None => true,
    }
}

/// Whether the log file has to be reopened after an attempt to write `len`
/// bytes, `written` bytes having gone to it before.
pub open spec fn must_reopen(written: nat, len: nat, ok: bool) -> bool {
    !ok || written + len >= MAX_LOGFILE_LENGTH
}

/// The byte count after that attempt.
pub open spec fn written_after(written: nat, len: nat, ok: bool) -> nat {
    if must_reopen(written, len, ok) {
        0
    } else {
        written + len
    }
}

/// The steps to take in the log directory before writing to a new file:
/// `reopen_steps`, in order. A step that fails is passed over, except the
/// last: its outcome goes to `LogWorker::start` or `LogWorker::on_reopen`.
pub fn open_stdout_logfile_or_discard(current_exists: bool) -> (steps: Vec<FileStep>)
    ensures
        steps@ == reopen_steps(current_exists),
{
    let mut steps: Vec<FileStep> = Vec::new();
    steps.push(FileStep::RemoveRotated);
    if current_exists {
        steps.push(FileStep::RenameCurrentToRotated);
    }
    steps.push(FileStep::OpenCurrent);
    steps
}

/// The worker's state between two lines.
pub struct LogWorker {
    sink: Sink,
    written: usize,
}

impl LogWorker {
    #[verifier::type_invariant]
    spec fn below_ceiling(self) -> bool {
        self.written < MAX_LOGFILE_LENGTH
    }

    /// What the worker writes to.
    pub closed spec fn sink(&self) -> Sink {
        self.sink
    }

    /// Bytes written since the sink was opened.
    pub closed spec fn written(&self) -> nat {
        self.written as nat
    }

    /// The worker after its first attempt to open the log file.
    pub fn start(opened: bool) -> (worker: LogWorker)
        ensures
            worker.sink() == sink_after_open(opened),
            worker.written() == 0,
    {
        LogWorker { sink: if opened { Sink::File } else { Sink::Discard }, written: 0 }
    }

    /// The sink that the next line goes to.
    pub fn current_sink(&self) -> (sink: Sink)
        ensures
            sink == self.sink(),
    {
        self.sink
    }

    /// The number of bytes that went to the sink since it was opened. It is
    /// always below `MAX_LOGFILE_LENGTH`.
    pub fn bytes_written(&self) -> (written: usize)
        ensures
            written == self.written(),
            written < MAX_LOGFILE_LENGTH,
    {
        proof {
            use_type_invariant(self);
        }
        self.written
    }

    /// Whether the worker stops after a read from the pipe: at the end of the
    /// stream and after a failed read, never otherwise.
    pub fn on_read(&self, outcome: Option<usize>) -> (stop: bool)
        ensures
            stop == read_ends_stream(outcome),
    {
        match outcome {
            Some(size) => size == 0,
            None => true,
        }
    }

    /// Takes note of an attempt to write a line of `len` bytes and says whether
    /// the log file has to be reopened before the next line.
    pub fn on_write(&mut self, len: usize, ok: bool) -> (reopen: bool)
        ensures
            reopen == must_reopen(old(self).written(), len as nat, ok),
            final(self).written() == written_after(old(self).written(), len as nat, ok),
            final(self).sink() == old(self).sink(),
    {
        proof {
            use_type_invariant(&*self);
        }
        let reopen = !ok || len >= MAX_LOGFILE_LENGTH - self.written;
        if reopen {
            self.written = 0;
        } else {
            self.written = self.written + len;
        }
        reopen
    }

    /// Takes note of how the attempt to open a new log file ended.
    pub fn on_reopen(&mut self, opened: bool)
        ensures
            final(self).sink() == sink_after_open(opened),
            final(self).written() == 0,
    {
        *self = LogWorker::start(opened);
    }
}

/// The two log files: what each holds, or `None` where it does not exist.
pub ghost struct LogFiles {
    pub current: Option<Seq<u8>>,
    pub rotated: Option<Seq<u8>>,
}

/// The files after `step` has succeeded.
pub open spec fn after_step(files: LogFiles, step: FileStep) -> LogFiles {
    match step {
        FileStep::RemoveRotated => LogFiles { current: files.current, rotated: None },
        FileStep::RenameCurrentToRotated => LogFiles { current: None, rotated: files.current },
        FileStep::OpenCurrent => LogFiles { current: Some(Seq::empty()), rotated: files.rotated },
    }
}

/// The files after each of `steps` has succeeded, in order.
pub open spec fn after_steps(files: LogFiles, steps: Seq<FileStep>) -> LogFiles
    decreases steps.len(),
{
    if steps.len() == 0 {
        files
    } else {
        after_steps(after_step(files, steps[0]), steps.drop_first())
    }
}

/// The files after the steps of `open_stdout_logfile_or_discard` have
/// succeeded.
pub open spec fn reopened(files: LogFiles) -> LogFiles {
    after_steps(files, reopen_steps(files.current is Some))
}

/// The files after `line` has gone to the current file.
pub open spec fn appended(files: LogFiles, line: Seq<u8>) -> LogFiles {
    LogFiles {
        current: Some(
            match files.current {
                Some(held) => held + line,
                None => line,
            },
        ),
        rotated: files.rotated,
    }
}

/// The log directory and the worker's counters while every write and every
/// file operation succeeds.
pub ghost struct Drain {
    pub files: LogFiles,
    /// Bytes written since the current file was opened.
    pub written: nat,
    /// How often the current file has been put aside since the start.
    pub rotations: nat,
}

/// The state in which the worker takes its first line: the file is open and
/// empty, and what `app.log` held before has become `app.log.old`.
pub open spec fn opened_log(before: LogFiles) -> Drain {
    Drain { files: reopened(before), written: 0, rotations: 0 }
}

/// The state after one more line.
pub open spec fn drain_line(before: Drain, line: Seq<u8>) -> Drain {
    let files = appended(before.files, line);
    if must_reopen(before.written, line.len(), true) {
        Drain { files: reopened(files), written: 0, rotations: before.rotations + 1 }
    } else {
        Drain { files, written: before.written + line.len(), rotations: before.rotations }
    }
}

/// The state after `lines`, taken in order.
pub open spec fn drain(start: Drain, lines: Seq<Seq<u8>>) -> Drain
    decreases lines.len(),
{
    if lines.len() == 0 {
        start
    } else {
        drain_line(drain(start, lines.drop_last()), lines.last())
    }
}

/// The bytes of `lines`, one line after the other.
pub open spec fn all_bytes(lines: Seq<Seq<u8>>) -> Seq<u8>
    decreases lines.len(),
{
    if lines.len() == 0 {
        Seq::empty()
    } else {
        all_bytes(lines.drop_last()) + lines.last()
    }
}

/// Reopening leaves an empty current file. What the current file held becomes
/// the rotated file; where there was no current file no rotated file is left.
pub proof fn lemma_reopened(files: LogFiles)
    ensures
        reopened(files).current == Some(Seq::<u8>::empty()),
        files.current is Some ==> reopened(files).rotated == files.current,
        files.current is None ==> reopened(files).rotated is None,
{
    reveal_with_fuel(after_steps, 4);
}

/// The line that takes the byte count to the ceiling is the last one of its
/// file: the file is put aside under the rotated name, in place of any older
/// rotated file, and the next line goes to an empty file, counted from zero.
pub proof fn lemma_line_at_ceiling_rotates(before: Drain, line: Seq<u8>)
    requires
        before.files.current is Some,
        before.written + line.len() >= MAX_LOGFILE_LENGTH,
    ensures
        drain_line(before, line).files.current == Some(Seq::<u8>::empty()),
        drain_line(before, line).files.rotated == Some(before.files.current->0 + line),
        drain_line(before, line).written == 0,
        drain_line(before, line).rotations == before.rotations + 1,
{
    lemma_reopened(appended(before.files, line));
}

/// What the two files hold after any number of lines. The current file holds
/// as many bytes as the counter says, fewer than the ceiling. Before the first
/// rotation it holds every line. From the first rotation on there is a rotated
/// file of at least `MAX_LOGFILE_LENGTH` bytes, and as long as no second
/// rotation has taken place the rotated file followed by the current one is
/// exactly what was written: not a byte is lost. Every rotation takes at
/// least `MAX_LOGFILE_LENGTH` bytes of input, so input of that size or more
/// always brings a rotation, and input of less than twice that size brings
/// no second one.
pub proof fn lemma_rotation_keeps_bytes(before: LogFiles, lines: Seq<Seq<u8>>)
    ensures
        ({
            let end = drain(opened_log(before), lines);
            &&& end.files.current is Some
            &&& end.files.current->0.len() == end.written
            &&& end.written < MAX_LOGFILE_LENGTH
            &&& end.rotations == 0 ==> end.files.current->0 == all_bytes(lines)
                && end.files.rotated == reopened(before).rotated
            &&& end.rotations >= 1 ==> end.files.rotated is Some
                && end.files.rotated->0.len() >= MAX_LOGFILE_LENGTH
            &&& end.rotations == 1 ==> end.files.rotated->0 + end.files.current->0
                == all_bytes(lines)
            &&& end.rotations * MAX_LOGFILE_LENGTH + end.written <= all_bytes(lines).len()
            &&& all_bytes(lines).len() >= MAX_LOGFILE_LENGTH ==> end.rotations >= 1
            &&& all_bytes(lines).len() < 2 * MAX_LOGFILE_LENGTH ==> end.rotations <= 1
        }),
    decreases lines.len(),
{
    lemma_reopened(before);
    if lines.len() > 0 {
        let earlier = drain(opened_log(before), lines.drop_last());
        let line = lines.last();
        lemma_rotation_keeps_bytes(before, lines.drop_last());
        lemma_reopened(appended(earlier.files, line));
    }
}

/// What the worker learns about one line: its length, whether the log file
/// took it, and whether the log file could be opened where that was tried.
pub ghost struct LineReport {
    pub len: nat,
    pub file_took_it: bool,
    pub reopen_ok: bool,
}

/// The worker's sink and byte count after a line. The discarding sink takes
/// every line.
pub open spec fn worker_step(state: (Sink, nat), report: LineReport) -> (Sink, nat) {
    let ok = state.0 == Sink::Discard || report.file_took_it;
    if must_reopen(state.1, report.len, ok) {
        (sink_after_open(report.reopen_ok), 0)
    } else {
        (state.0, written_after(state.1, report.len, ok))
    }
}

/// The worker's sink and byte count after `reports`, taken in order.
pub open spec fn worker_run(start: (Sink, nat), reports: Seq<LineReport>) -> (Sink, nat)
    decreases reports.len(),
{
    if reports.len() == 0 {
        start
    } else {
        worker_step(worker_run(start, reports.drop_last()), reports.last())
    }
}

/// No failure stops the worker: whatever the writes and the attempts to open
/// the file come to, it is ready for the next line with its count below the
/// ceiling. While the log directory takes no write and lets no file be
/// opened, the worker discards: from the first line on its sink is
/// `Sink::Discard`.
pub proof fn lemma_worker_outlives_failures(start: (Sink, nat), reports: Seq<LineReport>)
    requires
        start.1 < MAX_LOGFILE_LENGTH,
    ensures
        worker_run(start, reports).1 < MAX_LOGFILE_LENGTH,
        reports.len() > 0 && (forall|i: int|
            0 <= i < reports.len() ==> !(#[trigger] reports[i]).file_took_it
                && !reports[i].reopen_ok) ==> worker_run(start, reports).0 == Sink::Discard,
    decreases reports.len(),
{
    if reports.len() > 0 {
        let earlier = reports.drop_last();
        lemma_worker_outlives_failures(start, earlier);
        if forall|i: int|
            0 <= i < reports.len() ==> !(#[trigger] reports[i]).file_took_it
                && !reports[i].reopen_ok {
            assert forall|i: int| 0 <= i < earlier.len() implies !(#[trigger] earlier[i]).file_took_it
                && !earlier[i].reopen_ok by {
                assert(earlier[i] == reports[i]);
            }
        }
    }
}

/// The reports of a run in which the file takes every line and can be opened
/// whenever that is tried.
pub open spec fn healthy_reports(lines: Seq<Seq<u8>>) -> Seq<LineReport> {
    Seq::new(
        lines.len(),
        |i: int| LineReport { len: lines[i].len(), file_took_it: true, reopen_ok: true },
    )
}

/// In such a run the worker keeps writing to the file, and its byte count is
/// the size of the current log file.
pub proof fn lemma_worker_counts_current_file(before: LogFiles, lines: Seq<Seq<u8>>)
    ensures
        worker_run((Sink::File, 0), healthy_reports(lines)) == (
            Sink::File,
            drain(opened_log(before), lines).written,
        ),
        drain(opened_log(before), lines).files.current is Some,
        drain(opened_log(before), lines).files.current->0.len() == drain(
            opened_log(before),
            lines,
        ).written,
    decreases lines.len(),
{
    lemma_rotation_keeps_bytes(before, lines);
    if lines.len() > 0 {
        lemma_worker_counts_current_file(before, lines.drop_last());
        assert(healthy_reports(lines).drop_last() =~= healthy_reports(lines.drop_last()));
    }
}

} // verus!
