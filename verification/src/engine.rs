//! The process-execution engine behind the external-command backend.
//!
//! Running a configured command is a cooperative protocol between this
//! resumable state machine, which decides *what* I/O is needed next, and
//! an [`EnginePort`], which performs it. On every turn the engine
//! publishes one request; the port answers with the outcome of any one
//! readiness condition the request offers; the engine advances until the
//! child has exited and both output pipes are drained, or spawning
//! failed. The engine never insists on writing the secret payload before
//! output may be drained, which is what rules out the classic pipe
//! deadlock; see [`Engine::lemma_plan_never_starves`].

use vstd::prelude::*;

use crate::codec::{decode_utf8, decode_utf8_lossy, lossy_utf8, spec_strip_terminator,
    strip_terminator, utf8_decode};
use crate::error::Error;
use crate::secret::Secret;

verus! {

/// An executable path plus ordered arguments plus environment
/// overrides; one per operation of an external-command backend.
pub struct CommandSpec {
    pub program: String,
    pub args: Vec<String>,
    pub envs: Vec<(String, String)>,
}

/// Everything one finished child-process run produced.
pub struct ExecutionResult {
    pub code: i32,
    pub stdout: Vec<u8>,
    pub stderr: Vec<u8>,
}

impl ExecutionResult {
    /// Success is determined purely by exit status.
    pub open spec fn spec_success(self) -> bool {
        self.code == 0
    }
}

#[derive(Clone, Copy, PartialEq, Eq, Structural)]
pub enum Phase {
    /// The child has not been started yet.
    Spawning,
    /// The child is running; pipes are being serviced.
    Streaming,
    /// The child exited and every pipe is finished.
    Done,
    /// The child could not be spawned.
    Aborted,
}

/// The readiness conditions the engine is waiting on while the child
/// runs. The port satisfies any one of the offered conditions and
/// reports what happened.
pub struct IoPlan {
    /// The unwritten tail of the stdin payload, offered while bytes
    /// remain and stdin is open.
    pub write: Option<Vec<u8>>,
    /// Offered once the whole payload is written and stdin is open.
    pub close_stdin: bool,
    /// Offered while the child's standard output is open.
    pub read_out: bool,
    /// Offered while the child's standard error is open.
    pub read_err: bool,
    /// Offered while the child has not been seen to exit.
    pub wait: bool,
}

/// What the engine asks its port to do next.
pub enum IoRequest {
    /// Start the child, with its stdin wired to a pipe or not.
    Spawn { pipe_stdin: bool },
    /// Service any one of the offered readiness conditions.
    Io(IoPlan),
}

/// The outcome the port reports for one satisfied readiness condition.
pub enum IoEvent {
    Spawned,
    SpawnFailed(String),
    /// This many bytes of the offered chunk reached the child's stdin.
    Wrote(usize),
    /// The child's stdin is closed (deliberately, or because the child
    /// stopped reading).
    StdinClosed,
    /// A non-empty chunk arrived on standard output.
    OutData(Vec<u8>),
    OutEof,
    /// A non-empty chunk arrived on standard error.
    ErrData(Vec<u8>),
    ErrEof,
    Exited(i32),
}

/// What one resumption of the engine produced.
pub enum Step {
    Running,
    Done(ExecutionResult),
    Failed(Error),
}

/// Whether `ev` is a legitimate answer to `req`: the port may only
/// report outcomes of conditions the request offered.
pub open spec fn admits(req: IoRequest, ev: IoEvent) -> bool {
    match req {
        IoRequest::Spawn { .. } => ev is Spawned || ev is SpawnFailed,
        IoRequest::Io(p) => match ev {
            IoEvent::Spawned => false,
            IoEvent::SpawnFailed(_) => false,
            IoEvent::Wrote(n) => p.write matches Some(c) && 1 <= n <= c@.len(),
            IoEvent::StdinClosed => p.write is Some || p.close_stdin,
            IoEvent::OutData(b) => p.read_out && b@.len() > 0,
            IoEvent::OutEof => p.read_out,
            IoEvent::ErrData(b) => p.read_err && b@.len() > 0,
            IoEvent::ErrEof => p.read_err,
            IoEvent::Exited(_) => p.wait,
        },
    }
}

/// Whether a request offers at least one condition, so that a port can
/// always answer it.
pub open spec fn live(req: IoRequest) -> bool {
    match req {
        IoRequest::Spawn { .. } => true,
        IoRequest::Io(p) => p.write is Some || p.close_stdin || p.read_out || p.read_err
            || p.wait,
    }
}

/// Performs the engine's I/O: spawning the child and satisfying one
/// offered readiness condition per turn. A blocking caller satisfies
/// them directly; an event loop satisfies whichever becomes ready.
///
/// The port's budget bounds how many data chunks it can still deliver;
/// it stands for the child's output being finite. A child that streams
/// forever, or hangs, hangs the operation: there is deliberately no
/// timeout.
pub trait EnginePort {
    /// An upper bound on the data chunks still to come; an impl that
    /// leaves the default in place promises to deliver none.
    open spec fn budget(&self) -> nat {
        0
    }

    fn perform(&mut self, cmd: &CommandSpec, req: &IoRequest) -> (ev: IoEvent)
        requires
            live(*req),
        ensures
            admits(*req, ev),
            final(self).budget() <= old(self).budget(),
            ev is OutData || ev is ErrData ==> final(self).budget() < old(self).budget(),
    ;
}

/// The resumable spawn/pipe/wait state machine.
pub struct Engine {
    /// The bytes owed to the child's stdin; empty when `has_stdin` is
    /// false.
    pub payload: Vec<u8>,
    /// Whether the child's stdin is piped at all.
    pub has_stdin: bool,
    /// How much of the payload the port has confirmed written.
    pub written: usize,
    /// Whether stdin is finished (fully written and closed, or given up
    /// because the child stopped reading or exited).
    pub stdin_done: bool,
    pub out: Vec<u8>,
    pub out_eof: bool,
    pub err: Vec<u8>,
    pub err_eof: bool,
    pub exit_code: Option<i32>,
    pub phase: Phase,
}

impl Engine {
    pub open spec fn all_io_done(self) -> bool {
        self.stdin_done && self.out_eof && self.err_eof && self.exit_code is Some
    }

    pub open spec fn wf(self) -> bool {
        &&& self.written <= self.payload.len()
        &&& (!self.has_stdin ==> self.stdin_done && self.written == 0)
        &&& (self.phase is Spawning ==> self.written == 0 && !self.out_eof && !self.err_eof
            && self.exit_code is None && self.out@.len() == 0 && self.err@.len() == 0 && (
        self.has_stdin ==> !self.stdin_done))
        &&& (self.phase is Streaming ==> !self.all_io_done())
        &&& (self.phase is Done ==> self.all_io_done())
    }

    /// The plan the engine publishes in a given streaming state. The
    /// two deadlock-relevant facts: the offered chunk is always exactly
    /// the unwritten payload tail, and reading each open output stream
    /// is offered no matter how much stdin is still owed.
    pub open spec fn plan_ok(self, p: IoPlan) -> bool {
        &&& (p.write is Some <==> !self.stdin_done && self.written < self.payload.len())
        &&& (p.write matches Some(c) ==> c@ == self.payload@.subrange(
            self.written as int,
            self.payload@.len() as int,
        ))
        &&& p.close_stdin == (!self.stdin_done && self.written == self.payload.len())
        &&& p.read_out == !self.out_eof
        &&& p.read_err == !self.err_eof
        &&& p.wait == (self.exit_code is None)
    }

    /// The request that belongs to a given state.
    pub open spec fn request_ok(self, req: IoRequest) -> bool {
        match req {
            IoRequest::Spawn { pipe_stdin } => self.phase is Spawning && pipe_stdin
                == self.has_stdin,
            IoRequest::Io(p) => self.phase is Streaming && self.plan_ok(p),
        }
    }

    /// Whether `ev` can happen in this state.
    pub open spec fn event_ok(self, ev: IoEvent) -> bool {
        match ev {
            IoEvent::Spawned => self.phase is Spawning,
            IoEvent::SpawnFailed(_) => self.phase is Spawning,
            IoEvent::Wrote(n) => self.phase is Streaming && !self.stdin_done && 1 <= n
                <= self.payload.len() - self.written,
            IoEvent::StdinClosed => self.phase is Streaming && !self.stdin_done,
            IoEvent::OutData(b) => self.phase is Streaming && !self.out_eof && b@.len() > 0,
            IoEvent::OutEof => self.phase is Streaming && !self.out_eof,
            IoEvent::ErrData(b) => self.phase is Streaming && !self.err_eof && b@.len() > 0,
            IoEvent::ErrEof => self.phase is Streaming && !self.err_eof,
            IoEvent::Exited(_) => self.phase is Streaming && self.exit_code is None,
        }
    }

    /// A legitimate answer to the state's own request can happen in
    /// that state.
    pub proof fn lemma_admitted_event_ok(self, req: IoRequest, ev: IoEvent)
        requires
            self.wf(),
            self.request_ok(req),
            admits(req, ev),
        ensures
            self.event_ok(ev),
    {
    }

    pub open spec fn spec_written_after(self, ev: IoEvent) -> int {
        match ev {
            IoEvent::Wrote(n) => self.written + n,
            _ => self.written as int,
        }
    }

    pub open spec fn spec_stdin_done_after(self, ev: IoEvent) -> bool {
        match ev {
            IoEvent::StdinClosed => true,
            IoEvent::Exited(_) => true,
            _ => self.stdin_done,
        }
    }

    pub open spec fn spec_out_eof_after(self, ev: IoEvent) -> bool {
        self.out_eof || ev is OutEof
    }

    pub open spec fn spec_err_eof_after(self, ev: IoEvent) -> bool {
        self.err_eof || ev is ErrEof
    }

    pub open spec fn spec_exit_after(self, ev: IoEvent) -> Option<i32> {
        match ev {
            IoEvent::Exited(c) => Some(c),
            _ => self.exit_code,
        }
    }

    pub open spec fn spec_out_after(self, ev: IoEvent) -> Seq<u8> {
        match ev {
            IoEvent::OutData(b) => self.out@ + b@,
            _ => self.out@,
        }
    }

    pub open spec fn spec_err_after(self, ev: IoEvent) -> Seq<u8> {
        match ev {
            IoEvent::ErrData(b) => self.err@ + b@,
            _ => self.err@,
        }
    }

    pub open spec fn spec_finished_after(self, ev: IoEvent) -> bool {
        &&& self.spec_stdin_done_after(ev)
        &&& self.spec_out_eof_after(ev)
        &&& self.spec_err_eof_after(ev)
        &&& self.spec_exit_after(ev) is Some
    }

    pub open spec fn spec_phase_after(self, ev: IoEvent) -> Phase {
        match ev {
            IoEvent::SpawnFailed(_) => Phase::Aborted,
            IoEvent::Spawned => Phase::Streaming,
            _ => if self.spec_finished_after(ev) {
                Phase::Done
            } else {
                Phase::Streaming
            },
        }
    }

    /// Starts an engine for a command whose stdin is left unwired.
    pub fn new() -> (e: Engine)
        ensures
            e.wf(),
            e.phase is Spawning,
            !e.has_stdin,
            e.payload@.len() == 0,
    {
        Engine {
            payload: Vec::new(),
            has_stdin: false,
            written: 0,
            stdin_done: true,
            out: Vec::new(),
            out_eof: false,
            err: Vec::new(),
            err_eof: false,
            exit_code: None,
            phase: Phase::Spawning,
        }
    }

    /// Starts an engine that will stream `payload` to the child's stdin
    /// and close it, never via an argument or the environment.
    pub fn new_with_stdin(payload: Vec<u8>) -> (e: Engine)
        ensures
            e.wf(),
            e.phase is Spawning,
            e.has_stdin,
            e.payload@ == payload@,
    {
        Engine {
            payload,
            has_stdin: true,
            written: 0,
            stdin_done: false,
            out: Vec::new(),
            out_eof: false,
            err: Vec::new(),
            err_eof: false,
            exit_code: None,
            phase: Phase::Spawning,
        }
    }

    /// The request the engine is currently waiting on.
    pub fn current_request(&self) -> (req: IoRequest)
        requires
            self.wf(),
            self.phase is Spawning || self.phase is Streaming,
        ensures
            self.request_ok(req),
            live(req),
    {
        match self.phase {
            Phase::Spawning => IoRequest::Spawn { pipe_stdin: self.has_stdin },
            _ => {
                let write = if !self.stdin_done && self.written < self.payload.len() {
                    Some(tail_from(&self.payload, self.written))
                } else {
                    None
                };
                IoRequest::Io(
                    IoPlan {
                        write,
                        close_stdin: !self.stdin_done && self.written == self.payload.len(),
                        read_out: !self.out_eof,
                        read_err: !self.err_eof,
                        wait: self.exit_code.is_none(),
                    },
                )
            },
        }
    }

    /// Resumes the engine with the outcome of one satisfied readiness
    /// condition.
    pub fn step(&mut self, ev: IoEvent) -> (r: Step)
        requires
            old(self).wf(),
            old(self).event_ok(ev),
        ensures
            final(self).wf(),
            final(self).payload@ == old(self).payload@,
            final(self).has_stdin == old(self).has_stdin,
            final(self).written == old(self).spec_written_after(ev),
            final(self).stdin_done == old(self).spec_stdin_done_after(ev),
            final(self).out@ == old(self).spec_out_after(ev),
            final(self).out_eof == old(self).spec_out_eof_after(ev),
            final(self).err@ == old(self).spec_err_after(ev),
            final(self).err_eof == old(self).spec_err_eof_after(ev),
            final(self).exit_code == old(self).spec_exit_after(ev),
            final(self).phase == old(self).spec_phase_after(ev),
            r is Running <==> final(self).phase is Streaming && !(ev is SpawnFailed),
            r matches Step::Done(res) ==> (final(self).phase is Done
                && res.stdout@ == final(self).out@
                && res.stderr@ == final(self).err@
                && Some(res.code) == final(self).exit_code),
            r is Done <==> final(self).phase is Done,
            r matches Step::Failed(e) ==> (final(self).phase is Aborted && (ev matches
                IoEvent::SpawnFailed(m) && e matches Error::SpawnError(d) && d@ == m@)),
            r is Failed <==> ev is SpawnFailed,
    {
        match ev {
            IoEvent::Spawned => {
                self.phase = Phase::Streaming;
                Step::Running
            },
            IoEvent::SpawnFailed(m) => {
                self.phase = Phase::Aborted;
                Step::Failed(Error::SpawnError(m))
            },
            IoEvent::Wrote(n) => {
                self.written = self.written + n;
                Step::Running
            },
            IoEvent::StdinClosed => {
                self.stdin_done = true;
                self.finish_if_done()
            },
            IoEvent::OutData(b) => {
                let mut chunk = b;
                self.out.append(&mut chunk);
                Step::Running
            },
            IoEvent::OutEof => {
                self.out_eof = true;
                self.finish_if_done()
            },
            IoEvent::ErrData(b) => {
                let mut chunk = b;
                self.err.append(&mut chunk);
                Step::Running
            },
            IoEvent::ErrEof => {
                self.err_eof = true;
                self.finish_if_done()
            },
            IoEvent::Exited(c) => {
                self.exit_code = Some(c);
                self.stdin_done = true;
                self.finish_if_done()
            },
        }
    }

    fn finish_if_done(&mut self) -> (r: Step)
        requires
            old(self).written <= old(self).payload.len(),
            old(self).phase is Streaming,
        ensures
            *final(self) == (Engine {
                phase: final(self).phase,
                ..*old(self)
            }),
            final(self).phase == (if old(self).all_io_done() {
                Phase::Done
            } else {
                Phase::Streaming
            }),
            r is Running <==> !old(self).all_io_done(),
            r matches Step::Done(res) ==> (res.stdout@ == final(self).out@
                && res.stderr@ == final(self).err@
                && Some(res.code) == final(self).exit_code),
            r is Done <==> old(self).all_io_done(),
    {
        if self.stdin_done && self.out_eof && self.err_eof {
            if let Some(code) = self.exit_code {
                self.phase = Phase::Done;
                return Step::Done(
                    ExecutionResult {
                        code,
                        stdout: copy_bytes(&self.out),
                        stderr: copy_bytes(&self.err),
                    },
                );
            }
        }
        Step::Running
    }

    /// How much work remains before the run can complete.
    pub open spec fn measure(self) -> int {
        (self.payload.len() - self.written) + (if self.stdin_done {
            0int
        } else {
            1int
        }) + (if self.out_eof {
            0int
        } else {
            1int
        }) + (if self.err_eof {
            0int
        } else {
            1int
        }) + (if self.exit_code is Some {
            0int
        } else {
            1int
        }) + (if self.phase is Spawning {
            1int
        } else {
            0int
        })
    }

    /// While streaming, every open channel stays offered: payload that
    /// is still owed never stops the output pipes from being drained,
    /// and pending output never stops the payload from being written.
    /// This is the shape that makes the classic parent/child pipe
    /// deadlock impossible for a port that serves whichever offered
    /// condition becomes ready.
    pub proof fn lemma_plan_never_starves(self, p: IoPlan)
        requires
            self.wf(),
            self.phase is Streaming,
            self.plan_ok(p),
        ensures
            !self.out_eof ==> p.read_out,
            !self.err_eof ==> p.read_err,
            self.exit_code is None ==> p.wait,
            !self.stdin_done ==> p.write is Some || p.close_stdin,
            live(IoRequest::Io(p)),
    {
    }

    /// Every event except a data delivery strictly shrinks the measure,
    /// and none grows it: once the child exits and its streams end, the
    /// driving loop finishes after finitely many non-data events.
    pub proof fn lemma_step_progress(self, ev: IoEvent)
        requires
            self.wf(),
            self.phase is Streaming,
            self.event_ok(ev),
        ensures
            (Engine {
                written: self.spec_written_after(ev) as usize,
                stdin_done: self.spec_stdin_done_after(ev),
                out_eof: self.spec_out_eof_after(ev),
                err_eof: self.spec_err_eof_after(ev),
                exit_code: self.spec_exit_after(ev),
                ..self
            }).measure() <= self.measure(),
            !(ev is OutData || ev is ErrData) ==> (Engine {
                written: self.spec_written_after(ev) as usize,
                stdin_done: self.spec_stdin_done_after(ev),
                out_eof: self.spec_out_eof_after(ev),
                err_eof: self.spec_err_eof_after(ev),
                exit_code: self.spec_exit_after(ev),
                ..self
            }).measure() < self.measure(),
    {
    }
}

/// A copy of the byte vector's tail starting at `start`.
fn tail_from(v: &Vec<u8>, start: usize) -> (r: Vec<u8>)
    requires
        start <= v.len(),
    ensures
        r@ == v@.subrange(start as int, v@.len() as int),
{
    let mut r: Vec<u8> = Vec::new();
    let mut i: usize = start;
    while i < v.len()
        invariant
            start <= i <= v.len(),
            r@ == v@.subrange(start as int, i as int),
        decreases v.len() - i,
    {
        r.push(v[i]);
        assert(r@ =~= v@.subrange(start as int, i + 1));
        i = i + 1;
    }
    r
}

fn copy_bytes(v: &Vec<u8>) -> (r: Vec<u8>)
    ensures
        r@ == v@,
{
    let mut r: Vec<u8> = Vec::new();
    let mut i: usize = 0;
    while i < v.len()
        invariant
            i <= v.len(),
            r@ == v@.subrange(0, i as int),
        decreases v.len() - i,
    {
        r.push(v[i]);
        assert(r@ =~= v@.subrange(0, i + 1));
        i = i + 1;
    }
    assert(v@.subrange(0, v@.len() as int) =~= v@);
    r
}

/// Spawns `cmd` through the port and services its I/O to completion,
/// streaming `payload` (when given) to the child's stdin. The only
/// failure is a spawn failure; a child that runs and exits non-zero
/// still yields its execution result.
pub fn run_command<P: EnginePort>(cmd: &CommandSpec, payload: Option<Vec<u8>>, port: &mut P) -> (r:
    Result<ExecutionResult, Error>)
    ensures
        r matches Err(e) ==> e is SpawnError,
{
    let mut engine = match payload {
        Some(p) => Engine::new_with_stdin(p),
        None => Engine::new(),
    };
    loop
        invariant
            engine.wf(),
            engine.phase is Spawning || engine.phase is Streaming,
        decreases port.budget(), engine.measure(),
    {
        let req = engine.current_request();
        let ghost pre = engine;
        let ev = port.perform(cmd, &req);
        proof {
            engine.lemma_admitted_event_ok(req, ev);
        }
        match engine.step(ev) {
            Step::Running => {
                assert(ev is OutData || ev is ErrData || engine.measure() < pre.measure());
            },
            Step::Done(res) => {
                return Ok(res);
            },
            Step::Failed(e) => {
                return Err(e);
            },
        }
    }
}

/// The generic diagnostic for each operation, used when a failing
/// command printed nothing at all.
pub open spec fn spec_failure_text(out: Seq<u8>, err: Seq<u8>, generic: Seq<char>) -> Seq<char> {
    if out.len() > 0 {
        lossy_utf8(out)
    } else if err.len() > 0 {
        lossy_utf8(err)
    } else {
        generic
    }
}

/// The diagnostic text of a failed command: standard output when
/// non-empty, else standard error when non-empty, else the given
/// generic message — never blank.
pub fn failure_message(out: &Vec<u8>, err: &Vec<u8>, generic: &str) -> (m: String)
    requires
        generic@.len() > 0,
    ensures
        m@ == spec_failure_text(out@, err@, generic@),
        m@.len() > 0,
{
    if out.len() > 0 {
        decode_utf8_lossy(out)
    } else if err.len() > 0 {
        decode_utf8_lossy(err)
    } else {
        generic.to_owned()
    }
}

/// What a finished `get` run yields: on success, the captured standard
/// output decoded as UTF-8 (an `EncodingError` if invalid) with at most
/// one trailing line terminator removed; on failure, the classified
/// diagnostic.
pub fn get_outcome(res: ExecutionResult) -> (r: Result<Secret, Error>)
    ensures
        r matches Ok(s) ==> (res.spec_success() && Some(s@) == utf8_decode(
            spec_strip_terminator(res.stdout@),
        )),
        r is Ok <==> res.spec_success() && utf8_decode(spec_strip_terminator(res.stdout@)) is Some,
        r matches Err(e) ==> (if res.spec_success() {
            e is EncodingError
        } else {
            e matches Error::CommandFailure(m) && m@ == spec_failure_text(
                res.stdout@,
                res.stderr@,
                "Get password via command error"@,
            ) && m@.len() > 0
        }),
{
    if res.code == 0 {
        let mut bytes = res.stdout;
        strip_terminator(&mut bytes);
        match decode_utf8(bytes) {
            Ok(text) => Ok(Secret::new(text)),
            Err(()) => Err(Error::EncodingError),
        }
    } else {
        proof {
            reveal_strlit("Get password via command error");
        }
        let m = failure_message(&res.stdout, &res.stderr, "Get password via command error");
        Err(Error::CommandFailure(m))
    }
}

/// What a finished `set` run yields: success purely by exit status; on
/// failure, the classified diagnostic.
pub fn set_outcome(res: ExecutionResult) -> (r: Result<(), Error>)
    ensures
        r is Ok <==> res.spec_success(),
        r matches Err(e) ==> (e matches Error::CommandFailure(m) && m@ == spec_failure_text(
            res.stdout@,
            res.stderr@,
            "Set password via command error"@,
        ) && m@.len() > 0),
{
    if res.code == 0 {
        Ok(())
    } else {
        proof {
            reveal_strlit("Set password via command error");
        }
        let m = failure_message(&res.stdout, &res.stderr, "Set password via command error");
        Err(Error::CommandFailure(m))
    }
}

/// What a finished `delete` run yields: the command's own output is
/// irrelevant to success and only feeds the diagnostic on failure.
pub fn delete_outcome(res: ExecutionResult) -> (r: Result<(), Error>)
    ensures
        r is Ok <==> res.spec_success(),
        r matches Err(e) ==> (e matches Error::CommandFailure(m) && m@ == spec_failure_text(
            res.stdout@,
            res.stderr@,
            "Delete password via command error"@,
        ) && m@.len() > 0),
{
    if res.code == 0 {
        Ok(())
    } else {
        proof {
            reveal_strlit("Delete password via command error");
        }
        let m = failure_message(&res.stdout, &res.stderr, "Delete password via command error");
        Err(Error::CommandFailure(m))
    }
}

/// Whether `ev` is a legitimate answer to `req`, decided executably.
pub fn event_admitted(req: &IoRequest, ev: &IoEvent) -> (b: bool)
    ensures
        b == admits(*req, *ev),
{
    match req {
        IoRequest::Spawn { .. } => match ev {
            IoEvent::Spawned => true,
            IoEvent::SpawnFailed(_) => true,
            _ => false,
        },
        IoRequest::Io(p) => match ev {
            IoEvent::Spawned => false,
            IoEvent::SpawnFailed(_) => false,
            IoEvent::Wrote(n) => match &p.write {
                Some(c) => 1 <= *n && *n <= c.len(),
                None => false,
            },
            IoEvent::StdinClosed => p.write.is_some() || p.close_stdin,
            IoEvent::OutData(b) => p.read_out && b.len() > 0,
            IoEvent::OutEof => p.read_out,
            IoEvent::ErrData(b) => p.read_err && b.len() > 0,
            IoEvent::ErrEof => p.read_err,
            IoEvent::Exited(_) => p.wait,
        },
    }
}

/// Some admissible answer to a live request that delivers no data.
fn default_event(req: &IoRequest) -> (ev: IoEvent)
    requires
        live(*req),
    ensures
        admits(*req, ev),
        !(ev is OutData || ev is ErrData),
{
    match req {
        IoRequest::Spawn { .. } => IoEvent::Spawned,
        IoRequest::Io(p) => {
            if p.read_out {
                IoEvent::OutEof
            } else if p.read_err {
                IoEvent::ErrEof
            } else if p.wait {
                IoEvent::Exited(1)
            } else {
                IoEvent::StdinClosed
            }
        },
    }
}

/// A port that replays a pre-recorded sequence of I/O outcomes, newest
/// last: how a child process is simulated without any I/O. An outcome
/// that would not be a legitimate answer to the engine's request is
/// skipped in favor of an end-of-stream answer, as is an exhausted
/// script.
pub struct ScriptedPort {
    /// The remaining outcomes, in reverse order of delivery.
    pub script: Vec<IoEvent>,
}

impl EnginePort for ScriptedPort {
    open spec fn budget(&self) -> nat {
        self.script.len() as nat
    }

    fn perform(&mut self, cmd: &CommandSpec, req: &IoRequest) -> (ev: IoEvent) {
        match self.script.pop() {
            Some(ev) => {
                if event_admitted(req, &ev) {
                    ev
                } else {
                    default_event(req)
                }
            },
            None => default_event(req),
        }
    }
}

} // verus!
