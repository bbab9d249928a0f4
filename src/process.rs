//! Process primitives: decoding wait statuses, identity of a forked child
//! by (pid, start time), and the decisions of a graceful-then-forceful stop.
//! The signals and waits themselves are made by the caller.

use vstd::prelude::*;
use crate::cli::{digits_value, find_char, find_from, is_digit, lemma_digits_value_mono, lemma_find_from_bounds};

verus! {

/// Poll interval while waiting for a process to stop, in milliseconds.
pub const STOP_POLL_INTERVAL_MS: u64 = 100;

/// Default time allowed for a graceful stop, in milliseconds.
pub const DEFAULT_STOP_TIMEOUT_MS: u64 = 10000;

/// Time allowed for a forceful stop to take effect, in milliseconds.
pub const SIGKILL_WAIT_MS: u64 = 500;

/// Relies on libc::WIFEXITED: on Linux, true when the low seven bits of the
/// status are zero.
#[verifier::external_body]
fn wifexited(status: i32) -> (r: bool)
    ensures
        r == (status & 0x7f == 0),
{
    libc::WIFEXITED(status)
}

/// Relies on libc::WEXITSTATUS: on Linux, bits 8 to 15 of the status.
#[verifier::external_body]
fn wexitstatus(status: i32) -> (r: i32)
    ensures
        r == (status >> 8) & 0xff,
{
    libc::WEXITSTATUS(status)
}

/// Relies on libc::WIFSIGNALED: on Linux, true when the low seven bits of
/// the status are neither 0 nor 0x7f.
#[verifier::external_body]
fn wifsignaled(status: i32) -> (r: bool)
    ensures
        r == (status & 0x7f != 0 && status & 0x7f != 0x7f),
{
    libc::WIFSIGNALED(status)
}

/// Relies on libc::WTERMSIG: on Linux, the low seven bits of the status.
#[verifier::external_body]
fn wtermsig(status: i32) -> (r: i32)
    ensures
        r == status & 0x7f,
{
    libc::WTERMSIG(status)
}

/// The exit code that a wait status stands for: the low byte of a normal
/// exit, 128 plus the signal number of a signal exit, and -1 otherwise.
pub open spec fn status_exit_code(status: i32) -> int {
    if status & 0x7f == 0 {
        ((status >> 8) & 0xff) as int
    } else if status & 0x7f != 0x7f {
        128 + (status & 0x7f)
    } else {
        -1
    }
}

/// Decode a wait status into an exit code, POSIX style.
pub fn exit_code_from_status(status: i32) -> (r: i32)
    ensures
        r as int == status_exit_code(status),
{
    if wifexited(status) {
        wexitstatus(status)
    } else if wifsignaled(status) {
        let sig = wtermsig(status);
        assert(0 <= status & 0x7f <= 0x7f) by (bit_vector);
        128 + sig
    } else {
        -1
    }
}

/// What a non-blocking wait found.
#[derive(Debug, Clone, Copy, PartialEq, Eq, Structural)]
pub enum ReapOutcome {
    StillRunning,
    /// The process exited; its exit code (128 + n after signal n).
    Exited(i32),
    /// The pid is not a child of this process, or the wait failed.
    NotOurChild,
}

/// Interpret what `waitpid(pid, WNOHANG)` returned (`ret`) and the status it wrote.
pub fn reap_outcome(pid: i32, ret: i32, status: i32) -> (r: ReapOutcome)
    ensures
        ret == pid ==> r == ReapOutcome::Exited(status_exit_code(status) as i32),
        ret != pid && ret < 0 ==> r == ReapOutcome::NotOurChild,
        ret != pid && ret >= 0 ==> r == ReapOutcome::StillRunning,
{
    if ret == pid {
        ReapOutcome::Exited(exit_code_from_status(status))
    } else if ret < 0 {
        ReapOutcome::NotOurChild
    } else {
        ReapOutcome::StillRunning
    }
}

/// The identity of a process instance: its pid and the kernel-reported
/// start time, which differs between two processes that share a pid.
#[derive(Debug, Clone, Copy, PartialEq, Eq, Structural)]
pub struct ProcessIdentity {
    pub pid: i32,
    pub start_time: u64,
}

pub open spec fn strict_match(alive: bool, current_start: Option<u64>, recorded: ProcessIdentity) -> bool {
    alive && current_start == Some(recorded.start_time)
}

/// Whether the process now at `recorded.pid` is the one recorded: it must be
/// alive (`alive`, from a signal-0 probe of the pid) and report the recorded
/// start time (`current_start`, read for the pid now; `None` if unreadable).
pub fn is_our_process_strict(alive: bool, current_start: Option<u64>, recorded: ProcessIdentity) -> (r: bool)
    ensures
        r == strict_match(alive, current_start, recorded),
{
    alive && match current_start {
        Some(t) => t == recorded.start_time,
        None => false,
    }
}

/// A positive answer means the live process at the pid has the recorded
/// start time, so it is the recorded instance. Once that instance has
/// exited, any process that takes over its pid started later, so the answer
/// is negative for it, as it is when nothing lives at the pid.
pub proof fn lemma_strict_identity(recorded: ProcessIdentity, alive: bool, current_start: Option<u64>)
    ensures
        strict_match(alive, current_start, recorded) ==> alive && current_start->Some_0 == recorded.start_time,
        !alive ==> !strict_match(alive, current_start, recorded),
        current_start is Some && current_start->Some_0 > recorded.start_time ==> !strict_match(
            alive,
            current_start,
            recorded,
        ),
{
}

/// Index of the last `c` in `s`.
pub open spec fn last_index(s: Seq<char>, c: char) -> Option<int>
    decreases s.len(),
{
    if s.len() == 0 {
        None
    } else if s.last() == c {
        Some(s.len() - 1)
    } else {
        last_index(s.drop_last(), c)
    }
}

/// The `k`-th space-separated field of `s`, counting from 0.
pub open spec fn field(s: Seq<char>, k: nat) -> Option<Seq<char>>
    decreases k,
{
    match find_from(s, ' ', 0) {
        None => if k == 0 { Some(s) } else { None },
        Some(i) => if k == 0 {
            Some(s.subrange(0, i))
        } else if 0 <= i < s.len() {
            field(s.subrange(i + 1, s.len() as int), (k - 1) as nat)
        } else {
            None
        },
    }
}

/// A non-empty string of decimal digits whose value fits in 64 bits.
pub open spec fn parse_u64_spec(t: Seq<char>) -> Option<u64> {
    if t.len() > 0 && (forall|i: int| 0 <= i < t.len() ==> is_digit(#[trigger] t[i])) && digits_value(t) <= u64::MAX {
        Some(digits_value(t) as u64)
    } else {
        None
    }
}

/// The start time in a `/proc/<pid>/stat` line: after the last `)` and the
/// space that follows it, field 19 (the 22nd field of the line).
pub open spec fn stat_start_time(s: Seq<char>) -> Option<u64> {
    match last_index(s, ')') {
        Some(i) => if i + 2 <= s.len() {
            match field(s.subrange(i + 2, s.len() as int), 19) {
                Some(f) => parse_u64_spec(f),
                None => None,
            }
        } else {
            None
        },
        None => None,
    }
}

proof fn lemma_last_index_bounds(s: Seq<char>, c: char)
    ensures
        last_index(s, c) matches Some(i) ==> 0 <= i < s.len(),
    decreases s.len(),
{
    if s.len() > 0 && s.last() != c {
        lemma_last_index_bounds(s.drop_last(), c);
    }
}

fn last_index_of(s: &str, c: char) -> (r: Option<usize>)
    ensures
        match last_index(s@, c) {
            Some(i) => r == Some(i as usize),
            None => r is None,
        },
{
    let n = s.unicode_len();
    let mut k: usize = n;
    assert(s@.subrange(0, n as int) =~= s@);
    while k > 0
        invariant
            n == s@.len(),
            k <= n,
            last_index(s@, c) == last_index(s@.subrange(0, k as int), c),
        decreases k,
    {
        let ghost p = s@.subrange(0, k as int);
        assert(p.drop_last() =~= s@.subrange(0, k - 1));
        assert(p.last() == s@[k - 1]);
        if s.get_char(k - 1) == c {
            return Some(k - 1);
        }
        k = k - 1;
    }
    assert(s@.subrange(0, 0) =~= Seq::<char>::empty());
    None
}

fn nth_field(s: &str, k: usize) -> (r: Option<&str>)
    ensures
        match field(s@, k as nat) {
            Some(f) => r is Some && r->Some_0@ == f,
            None => r is None,
        },
{
    let mut cur: &str = s;
    let mut j: usize = 0;
    while j < k
        invariant
            j <= k,
            field(s@, k as nat) == field(cur@, (k - j) as nat),
        decreases k - j,
    {
        proof {
            lemma_find_from_bounds(cur@, ' ', 0);
        }
        match find_char(cur, ' ') {
            None => return None,
            Some(i) => {
                let n = cur.unicode_len();
                cur = cur.substring_char(i + 1, n);
            },
        }
        j = j + 1;
    }
    proof {
        lemma_find_from_bounds(cur@, ' ', 0);
        assert(field(s@, k as nat) == field(cur@, 0));
    }
    let _len = cur.unicode_len();
    match find_char(cur, ' ') {
        None => {
            assert(find_from(cur@, ' ', 0) is None);
            assert(field(cur@, 0) == Some(cur@));
            Some(cur)
        },
        Some(i) => {
            assert(find_from(cur@, ' ', 0) == Some(i as int));
            assert(field(cur@, 0) == Some(cur@.subrange(0, i as int)));
            Some(cur.substring_char(0, i))
        },
    }
}

/// Parse a non-empty string of decimal digits into a `u64`.
pub fn parse_u64(t: &str) -> (r: Option<u64>)
    ensures
        r == parse_u64_spec(t@),
{
    let n = t.unicode_len();
    if n == 0 {
        return None;
    }
    let mut value: u64 = 0;
    let mut i: usize = 0;
    while i < n
        invariant
            n == t@.len(),
            0 <= i <= n,
            forall|j: int| 0 <= j < i ==> is_digit(#[trigger] t@[j]),
            value as nat == digits_value(t@.subrange(0, i as int)),
        decreases n - i,
    {
        let c = t.get_char(i);
        if !('0' <= c && c <= '9') {
            assert(!is_digit(t@[i as int]));
            return None;
        }
        let d = (c as u32 - '0' as u32) as u64;
        let ghost p = t@.subrange(0, i + 1);
        assert(p.drop_last() =~= t@.subrange(0, i as int));
        assert(p.last() == c);
        assert(digits_value(p) == value * 10 + d);
        if value > (u64::MAX - d) / 10 {
            assert(value * 10 + d > u64::MAX) by (nonlinear_arith)
                requires
                    value > (u64::MAX - d) / 10,
                    d <= 9,
            ;
            proof {
                if forall|j: int| 0 <= j < t@.len() ==> is_digit(#[trigger] t@[j]) {
                    lemma_digits_value_mono(t@, i + 1);
                }
            }
            return None;
        }
        assert(value * 10 + d <= u64::MAX) by (nonlinear_arith)
            requires
                value <= (u64::MAX - d) / 10,
                d <= 9,
        ;
        value = value * 10 + d;
        i = i + 1;
    }
    assert(t@.subrange(0, n as int) =~= t@);
    Some(value)
}

/// The start time of a process from the text of its `/proc/<pid>/stat`.
pub fn start_time_from_stat(stat: &str) -> (r: Option<u64>)
    ensures
        r == stat_start_time(stat@),
{
    proof {
        lemma_last_index_bounds(stat@, ')');
    }
    let i = match last_index_of(stat, ')') {
        Some(i) => i,
        None => return None,
    };
    let n = stat.unicode_len();
    if n - i < 2 {
        return None;
    }
    let rest = stat.substring_char(i + 2, n);
    match nth_field(rest, 19) {
        Some(f) => parse_u64(f),
        None => None,
    }
}

/// What the supervisor does once it has tried to read a new child's start time.
#[derive(Debug, Clone, Copy, PartialEq, Eq, Structural)]
pub enum StartDecision {
    /// Identity captured: proceed with it.
    Proceed(ProcessIdentity),
    /// The child is alive but its identity could not be read: stop it now
    /// and fail the start.
    KillAndFail,
    /// The child is already gone: the launch failed.
    Fail,
}

/// Decide how a start proceeds after reading the child's start time.
pub fn start_decision(pid: i32, captured: Option<u64>, child_alive: bool) -> (r: StartDecision)
    ensures
        captured is Some ==> r == StartDecision::Proceed(ProcessIdentity { pid, start_time: captured->Some_0 }),
        captured is None && child_alive ==> r == StartDecision::KillAndFail,
        captured is None && !child_alive ==> r == StartDecision::Fail,
{
    match captured {
        Some(t) => StartDecision::Proceed(ProcessIdentity { pid, start_time: t }),
        None => if child_alive {
            StartDecision::KillAndFail
        } else {
            StartDecision::Fail
        },
    }
}

/// The next move while stopping a process.
#[derive(Debug, Clone, Copy, PartialEq, Eq, Structural)]
pub enum StopAction {
    /// The process is gone (or the pid no longer names it); this is its exit code.
    Finish(i32),
    /// Send the graceful signal to the pid.
    Terminate,
    /// Sleep for the poll interval, then observe again.
    Poll,
    /// The graceful period is over: send the forceful signal, wait, reap.
    Kill,
    /// The graceful period is over and force was not asked for.
    TimedOut,
}

/// Decide how a stop begins, from a non-blocking reap and the strict
/// identity check (`ours`: the pid still names the recorded process). Only
/// the recorded process is ever signalled.
pub fn stop_begin(reaped: ReapOutcome, ours: bool) -> (r: StopAction)
    ensures
        reaped is Exited ==> r == StopAction::Finish(reaped->Exited_0),
        !(reaped is Exited) && !ours ==> r == StopAction::Finish(0),
        !(reaped is Exited) && ours ==> r == StopAction::Terminate,
        r == StopAction::Terminate ==> ours,
{
    match reaped {
        ReapOutcome::Exited(code) => StopAction::Finish(code),
        _ => if ours {
            StopAction::Terminate
        } else {
            StopAction::Finish(0)
        },
    }
}

/// Decide the next move of a stop after the graceful signal, from a
/// non-blocking reap, the strict identity check made now, and the time
/// since the graceful signal was sent. A pid that no longer names the
/// recorded process is never signalled.
pub fn stop_step(reaped: ReapOutcome, ours: bool, elapsed_ms: u64, timeout_ms: u64, force: bool) -> (r: StopAction)
    ensures
        reaped is Exited ==> r == StopAction::Finish(reaped->Exited_0),
        !(reaped is Exited) && !ours ==> r == StopAction::Finish(0),
        !(reaped is Exited) && ours && elapsed_ms < timeout_ms ==> r == StopAction::Poll,
        !(reaped is Exited) && ours && elapsed_ms >= timeout_ms && force ==> r == StopAction::Kill,
        !(reaped is Exited) && ours && elapsed_ms >= timeout_ms && !force ==> r == StopAction::TimedOut,
        r == StopAction::Kill ==> ours,
{
    match reaped {
        ReapOutcome::Exited(code) => StopAction::Finish(code),
        _ => {
            if !ours {
                StopAction::Finish(0)
            } else if elapsed_ms < timeout_ms {
                StopAction::Poll
            } else if force {
                StopAction::Kill
            } else {
                StopAction::TimedOut
            }
        },
    }
}

/// A handle to a child process and, once known, its exit code.
#[derive(Debug, Clone, Copy, PartialEq, Eq, Structural)]
pub struct ChildProcess {
    pid: i32,
    exit_code: Option<i32>,
}

impl ChildProcess {
    pub closed spec fn spec_pid(&self) -> i32 {
        self.pid
    }

    pub closed spec fn spec_exit_code(&self) -> Option<i32> {
        self.exit_code
    }

    /// A handle to a running child.
    pub fn new(pid: i32) -> (r: Self)
        ensures
            r.spec_pid() == pid,
            r.spec_exit_code() is None,
    {
        ChildProcess { pid, exit_code: None }
    }

    /// The child's pid.
    pub fn pid(&self) -> (r: i32)
        ensures
            r == self.spec_pid(),
    {
        self.pid
    }

    /// The exit code, once the child has been reaped.
    pub fn exit_code(&self) -> (r: Option<i32>)
        ensures
            r == self.spec_exit_code(),
    {
        self.exit_code
    }

    /// Take in a reap result; the first exit code recorded is kept.
    pub fn observe(&mut self, reaped: ReapOutcome)
        ensures
            final(self).spec_pid() == old(self).spec_pid(),
            old(self).spec_exit_code() is Some ==> final(self).spec_exit_code() == old(self).spec_exit_code(),
            old(self).spec_exit_code() is None && reaped is Exited ==> final(self).spec_exit_code() == Some(
                reaped->Exited_0,
            ),
            old(self).spec_exit_code() is None && !(reaped is Exited) ==> final(self).spec_exit_code() is None,
    {
        if self.exit_code.is_none() {
            if let ReapOutcome::Exited(code) = reaped {
                self.exit_code = Some(code);
            }
        }
    }

    /// Whether the child still runs, given a reap result and a liveness
    /// probe taken now; an exit seen here is recorded.
    pub fn is_running(&mut self, reaped: ReapOutcome, alive: bool) -> (r: bool)
        ensures
            final(self).spec_pid() == old(self).spec_pid(),
            old(self).spec_exit_code() is Some ==> !r && final(self).spec_exit_code() == old(self).spec_exit_code(),
            old(self).spec_exit_code() is None && reaped is Exited ==> !r && final(self).spec_exit_code() == Some(
                reaped->Exited_0,
            ),
            old(self).spec_exit_code() is None && !(reaped is Exited) ==> r == alive && final(self).spec_exit_code() is None,
    {
        if self.exit_code.is_some() {
            return false;
        }
        if let ReapOutcome::Exited(code) = reaped {
            self.exit_code = Some(code);
            false
        } else {
            alive
        }
    }
}

} // verus!
