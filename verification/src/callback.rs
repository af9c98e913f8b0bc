//! The callback worker: the queue that feeds it, and how the outcome of one
//! callback invocation becomes the verdict on a message.
use vstd::prelude::*;

verus! {

/// The most messages that may wait for the callback worker. When the queue is
/// full, receivers wait, so that AMQP flow control slows the sender down.
pub const CALLBACK_CHANNEL_CAP: usize = 1000;

/// The handles of the callback worker: the sending side of its task queue and
/// its thread. Dropping the sender closes the queue, which ends the worker.
/// The thread takes the tasks in queue order and handles each through a
/// [`WorkerLoop`], which fixes the answer sent for it.
pub struct CallbackProcessor<S, H> {
    task_tx: Option<S>,
    thread_handle: Option<H>,
}

impl<S: Clone, H> CallbackProcessor<S, H> {
    /// The sending side of the task queue, while the queue is open.
    pub closed spec fn sender(&self) -> Option<S> {
        self.task_tx
    }

    /// The worker thread, until it has been handed out to be joined.
    pub closed spec fn thread(&self) -> Option<H> {
        self.thread_handle
    }

    /// The processor after a shutdown: queue closed, thread handed out.
    pub closed spec fn shut_down(self) -> Self {
        CallbackProcessor { task_tx: None, thread_handle: None }
    }

    /// A processor over a freshly opened task queue and the thread that
    /// serves it.
    pub fn new(task_tx: S, thread_handle: H) -> (p: Self)
        ensures
            p.sender() == Some(task_tx),
            p.thread() == Some(thread_handle),
    {
        CallbackProcessor { task_tx: Some(task_tx), thread_handle: Some(thread_handle) }
    }

    /// A new sender for the task queue, or `None` once the processor has been
    /// shut down.
    pub fn task_sender(&self) -> (r: Option<S>)
        ensures
            r.is_some() == self.sender().is_some(),
            r.is_some() ==> cloned::<S>(self.sender()->0, r->0),
    {
        match &self.task_tx {
            Some(tx) => Some(tx.clone()),
            None => None,
        }
    }

    /// Closes the task queue (by dropping the held sender) and hands out the
    /// worker thread, if still held, to be joined.
    pub fn shutdown(&mut self) -> (h: Option<H>)
        ensures
            *final(self) == old(self).shut_down(),
            final(self).sender().is_none(),
            final(self).thread().is_none(),
            h == old(self).thread(),
    {
        self.task_tx = None;
        self.thread_handle.take()
    }
}

/// Shutting a processor down twice is the same as shutting it down once, and
/// a processor that has been shut down has no thread left to hand out and no
/// sender to clone.
pub proof fn lemma_shutdown_idempotent<S: Clone, H>(p: CallbackProcessor<S, H>)
    ensures
        CallbackProcessor::shut_down(CallbackProcessor::shut_down(p)) == CallbackProcessor::shut_down(p),
        CallbackProcessor::shut_down(p).thread().is_none(),
        CallbackProcessor::shut_down(p).sender().is_none(),
{
}

/// How one invocation of the user callback for a message ended.
pub enum CallbackOutcome {
    /// The lock around the registered callback was poisoned.
    LockPoisoned,
    /// No callback is registered.
    NoCallback,
    /// The Python interpreter could not be entered.
    InterpreterUnavailable,
    /// The callback raised, returned something other than a boolean or a
    /// coroutine, or its coroutine raised or did not yield a boolean.
    Raised,
    /// The callback (or the coroutine it returned) yielded this boolean.
    Returned(bool),
}

/// Whether a message is approved after a callback invocation ended as given:
/// with no callback registered every message is approved; otherwise only one
/// the callback returned `True` for.
pub open spec fn verdict(outcome: CallbackOutcome) -> bool {
    match outcome {
        CallbackOutcome::NoCallback => true,
        CallbackOutcome::Returned(b) => b,
        _ => false,
    }
}

/// The verdict the worker sends back for a message.
pub fn callback_verdict(outcome: CallbackOutcome) -> (accepted: bool)
    ensures
        accepted == verdict(outcome),
{
    match outcome {
        CallbackOutcome::LockPoisoned => false,
        CallbackOutcome::NoCallback => true,
        CallbackOutcome::InterpreterUnavailable => false,
        CallbackOutcome::Raised => false,
        CallbackOutcome::Returned(b) => b,
    }
}

/// What the worker found in the shared callback holder when it read it for
/// a task.
pub enum HolderRead {
    /// The lock around the holder was poisoned.
    Poisoned,
    /// No callback is registered.
    Empty,
    /// A callback is registered.
    Present,
}

/// How running the registered callback for a task ended.
pub enum CallResult {
    /// The Python interpreter could not be entered.
    InterpreterUnavailable,
    /// The callback raised, returned a wrong type, or its coroutine failed.
    Raised,
    /// The callback (or its coroutine) yielded this boolean.
    Returned(bool),
}

/// What the worker does after reading the holder.
pub enum WorkerStep {
    /// Send this answer; the callback is not run.
    Answer(bool),
    /// Run the callback that was found in the holder.
    CallCallback,
}

/// Where the worker is with the task in hand.
pub enum WorkerPhase {
    /// Waiting for the next task.
    Idle,
    /// A task was taken from the queue; the holder is read next.
    Taken,
    /// The callback read from the holder runs for the task.
    Calling,
}

/// The worker's progress through its queue.
pub struct WorkerState {
    pub phase: WorkerPhase,
    /// Tasks taken from the queue so far, in queue order.
    pub taken: nat,
    /// Times the callback holder was read.
    pub holder_reads: nat,
    /// The answers sent so far: the k-th for the k-th task taken.
    pub answers: Seq<bool>,
}

/// The outcome of a task whose holder read ended it (a read that finds a
/// callback ends no task: the callback's result decides, see `call_outcome`).
pub open spec fn read_outcome(read: HolderRead) -> CallbackOutcome {
    match read {
        HolderRead::Poisoned => CallbackOutcome::LockPoisoned,
        HolderRead::Empty => CallbackOutcome::NoCallback,
        HolderRead::Present => CallbackOutcome::Raised,
    }
}

/// The outcome of a task whose callback ran.
pub open spec fn call_outcome(result: CallResult) -> CallbackOutcome {
    match result {
        CallResult::InterpreterUnavailable => CallbackOutcome::InterpreterUnavailable,
        CallResult::Raised => CallbackOutcome::Raised,
        CallResult::Returned(b) => CallbackOutcome::Returned(b),
    }
}

/// A reachable state: every task taken is answered before the next one is
/// taken, and the holder is read exactly once for each task, right after it
/// is taken.
pub open spec fn worker_wf(s: WorkerState) -> bool {
    match s.phase {
        WorkerPhase::Idle => s.answers.len() == s.taken && s.holder_reads == s.taken,
        WorkerPhase::Taken => s.answers.len() + 1 == s.taken && s.holder_reads + 1 == s.taken,
        WorkerPhase::Calling => s.answers.len() + 1 == s.taken && s.holder_reads == s.taken,
    }
}

pub open spec fn after_take(s: WorkerState) -> WorkerState {
    WorkerState { phase: WorkerPhase::Taken, taken: s.taken + 1, ..s }
}

pub open spec fn read_step(read: HolderRead) -> WorkerStep {
    match read {
        HolderRead::Present => WorkerStep::CallCallback,
        _ => WorkerStep::Answer(verdict(read_outcome(read))),
    }
}

pub open spec fn after_read(s: WorkerState, read: HolderRead) -> WorkerState {
    match read {
        HolderRead::Present => WorkerState {
            phase: WorkerPhase::Calling,
            holder_reads: s.holder_reads + 1,
            ..s
        },
        _ => WorkerState {
            phase: WorkerPhase::Idle,
            holder_reads: s.holder_reads + 1,
            answers: s.answers.push(verdict(read_outcome(read))),
            ..s
        },
    }
}

pub open spec fn after_call(s: WorkerState, result: CallResult) -> WorkerState {
    WorkerState {
        phase: WorkerPhase::Idle,
        answers: s.answers.push(verdict(call_outcome(result))),
        ..s
    }
}

/// The worker loop of the callback thread. For each task it takes from the
/// queue it reads the callback holder once, then either answers at once (no
/// callback: accept; poisoned lock: reject) or runs the callback found and
/// answers with its verdict; only then may the next task be taken.
pub struct WorkerLoop {
    phase: WorkerPhase,
    taken: Ghost<nat>,
    holder_reads: Ghost<nat>,
    answers: Ghost<Seq<bool>>,
}

impl View for WorkerLoop {
    type V = WorkerState;

    closed spec fn view(&self) -> WorkerState {
        WorkerState {
            phase: self.phase,
            taken: self.taken@,
            holder_reads: self.holder_reads@,
            answers: self.answers@,
        }
    }
}

impl WorkerLoop {
    /// A worker that has taken no task.
    pub fn new() -> (w: Self)
        ensures
            w@ == (WorkerState { phase: WorkerPhase::Idle, taken: 0, holder_reads: 0, answers: Seq::empty() }),
    {
        WorkerLoop {
            phase: WorkerPhase::Idle,
            taken: Ghost(0),
            holder_reads: Ghost(0),
            answers: Ghost(Seq::empty()),
        }
    }

    /// Whether the worker may take the next task from the queue.
    pub fn is_idle(&self) -> (b: bool)
        ensures
            b == (self@.phase is Idle),
    {
        match self.phase {
            WorkerPhase::Idle => true,
            _ => false,
        }
    }

    /// Records that the next task was taken from the queue.
    pub fn take_task(&mut self)
        requires
            old(self)@.phase is Idle,
        ensures
            final(self)@ == after_take(old(self)@),
    {
        self.phase = WorkerPhase::Taken;
        self.taken = Ghost(self.taken@ + 1);
    }

    /// Records what the holder held for the task in hand and says what to do:
    /// answer at once, or run the callback that was found.
    pub fn read_holder(&mut self, read: HolderRead) -> (step: WorkerStep)
        requires
            old(self)@.phase is Taken,
        ensures
            step == read_step(read),
            final(self)@ == after_read(old(self)@, read),
    {
        self.holder_reads = Ghost(self.holder_reads@ + 1);
        match read {
            HolderRead::Present => {
                self.phase = WorkerPhase::Calling;
                WorkerStep::CallCallback
            },
            HolderRead::Poisoned => {
                let accepted = callback_verdict(CallbackOutcome::LockPoisoned);
                self.phase = WorkerPhase::Idle;
                self.answers = Ghost(self.answers@.push(accepted));
                WorkerStep::Answer(accepted)
            },
            HolderRead::Empty => {
                let accepted = callback_verdict(CallbackOutcome::NoCallback);
                self.phase = WorkerPhase::Idle;
                self.answers = Ghost(self.answers@.push(accepted));
                WorkerStep::Answer(accepted)
            },
        }
    }

    /// Records how the callback ended for the task in hand and gives the
    /// answer to send: its boolean, or `false` when it could not run or
    /// raised.
    pub fn call_finished(&mut self, result: CallResult) -> (accepted: bool)
        requires
            old(self)@.phase is Calling,
        ensures
            accepted == verdict(call_outcome(result)),
            final(self)@ == after_call(old(self)@, result),
    {
        let outcome = match result {
            CallResult::InterpreterUnavailable => CallbackOutcome::InterpreterUnavailable,
            CallResult::Raised => CallbackOutcome::Raised,
            CallResult::Returned(b) => CallbackOutcome::Returned(b),
        };
        let accepted = callback_verdict(outcome);
        self.phase = WorkerPhase::Idle;
        self.answers = Ghost(self.answers@.push(accepted));
        accepted
    }
}

/// Tasks are handled one at a time and in queue order: each step keeps every
/// taken task but the one in hand answered, the holder read exactly once per
/// task, and the answer for the k-th task taken is the k-th answer sent.
pub proof fn lemma_worker_in_order(s: WorkerState, read: HolderRead, result: CallResult)
    requires
        worker_wf(s),
    ensures
        s.phase is Idle ==> worker_wf(after_take(s)),
        s.phase is Taken ==> worker_wf(after_read(s, read)),
        s.phase is Calling ==> worker_wf(after_call(s, result)),
        s.phase is Taken && !(read is Present) ==> after_read(s, read).answers.len() == s.taken
            && after_read(s, read).answers.last() == verdict(read_outcome(read)),
        s.phase is Calling ==> after_call(s, result).answers.len() == s.taken
            && after_call(s, result).answers.last() == verdict(call_outcome(result)),
        s.phase is Taken ==> after_read(s, read).answers.subrange(0, s.answers.len() as int)
            == s.answers,
        s.phase is Calling ==> after_call(s, result).answers.subrange(0, s.answers.len() as int)
            == s.answers,
{
    if s.phase is Taken {
        assert(after_read(s, read).answers.subrange(0, s.answers.len() as int) =~= s.answers);
    }
    if s.phase is Calling {
        assert(after_call(s, result).answers.subrange(0, s.answers.len() as int) =~= s.answers);
    }
}

/// The answer for a task reflects the holder as read for that task: with no
/// callback in it the message is accepted, with a poisoned lock it is
/// rejected, and with a callback the callback decides; a raising callback
/// gets `false`, and the worker is idle again, ready for the next task.
pub proof fn lemma_answer_per_task(s: WorkerState)
    requires
        s.phase is Taken,
    ensures
        after_read(s, HolderRead::Empty).answers.last() == true,
        after_read(s, HolderRead::Poisoned).answers.last() == false,
        read_step(HolderRead::Present) == WorkerStep::CallCallback,
        forall|b: bool| after_call(after_read(s, HolderRead::Present), CallResult::Returned(b)).answers.last() == b,
        after_call(after_read(s, HolderRead::Present), CallResult::Raised).answers.last() == false,
        after_call(after_read(s, HolderRead::Present), CallResult::Raised).phase is Idle,
        after_call(after_read(s, HolderRead::Present), CallResult::InterpreterUnavailable).answers.last() == false,
{
}

/// What to do with the value a callback returned.
pub enum CallbackReturn {
    /// A boolean: it is the answer.
    Answer(bool),
    /// A coroutine: run it on the event loop and wait for its boolean.
    RunCoroutine,
    /// Anything else: a type error.
    WrongType,
}

/// The step that follows a callback's return: a boolean is the answer
/// itself, a coroutine is awaited, and anything else is refused.
pub open spec fn return_step(as_bool: Option<bool>, is_coroutine: bool) -> CallbackReturn {
    match as_bool {
        Some(b) => CallbackReturn::Answer(b),
        None => if is_coroutine {
            CallbackReturn::RunCoroutine
        } else {
            CallbackReturn::WrongType
        },
    }
}

/// Classifies what a callback returned: `as_bool` is the value read as a
/// boolean, when it is one; `is_coroutine` says whether it is a coroutine
/// (asked only where it is not a boolean).
pub fn classify_callback_return(as_bool: Option<bool>, is_coroutine: bool) -> (r: CallbackReturn)
    ensures
        r == return_step(as_bool, is_coroutine),
{
    match as_bool {
        Some(b) => CallbackReturn::Answer(b),
        None => if is_coroutine {
            CallbackReturn::RunCoroutine
        } else {
            CallbackReturn::WrongType
        },
    }
}

/// The message of the type error raised when a callback returns neither a
/// boolean nor a coroutine, naming the type it returned.
pub fn wrong_return_message(returned_type: &str) -> (s: String)
    ensures
        s@ == "Callback must return bool or be an async function, got "@ + returned_type@,
{
    let mut s = String::from_str("Callback must return bool or be an async function, got ");
    s.append(returned_type);
    s
}

/// A boolean returned by the callback is the answer itself, whatever the
/// value also counts as; a value that is not a boolean is awaited when it is
/// a coroutine and refused as a type error otherwise.
pub proof fn lemma_return_step(b: bool, is_coroutine: bool)
    ensures
        return_step(Some(b), is_coroutine) == CallbackReturn::Answer(b),
        return_step(None, true) == CallbackReturn::RunCoroutine,
        return_step(None, false) == CallbackReturn::WrongType,
{
}

/// A message is approved exactly when no callback is registered or the
/// callback returned `True`; a returned boolean is the verdict itself, and a
/// poisoned lock, an unavailable interpreter or a raising callback reject.
pub proof fn lemma_verdict(outcome: CallbackOutcome, b: bool)
    ensures
        verdict(outcome) <==> (outcome == CallbackOutcome::NoCallback || outcome
            == CallbackOutcome::Returned(true)),
        verdict(CallbackOutcome::Returned(b)) == b,
        !verdict(CallbackOutcome::LockPoisoned),
        !verdict(CallbackOutcome::InterpreterUnavailable),
        !verdict(CallbackOutcome::Raised),
{
}

/// Reading the holder: an empty holder accepts at once, a poisoned lock
/// rejects at once, and a registered callback is run; running it answers
/// with its boolean, or rejects when it raised or could not run.
pub proof fn lemma_worker_steps(b: bool)
    ensures
        read_step(HolderRead::Empty) == WorkerStep::Answer(true),
        read_step(HolderRead::Poisoned) == WorkerStep::Answer(false),
        read_step(HolderRead::Present) == WorkerStep::CallCallback,
        verdict(call_outcome(CallResult::Returned(b))) == b,
        !verdict(call_outcome(CallResult::Raised)),
        !verdict(call_outcome(CallResult::InterpreterUnavailable)),
{
}

} // verus!
