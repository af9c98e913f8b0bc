//! The life cycle of the server: registering the callback, starting the
//! listener and stopping it.
use vstd::prelude::*;

use crate::runtime::{listen_address, listen_address_text};

verus! {

/// What the life cycle of a server depends on.
pub struct ServerState {
    pub host: Seq<char>,
    pub port: u16,
    pub container_id: Seq<char>,
    /// A shared holder for the callback exists.
    pub has_callback_holder: bool,
    /// A callback has been put into the holder.
    pub callback_registered: bool,
    /// A callback worker is running.
    pub processor_active: bool,
    /// The listener is running (and can be signalled to shut down).
    pub running: bool,
    /// An event loop for asynchronous callbacks has been handed over and
    /// not yet used by a start.
    pub loop_set: bool,
}

/// Why a start failed.
pub enum StartError {
    AlreadyRunning,
    NoEventLoop,
    BindFailed,
}

/// The text of a start error.
pub open spec fn start_error_text(e: StartError) -> Seq<char> {
    match e {
        StartError::AlreadyRunning => "Server is already running"@,
        StartError::NoEventLoop => "No event loop reference. Call AMQP.start() to set the loop."@,
        StartError::BindFailed => "Failed to bind AMQP listener — see stderr for details"@,
    }
}

impl StartError {
    /// The text of the error.
    pub fn message(&self) -> (s: String)
        ensures
            s@ == start_error_text(*self),
    {
        match self {
            StartError::AlreadyRunning => String::from_str("Server is already running"),
            StartError::NoEventLoop => String::from_str(
                "No event loop reference. Call AMQP.start() to set the loop.",
            ),
            StartError::BindFailed => String::from_str(
                "Failed to bind AMQP listener — see stderr for details",
            ),
        }
    }
}

/// Where a newly registered callback goes.
pub enum CallbackAction {
    /// Into the existing holder, replacing what it held; a running worker
    /// sees the new callback from its next message on.
    StoreInHolder,
    /// Into a new holder.
    CreateHolder,
}

/// What a successful start has to set up, besides the worker and listener.
pub struct StartPlan {
    /// An empty callback holder has to be made first.
    pub create_holder: bool,
    /// A worker from an earlier start is still there and has to be shut down
    /// when it is replaced.
    pub replace_processor: bool,
}

/// What a stop has to do.
pub struct StopPlan {
    /// Signal the listener to shut down.
    pub signal_shutdown: bool,
    /// Wait for the listener's thread to end.
    pub join_server_thread: bool,
    /// Shut the callback worker down.
    pub shutdown_processor: bool,
}

/// A reachable state: the listener only runs with a worker beside it.
pub open spec fn wf(s: ServerState) -> bool {
    s.running ==> s.processor_active
}

pub open spec fn initial_state(host: Seq<char>, port: u16, container_id: Seq<char>) -> ServerState {
    ServerState {
        host,
        port,
        container_id,
        has_callback_holder: false,
        callback_registered: false,
        processor_active: false,
        running: false,
        loop_set: false,
    }
}

pub open spec fn callback_action(s: ServerState) -> CallbackAction {
    if s.has_callback_holder {
        CallbackAction::StoreInHolder
    } else {
        CallbackAction::CreateHolder
    }
}

pub open spec fn after_on_message(s: ServerState) -> ServerState {
    ServerState { has_callback_holder: true, callback_registered: true, ..s }
}

pub open spec fn after_set_loop(s: ServerState) -> ServerState {
    ServerState { loop_set: true, ..s }
}

/// A start is refused while the listener runs, and without an event loop;
/// otherwise it goes ahead.
pub open spec fn start_outcome(s: ServerState) -> Result<StartPlan, StartError> {
    if s.running {
        Err(StartError::AlreadyRunning)
    } else if !s.loop_set {
        Err(StartError::NoEventLoop)
    } else {
        Ok(StartPlan { create_holder: !s.has_callback_holder, replace_processor: s.processor_active })
    }
}

/// The state once a start has set up its worker (or been refused). A start
/// refused for want of an event loop has already made the callback holder.
pub open spec fn after_start(s: ServerState) -> ServerState {
    if s.running {
        s
    } else if !s.loop_set {
        ServerState { has_callback_holder: true, ..s }
    } else {
        ServerState { has_callback_holder: true, loop_set: false, processor_active: true, ..s }
    }
}

/// The state once the listener reported whether it is bound.
pub open spec fn after_listener(s: ServerState, ready: bool) -> ServerState {
    ServerState { running: ready, ..s }
}

pub open spec fn listener_outcome(ready: bool) -> Result<(), StartError> {
    if ready {
        Ok(())
    } else {
        Err(StartError::BindFailed)
    }
}

pub open spec fn stop_plan(s: ServerState) -> StopPlan {
    StopPlan {
        signal_shutdown: s.running,
        join_server_thread: s.running,
        shutdown_processor: s.processor_active,
    }
}

pub open spec fn after_stop(s: ServerState) -> ServerState {
    ServerState { running: false, processor_active: false, ..s }
}

/// The life-cycle state of an AMQP server whose callback decides, for each
/// received message, whether it is accepted or rejected.
pub struct PyServer {
    host: String,
    port: u16,
    container_id: String,
    has_callback_holder: bool,
    callback_registered: bool,
    processor_active: bool,
    running: bool,
    loop_set: bool,
}

impl View for PyServer {
    type V = ServerState;

    closed spec fn view(&self) -> ServerState {
        ServerState {
            host: self.host@,
            port: self.port,
            container_id: self.container_id@,
            has_callback_holder: self.has_callback_holder,
            callback_registered: self.callback_registered,
            processor_active: self.processor_active,
            running: self.running,
            loop_set: self.loop_set,
        }
    }
}

impl PyServer {
    /// A server that will listen on `host:port` under the given container id;
    /// nothing registered, nothing running.
    pub fn new(host: String, port: u16, container_id: String) -> (s: Self)
        ensures
            s@ == initial_state(host@, port, container_id@),
    {
        PyServer {
            host,
            port,
            container_id,
            has_callback_holder: false,
            callback_registered: false,
            processor_active: false,
            running: false,
            loop_set: false,
        }
    }

    /// The host the listener binds.
    pub fn host(&self) -> (h: &String)
        ensures
            h@ == self@.host,
    {
        &self.host
    }

    /// The port the listener binds.
    pub fn port(&self) -> (p: u16)
        ensures
            p == self@.port,
    {
        self.port
    }

    /// The container id the listener announces.
    pub fn container_id(&self) -> (c: &String)
        ensures
            c@ == self@.container_id,
    {
        &self.container_id
    }

    /// Whether the listener is running.
    pub fn is_running(&self) -> (b: bool)
        ensures
            b == self@.running,
    {
        self.running
    }

    /// The address the listener binds, `host:port`.
    pub fn listen_address(&self) -> (a: String)
        ensures
            a@ == listen_address_text(self@.host, self@.port),
    {
        listen_address(self.host.as_str(), self.port)
    }

    /// Registers (or replaces) the callback; allowed before and after a start.
    pub fn on_message(&mut self) -> (a: CallbackAction)
        ensures
            a == callback_action(old(self)@),
            final(self)@ == after_on_message(old(self)@),
    {
        let a = if self.has_callback_holder {
            CallbackAction::StoreInHolder
        } else {
            CallbackAction::CreateHolder
        };
        self.has_callback_holder = true;
        self.callback_registered = true;
        a
    }

    /// Hands over the event loop on which asynchronous callbacks run.
    pub fn set_loop(&mut self)
        ensures
            final(self)@ == after_set_loop(old(self)@),
    {
        self.loop_set = true;
    }

    /// Begins a start: refuses it while running or without an event loop,
    /// and otherwise takes the event loop and records the new worker.
    pub fn start(&mut self) -> (r: Result<StartPlan, StartError>)
        ensures
            r == start_outcome(old(self)@),
            final(self)@ == after_start(old(self)@),
    {
        if self.running {
            return Err(StartError::AlreadyRunning);
        }
        let create_holder = !self.has_callback_holder;
        self.has_callback_holder = true;
        if !self.loop_set {
            return Err(StartError::NoEventLoop);
        }
        let replace_processor = self.processor_active;
        self.loop_set = false;
        self.processor_active = true;
        Ok(StartPlan { create_holder, replace_processor })
    }

    /// Completes a start with the listener's report: running when it is
    /// bound, a bind failure otherwise.
    pub fn listener_ready(&mut self, ready: bool) -> (r: Result<(), StartError>)
        requires
            old(self)@.processor_active,
            !old(self)@.running,
        ensures
            r == listener_outcome(ready),
            final(self)@ == after_listener(old(self)@, ready),
    {
        self.running = ready;
        if ready {
            Ok(())
        } else {
            Err(StartError::BindFailed)
        }
    }

    /// Stops the server: what is running is signalled, joined and shut
    /// down; safe to call when nothing runs.
    pub fn stop(&mut self) -> (p: StopPlan)
        ensures
            p == stop_plan(old(self)@),
            final(self)@ == after_stop(old(self)@),
    {
        let p = StopPlan {
            signal_shutdown: self.running,
            join_server_thread: self.running,
            shutdown_processor: self.processor_active,
        };
        self.running = false;
        self.processor_active = false;
        p
    }
}

/// Stopping twice does nothing the second time: no signal, no join, no
/// shutdown, and the state stays as the first stop left it.
pub proof fn lemma_stop_idempotent(s: ServerState)
    ensures
        stop_plan(after_stop(s)) == (StopPlan {
            signal_shutdown: false,
            join_server_thread: false,
            shutdown_processor: false,
        }),
        after_stop(after_stop(s)) == after_stop(s),
        !after_stop(s).running,
{
}

/// A start while the listener runs is refused as already running and
/// changes nothing.
pub proof fn lemma_start_refused_while_running(s: ServerState)
    requires
        s.running,
    ensures
        start_outcome(s) == Err::<StartPlan, StartError>(StartError::AlreadyRunning),
        after_start(s) == s,
{
}

/// A start without an event loop is refused as such.
pub proof fn lemma_start_needs_event_loop(s: ServerState)
    requires
        !s.running,
        !s.loop_set,
    ensures
        start_outcome(s) == Err::<StartPlan, StartError>(StartError::NoEventLoop),
{
}

/// A start uses up the event loop: whatever the listener reports, another
/// start without a new event loop is refused (as already running when the
/// listener is up, for want of an event loop when it failed to bind).
pub proof fn lemma_start_consumes_event_loop(s: ServerState, ready: bool)
    requires
        start_outcome(s) is Ok,
    ensures
        start_outcome(after_listener(after_start(s), ready)) == if ready {
            Err::<StartPlan, StartError>(StartError::AlreadyRunning)
        } else {
            Err::<StartPlan, StartError>(StartError::NoEventLoop)
        },
        after_listener(after_start(s), ready).running == ready,
{
}

/// After a stop, a server given a new event loop can be started again.
pub proof fn lemma_restart_after_stop(s: ServerState)
    ensures
        start_outcome(after_set_loop(after_stop(s))) is Ok,
{
}

/// Registering a callback never disturbs the worker, the listener or the
/// event loop, and always leaves a callback registered.
pub proof fn lemma_callback_any_time(s: ServerState)
    ensures
        after_on_message(s).callback_registered,
        after_on_message(s).running == s.running,
        after_on_message(s).processor_active == s.processor_active,
        after_on_message(s).loop_set == s.loop_set,
{
}

/// Every step keeps the listener from running without a worker.
pub proof fn lemma_steps_keep_wf(s: ServerState, ready: bool)
    requires
        wf(s),
    ensures
        wf(after_on_message(s)),
        wf(after_set_loop(s)),
        wf(after_start(s)),
        after_start(s).processor_active && !after_start(s).running ==> wf(
            after_listener(after_start(s), ready),
        ),
        wf(after_stop(s)),
        forall|h: Seq<char>, p: u16, c: Seq<char>| wf(#[trigger] initial_state(h, p, c)),
{
}

/// A stop signals and joins the listener exactly when it runs, shuts the
/// callback worker down exactly when one is active, and leaves neither
/// running; the address, the callback and the event loop are untouched.
pub proof fn lemma_stop_plan(s: ServerState)
    ensures
        stop_plan(s).shutdown_processor == s.processor_active,
        stop_plan(s).signal_shutdown == s.running,
        stop_plan(s).join_server_thread == s.running,
        !after_stop(s).processor_active,
        !after_stop(s).running,
        after_stop(s).host == s.host && after_stop(s).port == s.port && after_stop(s).container_id
            == s.container_id,
        after_stop(s).has_callback_holder == s.has_callback_holder && after_stop(s).callback_registered
            == s.callback_registered && after_stop(s).loop_set == s.loop_set,
{
}

/// Whatever the listener reported, a stop after a start shuts down the
/// worker that start made, and signals the listener only when it is up.
pub proof fn lemma_stop_after_start(s: ServerState, ready: bool)
    requires
        start_outcome(s) is Ok,
    ensures
        stop_plan(after_listener(after_start(s), ready)).shutdown_processor,
        stop_plan(after_listener(after_start(s), ready)).signal_shutdown == ready,
        stop_plan(after_listener(after_start(s), ready)).join_server_thread == ready,
{
}

/// A start goes ahead exactly when the listener is not running and an event
/// loop was handed over; it then makes a callback holder only when there is
/// none, replaces the worker only when one is active, and leaves a worker
/// active, the event loop used up, the listener not yet running and the
/// address and registered callback as they were.
pub proof fn lemma_start(s: ServerState)
    ensures
        (start_outcome(s) is Ok) <==> (!s.running && s.loop_set),
        start_outcome(s) is Ok ==> start_outcome(s)->Ok_0.create_holder == !s.has_callback_holder
            && start_outcome(s)->Ok_0.replace_processor == s.processor_active,
        start_outcome(s) is Ok ==> after_start(s).processor_active && !after_start(s).loop_set
            && after_start(s).has_callback_holder && !after_start(s).running,
        after_start(s).host == s.host && after_start(s).port == s.port
            && after_start(s).container_id == s.container_id
            && after_start(s).callback_registered == s.callback_registered,
        !s.running ==> after_start(s).has_callback_holder,
{
}

/// The listener's report decides a start: bound means running and success,
/// not bound means not running and a bind failure.
pub proof fn lemma_listener_ready(s: ServerState, ready: bool)
    ensures
        (listener_outcome(ready) is Ok) == ready,
        !ready ==> listener_outcome(ready) == Err::<(), StartError>(StartError::BindFailed),
        after_listener(s, ready).running == ready,
        after_listener(s, ready).processor_active == s.processor_active,
{
}

/// The first registration of a callback makes its holder; every later one,
/// before or after a start, replaces the callback in that holder.
pub proof fn lemma_callback_registration(s: ServerState, host: Seq<char>, port: u16, c: Seq<char>)
    ensures
        callback_action(initial_state(host, port, c)) == CallbackAction::CreateHolder,
        callback_action(after_on_message(s)) == CallbackAction::StoreInHolder,
        callback_action(after_start(after_on_message(s))) == CallbackAction::StoreInHolder,
        (callback_action(s) == CallbackAction::StoreInHolder) == s.has_callback_holder,
{
}

/// A new server listens on the given address and has nothing registered,
/// active or running.
pub proof fn lemma_initial_state(host: Seq<char>, port: u16, c: Seq<char>)
    ensures
        initial_state(host, port, c).host == host,
        initial_state(host, port, c).port == port,
        initial_state(host, port, c).container_id == c,
        !initial_state(host, port, c).running,
        !initial_state(host, port, c).processor_active,
        !initial_state(host, port, c).loop_set,
        !initial_state(host, port, c).callback_registered,
        !initial_state(host, port, c).has_callback_holder,
{
}

/// The three start errors read differently.
pub proof fn lemma_start_error_texts()
    ensures
        start_error_text(StartError::AlreadyRunning) != start_error_text(StartError::NoEventLoop),
        start_error_text(StartError::AlreadyRunning) != start_error_text(StartError::BindFailed),
        start_error_text(StartError::NoEventLoop) != start_error_text(StartError::BindFailed),
{
    reveal_strlit("Server is already running");
    reveal_strlit("No event loop reference. Call AMQP.start() to set the loop.");
    reveal_strlit("Failed to bind AMQP listener — see stderr for details");
    assert(start_error_text(StartError::AlreadyRunning)[0] != start_error_text(StartError::NoEventLoop)[0]);
    assert(start_error_text(StartError::AlreadyRunning)[0] != start_error_text(StartError::BindFailed)[0]);
    assert(start_error_text(StartError::NoEventLoop)[0] != start_error_text(StartError::BindFailed)[0]);
}

} // verus!
