//! Verified model of the background listener lifecycle.
//!
//! The listener couples a caller-held handle with one dedicated worker that
//! owns the platform's receiving surface and message pump. Everything the
//! platform itself does — creating the surface, registering for raw input,
//! blocking in the pump, joining the worker — happens in the surrounding
//! program; the decisions that drive it are made here, against an explicit
//! model of the lifecycle: which start requests are admitted, what each
//! notification becomes, where errors are routed, and in which order teardown
//! proceeds. The runner is expected to perform each step the model hands it,
//! in order, and to feed every outcome back in.

use crate::RawInputError;
use crate::event::RawInputEvent;
use crate::parse_rawinput_event;
use crate::record::RawRecord;
use crate::spec_parse_rawinput_event;
use vstd::prelude::*;
use vstd::string::StringExecFns;

verus! {

/// Notification code that tags a pump message as "a raw-input record is
/// ready to fetch".
pub const RAW_INPUT_NOTIFICATION: u32 = 0x00FF;

/// Lifecycle phase of a listener instance.
#[derive(Debug, Clone, Copy, PartialEq, Eq, Structural)]
pub enum ListenerState {
    /// No start request has been admitted yet.
    Idle,
    /// The worker is creating the receiving surface and registering for raw
    /// input; the caller's start request is blocked on the handshake.
    Initializing,
    /// The worker is pumping platform messages and delivering events.
    Running,
    /// Shutdown has been signalled; the worker is draining out of the pump.
    Stopping,
    /// The worker has exited and its resources are reclaimed.
    Stopped,
    /// An unrecoverable fault ended this instance.
    Faulted,
}

/// The process-wide singleton capability: at most one listener may be active
/// at a time, and every start request must first acquire this registry.
///
/// It is an explicit value rather than hidden global state, so independent
/// registries can be instantiated; a process shares one of them.
#[derive(Debug, Clone, Copy, PartialEq, Eq, Structural)]
pub struct ListenerRegistry {
    /// True from a successful acquisition until the holder releases it.
    pub active: bool,
}

/// Whether an acquisition attempt on `reg` wins the singleton.
pub open spec fn spec_acquire_succeeds(reg: ListenerRegistry) -> bool {
    !reg.active
}

/// The registry after an acquisition attempt: active whether or not the
/// attempt won, since a losing attempt leaves the current holder in place.
pub open spec fn spec_acquired(reg: ListenerRegistry) -> ListenerRegistry {
    ListenerRegistry { active: true }
}

/// The registry after its holder releases it.
pub open spec fn spec_released(reg: ListenerRegistry) -> ListenerRegistry {
    ListenerRegistry { active: false }
}

impl ListenerRegistry {
    /// A fresh registry with no active listener.
    pub fn new() -> (r: ListenerRegistry)
        ensures
            !r.active,
    {
        ListenerRegistry { active: false }
    }

    /// Attempts to acquire the singleton, as an atomic swap to active: the
    /// attempt wins exactly when no listener was active, and the registry is
    /// active afterwards either way.
    pub fn try_acquire(&mut self) -> (won: bool)
        ensures
            won == spec_acquire_succeeds(*old(self)),
            *final(self) == spec_acquired(*old(self)),
    {
        let won = !self.active;
        self.active = true;
        won
    }

    /// Releases the singleton so a future listener can start.
    pub fn release(&mut self)
        ensures
            *final(self) == spec_released(*old(self)),
    {
        self.active = false;
    }

    /// Whether a listener currently holds the singleton.
    pub fn is_active(&self) -> (r: bool)
        ensures
            r == self.active,
    {
        self.active
    }
}

/// At most one listener can be active in the process: while one holds the
/// singleton, every further acquisition attempt fails, and once the holder
/// releases the registry, a new attempt succeeds.
pub proof fn lemma_singleton_enforcement(reg: ListenerRegistry)
    requires
        reg.active,
    ensures
        !spec_acquire_succeeds(reg),
        spec_acquire_succeeds(spec_released(reg)),
{
}

/// The description of the condition under which a start request is denied.
pub open spec fn spec_start_denied_message() -> Seq<char> {
    "Raw input listener already running (singleton enforcement)"@
}

/// Where an error report goes: to the user's error callback when one was
/// supplied, and to the diagnostic sink otherwise — never nowhere.
#[derive(Debug, Clone, Copy, PartialEq, Eq, Structural)]
pub enum ErrorRoute {
    /// The user-supplied error callback.
    Callback,
    /// The diagnostic sink used when no error callback was supplied.
    DiagnosticSink,
}

/// The route an error report takes, given whether the user supplied an error
/// callback.
pub open spec fn spec_error_route(has_error_callback: bool) -> ErrorRoute {
    if has_error_callback {
        ErrorRoute::Callback
    } else {
        ErrorRoute::DiagnosticSink
    }
}

/// Picks the route for an error report; an error is never dropped outright.
pub fn error_route(has_error_callback: bool) -> (r: ErrorRoute)
    ensures
        r == spec_error_route(has_error_callback),
{
    if has_error_callback {
        ErrorRoute::Callback
    } else {
        ErrorRoute::DiagnosticSink
    }
}

/// What the pump is to do with one platform message.
#[derive(Debug, Clone, Copy, PartialEq, Eq, Structural)]
pub enum PumpDirective {
    /// The message announces a raw-input record: fetch and handle it, then
    /// dispatch the message.
    FetchRecord,
    /// Any other message: dispatch it onwards, nothing to fetch.
    DispatchOnly,
}

/// The directive for a pump message with the given notification code.
pub open spec fn spec_pump_directive(message: u32) -> PumpDirective {
    if message == RAW_INPUT_NOTIFICATION {
        PumpDirective::FetchRecord
    } else {
        PumpDirective::DispatchOnly
    }
}

/// Classifies one pump message by its notification code.
pub fn classify_message(message: u32) -> (r: PumpDirective)
    ensures
        r == spec_pump_directive(message),
{
    if message == RAW_INPUT_NOTIFICATION {
        PumpDirective::FetchRecord
    } else {
        PumpDirective::DispatchOnly
    }
}

/// What one raw-input notification becomes.
#[derive(Debug, Clone, PartialEq, Eq)]
pub enum NotificationDisposition {
    /// The record parsed to an event: invoke the user callback with it.
    Deliver(RawInputEvent),
    /// The record is of an unsupported device type or incomplete: skip it
    /// silently, by design.
    Skip,
    /// Fetching the record failed: report the error on the given route and
    /// keep pumping.
    Report(ErrorRoute, RawInputError),
}

/// The disposition of one notification: a fetched record is parsed and
/// delivered when it decodes to an event, skipped when its device type is
/// unsupported, and a fetch failure is reported — through the error callback
/// when one was supplied, else to the diagnostic sink — without stopping the
/// pump.
pub open spec fn spec_notification_disposition(
    fetched: Result<RawRecord, RawInputError>,
    has_error_callback: bool,
    lines: u32,
) -> NotificationDisposition {
    match fetched {
        Ok(rec) => match spec_parse_rawinput_event(rec.device_type, rec.payload@, lines) {
            Some(ev) => NotificationDisposition::Deliver(ev),
            None => NotificationDisposition::Skip,
        },
        Err(e) => NotificationDisposition::Report(spec_error_route(has_error_callback), e),
    }
}

/// Decides what one raw-input notification becomes, from the outcome of the
/// record fetch, under the scroll setting `scroll_lines`.
pub fn handle_notification(
    fetched: Result<RawRecord, RawInputError>,
    has_error_callback: bool,
    scroll_lines: u32,
) -> (d: NotificationDisposition)
    ensures
        d == spec_notification_disposition(fetched, has_error_callback, scroll_lines),
{
    match fetched {
        Ok(rec) => match parse_rawinput_event(&rec, scroll_lines) {
            Some(ev) => NotificationDisposition::Deliver(ev),
            None => NotificationDisposition::Skip,
        },
        Err(e) => NotificationDisposition::Report(error_route(has_error_callback), e),
    }
}

/// One step of the teardown sequence that releasing the handle performs.
#[derive(Debug, Clone, Copy, PartialEq, Eq, Structural)]
pub enum TeardownStep {
    /// Flip the shared shutdown flag the pump checks each iteration.
    SignalShutdown,
    /// Inject a wake-up message so the pump does not stay blocked waiting
    /// for the next external event.
    WakePump,
    /// Join the worker thread.
    JoinWorker,
    /// Deregister the receiving surface's class.
    DeregisterClass,
    /// Clear the singleton so a new listener can start.
    ClearSingleton,
}

/// The fixed order of the teardown steps.
pub open spec fn spec_release_steps() -> Seq<TeardownStep> {
    seq![
        TeardownStep::SignalShutdown,
        TeardownStep::WakePump,
        TeardownStep::JoinWorker,
        TeardownStep::DeregisterClass,
        TeardownStep::ClearSingleton,
    ]
}

/// A running engine after its handle is released: stopped, with the worker
/// joined and shutdown recorded.
pub open spec fn spec_after_release(e: ListenerEngine) -> ListenerEngine {
    ListenerEngine { state: ListenerState::Stopped, shutdown_requested: true, worker_exited: true }
}

/// An engine after an unrecoverable worker fault: faulted, with the worker
/// gone.
pub open spec fn spec_after_fault(e: ListenerEngine) -> ListenerEngine {
    ListenerEngine {
        state: ListenerState::Faulted,
        shutdown_requested: e.shutdown_requested,
        worker_exited: true,
    }
}

/// The lifecycle of one listener instance, as the decisions that drive it.
///
/// The runner owns the real worker thread, surface and channels; it calls
/// these methods at the corresponding points and acts on what they return.
#[derive(Debug, Clone, Copy, PartialEq, Eq, Structural)]
pub struct ListenerEngine {
    /// The current lifecycle phase.
    pub state: ListenerState,
    /// Whether shutdown has been signalled to the worker.
    pub shutdown_requested: bool,
    /// Whether the worker has fully exited (or was never able to run).
    pub worker_exited: bool,
}

impl ListenerEngine {
    /// A fresh, idle engine.
    pub fn new() -> (r: ListenerEngine)
        ensures
            r.state == ListenerState::Idle,
            !r.shutdown_requested,
            !r.worker_exited,
    {
        ListenerEngine {
            state: ListenerState::Idle,
            shutdown_requested: false,
            worker_exited: false,
        }
    }

    /// Admits or denies a start request against the singleton registry.
    ///
    /// A request while another listener is active is denied with the
    /// "already running" error and changes nothing else — the registry stays
    /// with its holder, so retrying later is safe. Otherwise the request
    /// acquires the singleton and the engine begins initializing.
    pub fn begin_start(&mut self, reg: &mut ListenerRegistry) -> (r: Result<(), RawInputError>)
        requires
            old(self).state == ListenerState::Idle,
        ensures
            final(reg).active,
            spec_acquire_succeeds(*old(reg)) ==> r is Ok && *final(self) == (ListenerEngine {
                state: ListenerState::Initializing,
                ..*old(self)
            }),
            !spec_acquire_succeeds(*old(reg)) ==> *final(self) == *old(self) && (r matches Err(
                RawInputError::Other(m),
            ) && m@ == spec_start_denied_message()),
    {
        let won = reg.try_acquire();
        if !won {
            return Err(
                RawInputError::Other(
                    String::from_str("Raw input listener already running (singleton enforcement)"),
                ),
            );
        }
        self.state = ListenerState::Initializing;
        Ok(())
    }

    /// Records an initialization failure: surface creation, raw-input
    /// registration, or a breakdown of the handshake channels.
    ///
    /// The instance faults and the singleton is cleared before the cause is
    /// handed back for the start request to return, so a failed start never
    /// blocks a future listener.
    pub fn fail_start(&mut self, reg: &mut ListenerRegistry, cause: RawInputError) -> (r:
        RawInputError)
        requires
            old(self).state == ListenerState::Initializing,
        ensures
            *final(self) == spec_after_fault(*old(self)),
            *final(reg) == spec_released(*old(reg)),
            r == cause,
    {
        self.state = ListenerState::Faulted;
        self.worker_exited = true;
        reg.release();
        cause
    }

    /// Records that the surface exists and raw-input registration succeeded:
    /// the worker enters its pump and the start request returns the handle.
    pub fn complete_start(&mut self)
        requires
            old(self).state == ListenerState::Initializing,
        ensures
            *final(self) == (ListenerEngine { state: ListenerState::Running, ..*old(self) }),
    {
        self.state = ListenerState::Running;
    }

    /// Records an unrecoverable fault caught at the worker's outermost
    /// boundary — including a fault in a user callback — and decides how it
    /// is reported.
    ///
    /// The instance faults, the singleton is cleared unconditionally, and
    /// exactly one report is produced, routed to the error callback when one
    /// was supplied and to the diagnostic sink otherwise.
    pub fn record_fault(
        &mut self,
        reg: &mut ListenerRegistry,
        has_error_callback: bool,
        description: String,
    ) -> (report: FaultReport)
        requires
            old(self).state == ListenerState::Initializing || old(self).state
                == ListenerState::Running,
        ensures
            *final(self) == spec_after_fault(*old(self)),
            *final(reg) == spec_released(*old(reg)),
            report.route == spec_error_route(has_error_callback),
            report.error matches RawInputError::Other(m) && m@ == "Listener thread panicked: "@
                + description@,
    {
        self.state = ListenerState::Faulted;
        self.worker_exited = true;
        reg.release();
        FaultReport {
            route: error_route(has_error_callback),
            error: RawInputError::Other(
                String::from_str("Listener thread panicked: ").concat(description.as_str()),
            ),
        }
    }

    /// Releases the handle: tears the listener down in the fixed order and
    /// returns the steps for the runner to perform.
    ///
    /// The worker is joined — and the surface class deregistered — before
    /// the singleton is cleared and the release returns, so no worker
    /// activity outlaps the handle's destruction.
    pub fn release(&mut self, reg: &mut ListenerRegistry) -> (steps: Vec<TeardownStep>)
        requires
            old(self).state == ListenerState::Running,
        ensures
            *final(self) == spec_after_release(*old(self)),
            *final(reg) == spec_released(*old(reg)),
            steps@ == spec_release_steps(),
    {
        self.shutdown_requested = true;
        self.state = ListenerState::Stopping;
        self.worker_exited = true;
        self.state = ListenerState::Stopped;
        reg.release();
        let mut steps: Vec<TeardownStep> = Vec::new();
        steps.push(TeardownStep::SignalShutdown);
        steps.push(TeardownStep::WakePump);
        steps.push(TeardownStep::JoinWorker);
        steps.push(TeardownStep::DeregisterClass);
        steps.push(TeardownStep::ClearSingleton);
        proof {
            assert(steps@ =~= spec_release_steps());
        }
        steps
    }
}

/// The UTF-16 code units of one character: the code point itself below
/// the supplementary range, and a surrogate pair above it.
pub open spec fn spec_utf16_units(c: char) -> Seq<u16> {
    let u = c as u32;
    if u < 0x10000 {
        seq![u as u16]
    } else {
        seq![
            (0xD800 + (u - 0x10000) / 0x400) as u16,
            (0xDC00 + (u - 0x10000) % 0x400) as u16,
        ]
    }
}

/// The UTF-16 encoding of a character sequence.
pub open spec fn spec_utf16(s: Seq<char>) -> Seq<u16>
    decreases s.len(),
{
    if s.len() == 0 {
        Seq::empty()
    } else {
        spec_utf16_units(s[0]) + spec_utf16(s.drop_first())
    }
}

/// The null-terminated UTF-16 encoding of a character sequence, as the
/// platform expects a class or window name.
pub open spec fn spec_widestring(s: Seq<char>) -> Seq<u16> {
    spec_utf16(s) + seq![0u16]
}

/// Appending one character extends the UTF-16 encoding by that character's
/// code units.
proof fn lemma_utf16_push(s: Seq<char>, c: char)
    ensures
        spec_utf16(s.push(c)) == spec_utf16(s) + spec_utf16_units(c),
    decreases s.len(),
{
    if s.len() == 0 {
        assert(s.push(c)[0] == c);
        assert(s.push(c).drop_first() =~= s);
        assert(spec_utf16(s.push(c)) == spec_utf16_units(c) + spec_utf16(s));
        assert(spec_utf16_units(c) + spec_utf16(s) =~= spec_utf16(s) + spec_utf16_units(c));
    } else {
        lemma_utf16_push(s.drop_first(), c);
        assert(s.push(c)[0] == s[0]);
        assert(s.push(c).drop_first() =~= s.drop_first().push(c));
        assert(spec_utf16(s.push(c)) == spec_utf16_units(s[0]) + spec_utf16(
            s.drop_first().push(c),
        ));
        assert(spec_utf16_units(s[0]) + (spec_utf16(s.drop_first()) + spec_utf16_units(c)) =~= (
        spec_utf16_units(s[0]) + spec_utf16(s.drop_first())) + spec_utf16_units(c));
    }
}

/// Encodes a name as a null-terminated UTF-16 string, as the platform
/// expects for the receiving surface's class and window names.
pub fn widestring(s: &str) -> (r: Vec<u16>)
    ensures
        r@ == spec_widestring(s@),
{
    let mut out: Vec<u16> = Vec::new();
    for c in it: s.chars()
        invariant
            out@ == spec_utf16(it.seq().take(it.index() as int)),
    {
        proof {
            vstd::utf8::char_is_scalar(c);
        }
        let u = c as u32;
        if u < 0x10000 {
            out.push(u as u16);
        } else {
            let v = u - 0x10000;
            proof {
                vstd::arithmetic::div_mod::lemma_fundamental_div_mod(v as int, 0x400);
                vstd::arithmetic::div_mod::lemma_mod_bound(v as int, 0x400);
            }
            out.push(0xD800 + (v / 0x400) as u16);
            out.push(0xDC00 + (v % 0x400) as u16);
        }
        proof {
            lemma_utf16_push(it.seq().take(it.index() as int), c);
            assert(it.seq().take(it.index() + 1) =~= it.seq().take(it.index() as int).push(c));
        }
    }
    proof {
        assert(s@.take(s@.len() as int) =~= s@);
    }
    out.push(0);
    proof {
        assert(out@ =~= spec_widestring(s@));
    }
    out
}

/// A captured worker fault together with the route its report takes.
#[derive(Debug, Clone, PartialEq, Eq)]
pub struct FaultReport {
    /// Where the report goes; it always goes somewhere.
    pub route: ErrorRoute,
    /// The error value delivered on that route.
    pub error: RawInputError,
}

/// An unrecoverable worker fault observably clears the singleton — a
/// subsequent acquisition attempt succeeds — and its report has exactly one
/// route: the error callback when one was supplied, the diagnostic sink
/// otherwise, never silence.
pub proof fn lemma_fault_clears_singleton(
    e: ListenerEngine,
    reg: ListenerRegistry,
    has_error_callback: bool,
)
    requires
        e.state == ListenerState::Initializing || e.state == ListenerState::Running,
    ensures
        spec_after_fault(e).state == ListenerState::Faulted,
        spec_after_fault(e).worker_exited,
        !spec_released(reg).active,
        spec_acquire_succeeds(spec_released(reg)),
        has_error_callback <==> spec_error_route(has_error_callback) == ErrorRoute::Callback,
        !has_error_callback <==> spec_error_route(has_error_callback)
            == ErrorRoute::DiagnosticSink,
{
}

/// Releasing a handle always leaves the worker fully exited before the
/// release returns: the teardown sequence joins the worker strictly before
/// the final step, and the resulting engine records the worker as exited and
/// the instance as stopped, with the singleton free for a new listener.
pub proof fn lemma_release_joins_worker(e: ListenerEngine, reg: ListenerRegistry)
    requires
        e.state == ListenerState::Running,
    ensures
        spec_after_release(e).worker_exited,
        spec_after_release(e).state == ListenerState::Stopped,
        !spec_released(reg).active,
        spec_release_steps().len() == 5,
        spec_release_steps()[0] == TeardownStep::SignalShutdown,
        spec_release_steps()[1] == TeardownStep::WakePump,
        spec_release_steps()[2] == TeardownStep::JoinWorker,
        spec_release_steps()[3] == TeardownStep::DeregisterClass,
        spec_release_steps()[4] == TeardownStep::ClearSingleton,
{
}

} // verus!
