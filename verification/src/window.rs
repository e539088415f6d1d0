//! The window's event dispatcher: the decisions that turn the platform's
//! events into typed events, keep the tick schedule and the modifier state,
//! and say how the loop goes on. The platform's side (the window, the
//! graphics context, the clock and the handler) is driven by the caller.
//!
//! One dispatch cycle runs in three steps. `Dispatcher::process_event` takes
//! the platform's event and the time, updates the state and says what to do:
//! resize the context, deliver an event to the handler, present the frame.
//! The handler then runs with the cycle's `WindowController`. Finally
//! `Dispatcher::complete` reads the controller back and gives the loop's next
//! `ControlFlow` together with what the handler asked of the window.
//!
//! Times are nanoseconds on the clock of the event loop.

use vstd::prelude::*;
use vstd::arithmetic::div_mod::lemma_fundamental_div_mod;
use vstd::arithmetic::div_mod::lemma_div_pos_is_pos;
use vstd::arithmetic::div_mod::lemma_fundamental_div_mod_converse;
use vstd::arithmetic::div_mod::lemma_mod_bound;
use crate::window::event::Event;
use crate::window::event::ModifierState;
use crate::window::event::NativeEvent;
use crate::window::event::TickEvent;

pub mod event;

verus! {

/// The tick interval of a new dispatcher: one second.
pub const DEFAULT_TICK_DURATION: u64 = 1_000_000_000;

/// What a window is created with.
#[derive(Debug)]
pub struct WindowConfiguration {
    pub title: String,
    pub size: (u32, u32),
    pub gl_version: (u8, u8),
}

impl Clone for WindowConfiguration {
    fn clone(&self) -> (copy: Self)
        ensures
            copy == *self,
    {
        WindowConfiguration {
            title: self.title.clone(),
            size: (self.size.0, self.size.1),
            gl_version: (self.gl_version.0, self.gl_version.1),
        }
    }
}

/// How the loop waits for the next event of the platform.
#[derive(Debug, Clone, Copy, PartialEq, Eq, Structural)]
pub enum ControlFlow {
    /// Go on at once, whether or not an event is pending.
    Poll,
    /// Wait for the next event, however long it takes.
    Wait,
    /// Wait for the next event, at most until the given time.
    WaitUntil(u64),
    /// Stop the loop.
    Exit,
}

/// The summary of one dispatch cycle.
#[derive(Debug, Clone, Copy, PartialEq, Eq)]
pub struct ProcessEventStatus {
    pub exit: bool,
    pub wait_until: Option<u64>,
}

impl ProcessEventStatus {
    /// The wait policy that the status asks for: stop on `exit`, else wait
    /// until the deadline where there is one, else wait for the next event.
    pub open spec fn wait_policy(self) -> ControlFlow {
        if self.exit {
            ControlFlow::Exit
        } else {
            match self.wait_until {
                Some(deadline) => ControlFlow::WaitUntil(deadline),
                None => ControlFlow::Wait,
            }
        }
    }

    /// Computes `wait_policy`.
    pub fn control_flow(&self) -> (flow: ControlFlow)
        ensures
            flow == self.wait_policy(),
    {
        if self.exit {
            ControlFlow::Exit
        } else {
            match self.wait_until {
                Some(deadline) => ControlFlow::WaitUntil(deadline),
                None => ControlFlow::Wait,
            }
        }
    }
}

/// The state that outlives a dispatch cycle: the tick schedule and the
/// modifier keys.
#[derive(Debug, Clone, Copy, PartialEq, Eq, Structural)]
pub struct WinData {
    pub tick_duration: u64,
    pub next_tick: u64,
    pub modifiers: ModifierState,
}

/// `a + b`, limited to the range of `u64`.
pub open spec fn add_saturating(a: u64, b: u64) -> u64 {
    if a + b > u64::MAX {
        u64::MAX
    } else {
        (a + b) as u64
    }
}

/// Computes `add_saturating`.
pub fn deadline_after(now: u64, duration: u64) -> (deadline: u64)
    ensures
        deadline == add_saturating(now, duration),
{
    if now > u64::MAX - duration {
        u64::MAX
    } else {
        now + duration
    }
}

/// The number of interval boundaries `next_tick`, `next_tick + tick`,
/// `next_tick + 2 * tick`, ... that are not later than `now`, for a positive
/// `tick`.
pub open spec fn boundaries_passed(next_tick: u64, now: u64, tick: u64) -> int {
    if now < next_tick {
        0
    } else {
        (now - next_tick) / (tick as int) + 1
    }
}

/// The tick that is due at `now`, if any: none before the deadline; else one
/// tick that carries the number of boundaries passed, at most `u32::MAX`, and
/// the time of the last boundary passed. With an interval of zero every
/// boundary lies on `next_tick` and the count is `u32::MAX`.
pub open spec fn tick_due(next_tick: u64, now: u64, tick: u64) -> Option<TickEvent> {
    if now < next_tick {
        None
    } else if tick == 0 {
        Some(TickEvent { ticks_passed: u32::MAX, time: next_tick })
    } else {
        let passed = boundaries_passed(next_tick, now, tick);
        Some(
            TickEvent {
                ticks_passed: if passed > u32::MAX {
                    u32::MAX
                } else {
                    passed as u32
                },
                time: (next_tick + (passed - 1) * tick) as u64,
            },
        )
    }
}

/// The deadline after catching up at `now`: the first boundary later than
/// `now`, limited to the range of `u64`. With an interval of zero the
/// deadline stays.
pub open spec fn next_tick_after(next_tick: u64, now: u64, tick: u64) -> u64 {
    if now < next_tick || tick == 0 {
        next_tick
    } else {
        let exact = next_tick + boundaries_passed(next_tick, now, tick) * tick;
        if exact > u64::MAX {
            u64::MAX
        } else {
            exact as u64
        }
    }
}

/// Catches the tick schedule up with `now`: gives the tick that is due, if
/// any, and the new deadline. However many intervals were missed, one tick
/// stands for all of them.
pub fn catch_up(next_tick: u64, now: u64, tick_duration: u64) -> (r: (Option<TickEvent>, u64))
    ensures
        r.0 == tick_due(next_tick, now, tick_duration),
        r.1 == next_tick_after(next_tick, now, tick_duration),
{
    if now < next_tick {
        return (None, next_tick);
    }
    if tick_duration == 0 {
        return (Some(TickEvent { ticks_passed: u32::MAX, time: next_tick }), next_tick);
    }
    let behind: u64 = now - next_tick;
    let whole: u64 = behind / tick_duration;
    proof {
        lemma_fundamental_div_mod(behind as int, tick_duration as int);
        assert(whole * tick_duration <= behind) by (nonlinear_arith)
            requires
                behind == tick_duration * whole + (behind as int) % (tick_duration as int),
                0 <= (behind as int) % (tick_duration as int),
        ;
        assert((whole + 1) * tick_duration == whole * tick_duration + tick_duration)
            by (nonlinear_arith);
    }
    let time: u64 = next_tick + whole * tick_duration;
    let next: u64 = deadline_after(time, tick_duration);
    let ticks_passed: u32 = if whole >= u32::MAX as u64 {
        u32::MAX
    } else {
        (whole + 1) as u32
    };
    (Some(TickEvent { ticks_passed, time }), next)
}

/// What one dispatch cycle's controller holds.
pub struct ControllerView {
    /// The cycle's summary so far.
    pub status: ProcessEventStatus,
    /// The tick schedule and the modifiers as the handler sees them.
    pub windata: WinData,
    /// The title that the handler asked for last, if any.
    pub title: Option<Seq<char>>,
    /// Whether the handler asked for a redraw.
    pub redraw: bool,
    /// Whether the cycle's deadline is read from the tick schedule when the
    /// cycle completes: so after a tick.
    pub refresh_deadline: bool,
}

/// What a handler can ask of the controller.
pub enum Request {
    SetTitle(Seq<char>),
    Close,
    RequestRedraw,
    /// A new tick interval, asked for at the given time.
    SetTickDuration { duration: u64, now: u64 },
}

impl ControllerView {
    /// The controller after one request.
    pub open spec fn after(self, request: Request) -> ControllerView {
        match request {
            Request::SetTitle(title) => ControllerView { title: Some(title), ..self },
            Request::Close => ControllerView {
                status: ProcessEventStatus { exit: true, ..self.status },
                ..self
            },
            Request::RequestRedraw => ControllerView { redraw: true, ..self },
            Request::SetTickDuration { duration, now } => ControllerView {
                windata: WinData {
                    tick_duration: duration,
                    next_tick: add_saturating(now, duration),
                    ..self.windata
                },
                ..self
            },
        }
    }

    /// The controller after a run of requests, the first of them first.
    pub open spec fn after_all(self, requests: Seq<Request>) -> ControllerView
        decreases requests.len(),
    {
        if requests.len() == 0 {
            self
        } else {
            self.after_all(requests.drop_last()).after(requests.last())
        }
    }

    /// The cycle's summary when it completes.
    pub open spec fn final_status(self) -> ProcessEventStatus {
        ProcessEventStatus {
            exit: self.status.exit,
            wait_until: if self.refresh_deadline {
                Some(self.windata.next_tick)
            } else {
                self.status.wait_until
            },
        }
    }
}

/// The handle through which a handler speaks to the window during one
/// dispatch cycle. What the handler asks for is kept here and takes effect
/// when the dispatcher reads the controller back.
pub struct WindowController {
    status: ProcessEventStatus,
    windata: WinData,
    title: Option<String>,
    redraw: bool,
    refresh_deadline: bool,
}

impl View for WindowController {
    type V = ControllerView;

    closed spec fn view(&self) -> ControllerView {
        ControllerView {
            status: self.status,
            windata: self.windata,
            title: match self.title {
                Some(title) => Some(title@),
                None => None,
            },
            redraw: self.redraw,
            refresh_deadline: self.refresh_deadline,
        }
    }
}

impl WindowController {
    fn new(windata: WinData, exit: bool, refresh_deadline: bool) -> (controller: Self)
        ensures
            controller@ == (ControllerView {
                status: ProcessEventStatus { exit, wait_until: Some(windata.next_tick) },
                windata,
                title: None,
                redraw: false,
                refresh_deadline,
            }),
    {
        Self {
            status: ProcessEventStatus { exit, wait_until: Some(windata.next_tick) },
            windata,
            title: None,
            redraw: false,
            refresh_deadline,
        }
    }

    /// Asks for a new window title. The last title asked for wins.
    pub fn set_title(&mut self, title: &str)
        ensures
            final(self)@ == old(self)@.after(Request::SetTitle(title@)),
    {
        self.title = Some(title.to_owned());
    }

    /// Asks the loop to stop after this cycle.
    pub fn close(&mut self)
        ensures
            final(self)@ == old(self)@.after(Request::Close),
    {
        self.status.exit = true;
    }

    /// Asks for the window to be drawn again.
    pub fn request_redraw(&mut self)
        ensures
            final(self)@ == old(self)@.after(Request::RequestRedraw),
    {
        self.redraw = true;
    }

    /// Sets the tick interval; the next tick is then due one interval after
    /// `now`.
    pub fn set_tick_duration(&mut self, duration: u64, now: u64)
        ensures
            final(self)@ == old(self)@.after(Request::SetTickDuration { duration, now }),
    {
        self.windata.tick_duration = duration;
        self.windata.next_tick = deadline_after(now, duration);
    }

    /// The modifier keys as of the last change.
    pub fn get_modifiers(&self) -> (modifiers: ModifierState)
        ensures
            modifiers == self@.windata.modifiers,
    {
        self.windata.modifiers
    }
}

/// What a dispatcher holds between cycles.
pub struct DispatcherView {
    pub windata: WinData,
    /// How the loop waits at present; `Exit` once the loop is to stop.
    pub control_flow: ControlFlow,
}

impl DispatcherView {
    /// Whether the loop has been told to stop.
    pub open spec fn exited(self) -> bool {
        self.control_flow is Exit
    }

    /// The tick schedule and the modifiers after the platform's event has
    /// been taken in, before the handler runs: the loop's start sets the first
    /// deadline, a reached deadline catches the schedule up, a change of
    /// modifiers is stored.
    pub open spec fn windata_after(self, native: NativeEvent, now: u64) -> WinData {
        match native {
            NativeEvent::Init => WinData {
                next_tick: add_saturating(now, self.windata.tick_duration),
                ..self.windata
            },
            NativeEvent::ResumeTimeReached => WinData {
                next_tick: next_tick_after(
                    self.windata.next_tick,
                    now,
                    self.windata.tick_duration,
                ),
                ..self.windata
            },
            NativeEvent::ModifiersChanged(modifiers) => WinData { modifiers, ..self.windata },
            _ => self.windata,
        }
    }

    /// The event that the handler receives for the platform's event, if any.
    pub open spec fn event_for(self, native: NativeEvent, now: u64) -> Option<Event> {
        match native {
            NativeEvent::Init => Some(Event::EventLoopStarted),
            NativeEvent::ResumeTimeReached => match tick_due(
                self.windata.next_tick,
                now,
                self.windata.tick_duration,
            ) {
                Some(tick) => Some(Event::Tick(tick)),
                None => None,
            },
            NativeEvent::LoopDestroyed => None,
            NativeEvent::Resized(width, height) => Some(Event::Resized(width, height)),
            NativeEvent::CloseRequested => Some(Event::CloseRequested),
            NativeEvent::KeyboardInput { key, pressed } => match key {
                Some(key) => Some(
                    if pressed {
                        Event::KeyPressed(key)
                    } else {
                        Event::KeyReleased(key)
                    },
                ),
                None => None,
            },
            NativeEvent::MouseInput { button, pressed } => Some(
                if pressed {
                    Event::MouseButtonPressed(button)
                } else {
                    Event::MouseButtonReleased(button)
                },
            ),
            NativeEvent::CursorEntered => Some(Event::CursorEntered),
            NativeEvent::CursorLeft => Some(Event::CursorLeft),
            NativeEvent::CursorMoved(x, y) => Some(Event::CursorMoved(x, y)),
            NativeEvent::ModifiersChanged(modifiers) => Some(Event::ModifiersChanged(modifiers)),
            NativeEvent::MouseWheel(delta) => Some(Event::MouseWheel(delta)),
            NativeEvent::Focused(focused) => Some(Event::Focused(focused)),
            NativeEvent::Moved(x, y) => Some(Event::Moved(x, y)),
            NativeEvent::DroppedFile(path) => Some(Event::DroppedFile(path)),
            NativeEvent::HoveredFile(path) => Some(Event::HoveredFile(path)),
            NativeEvent::HoveredFileCancelled => Some(Event::HoveredFileCancelled),
            NativeEvent::ReceivedCharacter(c) => Some(Event::ReceivedCharacter(c)),
            NativeEvent::RedrawRequested => Some(Event::RedrawRequested),
            NativeEvent::Suspended => Some(Event::Suspended),
            NativeEvent::Resumed => Some(Event::Resumed),
            NativeEvent::Other => None,
        }
    }

    /// The size that the graphics context takes before the handler runs.
    pub open spec fn resize_for(native: NativeEvent) -> Option<(u32, u32)> {
        match native {
            NativeEvent::Resized(width, height) => Some((width, height)),
            _ => None,
        }
    }

    /// The controller that the handler of this cycle is given.
    pub open spec fn controller_for(self, native: NativeEvent, now: u64) -> ControllerView {
        let windata = self.windata_after(native, now);
        ControllerView {
            status: ProcessEventStatus {
                exit: native is CloseRequested,
                wait_until: Some(windata.next_tick),
            },
            windata,
            title: None,
            redraw: false,
            refresh_deadline: native is ResumeTimeReached,
        }
    }

    /// The controller of a cycle that starts after the loop was told to
    /// stop.
    pub open spec fn idle_controller(self) -> ControllerView {
        ControllerView {
            status: ProcessEventStatus { exit: true, wait_until: Some(self.windata.next_tick) },
            windata: self.windata,
            title: None,
            redraw: false,
            refresh_deadline: false,
        }
    }

    /// How the loop goes on after a cycle: it stays stopped once stopped, it
    /// stops when the handler or the presentation failed, and else it follows
    /// the cycle's summary.
    pub open spec fn flow_after(self, controller: ControllerView, failed: bool) -> ControlFlow {
        if self.exited() || failed {
            ControlFlow::Exit
        } else {
            controller.final_status().wait_policy()
        }
    }

    /// What a cycle consists of. Once the loop was told to stop, nothing is
    /// resized, delivered or presented.
    pub open spec fn dispatch(self, native: NativeEvent, now: u64) -> DispatchView {
        if self.exited() {
            DispatchView {
                resize: None,
                event: None,
                present: false,
                controller: self.idle_controller(),
            }
        } else {
            DispatchView {
                resize: Self::resize_for(native),
                event: self.event_for(native, now),
                present: native is RedrawRequested,
                controller: self.controller_for(native, now),
            }
        }
    }

    /// The dispatcher after the platform's event has been taken in.
    pub open spec fn after_event(self, native: NativeEvent, now: u64) -> DispatcherView {
        if self.exited() {
            self
        } else {
            DispatcherView { windata: self.windata_after(native, now), ..self }
        }
    }

    /// The dispatcher after the cycle has completed: it keeps the schedule
    /// as the handler left it.
    pub open spec fn after_cycle(self, controller: ControllerView, failed: bool) -> DispatcherView {
        DispatcherView {
            windata: controller.windata,
            control_flow: self.flow_after(controller, failed),
        }
    }
}

/// What a `Dispatch` holds.
pub struct DispatchView {
    pub resize: Option<(u32, u32)>,
    pub event: Option<Event>,
    pub present: bool,
    pub controller: ControllerView,
}

/// What `Dispatcher::process_event` asks of the caller, in this order:
/// resize the graphics context where `resize` holds a size; hand `event`,
/// where there is one, to the handler together with `controller`; and
/// present the frame where `presents_after` says so.
pub struct Dispatch {
    pub resize: Option<(u32, u32)>,
    pub event: Option<Event>,
    /// Whether the cycle ends with presenting the frame: so after a redraw.
    pub present: bool,
    pub controller: WindowController,
}

impl Dispatch {
    /// Whether the frame is to be presented now that the handler has run:
    /// after every redraw whose handler did not fail, whatever else the
    /// handler asked for.
    pub fn presents_after(&self, handler_failed: bool) -> (present: bool)
        ensures
            present == (self.present && !handler_failed),
    {
        self.present && !handler_failed
    }
}

impl View for Dispatch {
    type V = DispatchView;

    open spec fn view(&self) -> DispatchView {
        DispatchView {
            resize: self.resize,
            event: self.event,
            present: self.present,
            controller: self.controller@,
        }
    }
}

/// What `Dispatcher::complete` hands to the loop: how to go on, and what
/// the handler asked of the window.
pub struct Outcome {
    pub control_flow: ControlFlow,
    pub title: Option<String>,
    pub redraw: bool,
}

/// The event dispatcher of one window.
pub struct Dispatcher {
    windata: WinData,
    control_flow: ControlFlow,
}

impl View for Dispatcher {
    type V = DispatcherView;

    closed spec fn view(&self) -> DispatcherView {
        DispatcherView { windata: self.windata, control_flow: self.control_flow }
    }
}

impl Dispatcher {
    /// The dispatcher of a window made at `now`: it ticks once a second, no
    /// modifier is held, and the loop has not waited yet.
    pub fn new(now: u64) -> (dispatcher: Self)
        ensures
            dispatcher@ == (DispatcherView {
                windata: WinData {
                    tick_duration: DEFAULT_TICK_DURATION,
                    next_tick: add_saturating(now, DEFAULT_TICK_DURATION),
                    modifiers: ModifierState {
                        shift: false,
                        ctrl: false,
                        alt: false,
                        super_: false,
                    },
                },
                control_flow: ControlFlow::Poll,
            }),
    {
        let tick_duration = DEFAULT_TICK_DURATION;
        let modifiers = ModifierState { shift: false, ctrl: false, alt: false, super_: false };
        Self {
            windata: WinData {
                tick_duration,
                next_tick: deadline_after(now, tick_duration),
                modifiers,
            },
            control_flow: ControlFlow::Poll,
        }
    }

    /// The tick schedule and the modifiers.
    pub fn windata(&self) -> (windata: WinData)
        ensures
            windata == self@.windata,
    {
        self.windata
    }

    /// How the loop waits at present.
    pub fn control_flow(&self) -> (flow: ControlFlow)
        ensures
            flow == self@.control_flow,
    {
        self.control_flow
    }

    /// Takes in one event of the platform at time `now` and says what the
    /// cycle consists of. The state is brought up to date before the handler
    /// runs: a close request is already noted in the controller, a change of
    /// modifiers is already stored, the tick schedule is already caught up.
    /// Once the loop was told to stop, nothing is delivered any more.
    pub fn process_event(&mut self, event: NativeEvent, now: u64) -> (dispatch: Dispatch)
        ensures
            final(self)@ == old(self)@.after_event(event, now),
            dispatch@ == old(self)@.dispatch(event, now),
    {
        if let ControlFlow::Exit = self.control_flow {
            return Dispatch {
                resize: None,
                event: None,
                present: false,
                controller: WindowController::new(self.windata, true, false),
            };
        }
        let mut resize: Option<(u32, u32)> = None;
        let mut present = false;
        let mut exit = false;
        let mut refresh_deadline = false;
        let delivered = match event {
            NativeEvent::Init => {
                self.windata.next_tick = deadline_after(now, self.windata.tick_duration);
                Some(Event::EventLoopStarted)
            },
            NativeEvent::ResumeTimeReached => {
                let (tick, next_tick) = catch_up(
                    self.windata.next_tick,
                    now,
                    self.windata.tick_duration,
                );
                self.windata.next_tick = next_tick;
                refresh_deadline = true;
                match tick {
                    Some(tick) => Some(Event::Tick(tick)),
                    None => None,
                }
            },
            NativeEvent::LoopDestroyed => None,
            NativeEvent::Resized(width, height) => {
                resize = Some((width, height));
                Some(Event::Resized(width, height))
            },
            NativeEvent::CloseRequested => {
                exit = true;
                Some(Event::CloseRequested)
            },
            NativeEvent::KeyboardInput { key, pressed } => match key {
                Some(key) => Some(
                    if pressed {
                        Event::KeyPressed(key)
                    } else {
                        Event::KeyReleased(key)
                    },
                ),
                None => None,
            },
            NativeEvent::MouseInput { button, pressed } => Some(
                if pressed {
                    Event::MouseButtonPressed(button)
                } else {
                    Event::MouseButtonReleased(button)
                },
            ),
            NativeEvent::CursorEntered => Some(Event::CursorEntered),
            NativeEvent::CursorLeft => Some(Event::CursorLeft),
            NativeEvent::CursorMoved(x, y) => Some(Event::CursorMoved(x, y)),
            NativeEvent::ModifiersChanged(modifiers) => {
                self.windata.modifiers = modifiers;
                Some(Event::ModifiersChanged(modifiers))
            },
            NativeEvent::MouseWheel(delta) => Some(Event::MouseWheel(delta)),
            NativeEvent::Focused(focused) => Some(Event::Focused(focused)),
            NativeEvent::Moved(x, y) => Some(Event::Moved(x, y)),
            NativeEvent::DroppedFile(path) => Some(Event::DroppedFile(path)),
            NativeEvent::HoveredFile(path) => Some(Event::HoveredFile(path)),
            NativeEvent::HoveredFileCancelled => Some(Event::HoveredFileCancelled),
            NativeEvent::ReceivedCharacter(c) => Some(Event::ReceivedCharacter(c)),
            NativeEvent::RedrawRequested => {
                present = true;
                Some(Event::RedrawRequested)
            },
            NativeEvent::Suspended => Some(Event::Suspended),
            NativeEvent::Resumed => Some(Event::Resumed),
            NativeEvent::Other => None,
        };
        Dispatch {
            resize,
            event: delivered,
            present,
            controller: WindowController::new(self.windata, exit, refresh_deadline),
        }
    }

    /// Ends a cycle: reads back what the handler did through `controller`
    /// and decides how the loop goes on. `failed` says that the handler
    /// reported an error or that the frame could not be presented; either
    /// stops the loop.
    pub fn complete(&mut self, controller: WindowController, failed: bool) -> (outcome: Outcome)
        ensures
            final(self)@ == old(self)@.after_cycle(controller@, failed),
            outcome.control_flow == old(self)@.flow_after(controller@, failed),
            outcome.redraw == controller@.redraw,
            match outcome.title {
                Some(title) => controller@.title == Some(title@),
                None => controller@.title is None,
            },
    {
        let flow = if failed {
            ControlFlow::Exit
        } else if let ControlFlow::Exit = self.control_flow {
            ControlFlow::Exit
        } else {
            let wait_until = if controller.refresh_deadline {
                Some(controller.windata.next_tick)
            } else {
                controller.status.wait_until
            };
            ProcessEventStatus { exit: controller.status.exit, wait_until }.control_flow()
        };
        self.windata = controller.windata;
        self.control_flow = flow;
        Outcome { control_flow: flow, title: controller.title, redraw: controller.redraw }
    }
}

/// Catching up counts whole intervals only. Where `now` lies `whole`
/// intervals and a part of one behind the deadline, one tick is due; it
/// counts the `whole + 1` boundaries from the deadline on, and carries the
/// time of the last of them. The new deadline is the boundary after that one.
pub proof fn lemma_catch_up_counts_whole_intervals(
    next_tick: u64,
    tick: u64,
    whole: nat,
    part: nat,
    now: u64,
)
    requires
        0 < tick,
        part < tick,
        now == next_tick + whole * tick + part,
    ensures
        boundaries_passed(next_tick, now, tick) == whole + 1,
        tick_due(next_tick, now, tick) == Some(
            TickEvent {
                ticks_passed: if whole + 1 > u32::MAX {
                    u32::MAX
                } else {
                    (whole + 1) as u32
                },
                time: (next_tick + whole * tick) as u64,
            },
        ),
        next_tick + (whole + 1) * tick <= u64::MAX ==> next_tick_after(next_tick, now, tick)
            == next_tick + (whole + 1) * tick,
{
    let behind = now - next_tick;
    assert(0 <= whole * tick) by (nonlinear_arith);
    lemma_fundamental_div_mod(behind, tick as int);
    lemma_fundamental_div_mod_converse(behind, tick as int, whole as int, part as int);
}

/// After catching up the deadline lies in the future, and the tick that was
/// delivered carries the boundary just before it: between that boundary and
/// the new deadline lies `now`.
pub proof fn lemma_catch_up_passes_now(next_tick: u64, now: u64, tick: u64)
    requires
        0 < tick,
        next_tick <= now,
        now + tick <= u64::MAX,
    ensures
        tick_due(next_tick, now, tick) is Some,
        tick_due(next_tick, now, tick)->0.ticks_passed >= 1,
        tick_due(next_tick, now, tick)->0.time <= now < next_tick_after(next_tick, now, tick),
        next_tick_after(next_tick, now, tick) == tick_due(next_tick, now, tick)->0.time + tick,
{
    let behind = now - next_tick;
    let whole = behind / (tick as int);
    lemma_fundamental_div_mod(behind, tick as int);
    lemma_div_pos_is_pos(behind, tick as int);
    lemma_mod_bound(behind, tick as int);
    assert(whole * tick == tick * whole) by (nonlinear_arith);
    assert((whole + 1) * tick == whole * tick + tick) by (nonlinear_arith);
    assert((whole + 1 - 1) * tick == whole * tick);
}

/// Before the deadline no tick is due and the deadline stays.
pub proof fn lemma_no_tick_before_deadline(next_tick: u64, now: u64, tick: u64)
    requires
        now < next_tick,
    ensures
        tick_due(next_tick, now, tick) is None,
        next_tick_after(next_tick, now, tick) == next_tick,
{
}

/// No request withdraws a close.
pub proof fn lemma_exit_survives_requests(controller: ControllerView, requests: Seq<Request>)
    requires
        controller.status.exit,
    ensures
        controller.after_all(requests).status.exit,
    decreases requests.len(),
{
    if requests.len() > 0 {
        lemma_exit_survives_requests(controller, requests.drop_last());
    }
}

/// No request changes the modifiers: only the platform's event does.
pub proof fn lemma_requests_keep_modifiers(controller: ControllerView, requests: Seq<Request>)
    ensures
        controller.after_all(requests).windata.modifiers == controller.windata.modifiers,
    decreases requests.len(),
{
    if requests.len() > 0 {
        lemma_requests_keep_modifiers(controller, requests.drop_last());
    }
}

/// Whatever the handler asks for, a cycle leaves the modifiers as the
/// platform's event set them.
pub proof fn lemma_cycle_keeps_modifiers(
    dispatcher: DispatcherView,
    native: NativeEvent,
    now: u64,
    requests: Seq<Request>,
    failed: bool,
)
    ensures
        dispatcher.after_event(native, now).after_cycle(
            dispatcher.dispatch(native, now).controller.after_all(requests),
            failed,
        ).windata.modifiers == dispatcher.after_event(native, now).windata.modifiers,
        !(native is ModifiersChanged) ==> dispatcher.after_event(native, now).windata.modifiers
            == dispatcher.windata.modifiers,
{
    lemma_requests_keep_modifiers(dispatcher.dispatch(native, now).controller, requests);
}

/// A close request stops the loop whatever the handler does with it: the
/// request is noted before the handler runs, and the cycle ends with the
/// loop told to stop.
pub proof fn lemma_close_request_stops_loop(
    dispatcher: DispatcherView,
    now: u64,
    requests: Seq<Request>,
    failed: bool,
)
    ensures
        dispatcher.dispatch(NativeEvent::CloseRequested, now).controller.status.exit,
        !dispatcher.exited() ==> dispatcher.dispatch(NativeEvent::CloseRequested, now).event
            == Some(Event::CloseRequested),
        dispatcher.after_event(NativeEvent::CloseRequested, now).after_cycle(
            dispatcher.dispatch(NativeEvent::CloseRequested, now).controller.after_all(requests),
            failed,
        ).exited(),
{
    lemma_exit_survives_requests(
        dispatcher.dispatch(NativeEvent::CloseRequested, now).controller,
        requests,
    );
}

/// Once the loop was told to stop, a cycle resizes, delivers and presents
/// nothing, changes nothing, and leaves the loop stopped.
pub proof fn lemma_exit_is_final(
    dispatcher: DispatcherView,
    native: NativeEvent,
    now: u64,
    controller: ControllerView,
    failed: bool,
)
    requires
        dispatcher.exited(),
    ensures
        dispatcher.dispatch(native, now).resize is None,
        dispatcher.dispatch(native, now).event is None,
        !dispatcher.dispatch(native, now).present,
        dispatcher.after_event(native, now) == dispatcher,
        dispatcher.after_cycle(controller, failed).exited(),
{
}

/// A failure of the handler or of the presentation stops the loop, whatever
/// the handler asked for.
pub proof fn lemma_failure_stops_loop(dispatcher: DispatcherView, controller: ControllerView)
    ensures
        dispatcher.after_cycle(controller, true).exited(),
{
}

/// A resize reaches the graphics context and the handler with the size that
/// the platform reported.
pub proof fn lemma_resize_is_handed_on(
    dispatcher: DispatcherView,
    width: u32,
    height: u32,
    now: u64,
)
    requires
        !dispatcher.exited(),
    ensures
        dispatcher.dispatch(NativeEvent::Resized(width, height), now).resize == Some(
            (width, height),
        ),
        dispatcher.dispatch(NativeEvent::Resized(width, height), now).event == Some(
            Event::Resized(width, height),
        ),
{
}

/// A change of modifiers is stored before the handler runs: the controller
/// of that cycle already answers with the new state.
pub proof fn lemma_modifiers_stored_before_delivery(
    dispatcher: DispatcherView,
    modifiers: ModifierState,
    now: u64,
)
    requires
        !dispatcher.exited(),
    ensures
        dispatcher.dispatch(NativeEvent::ModifiersChanged(modifiers), now).controller.windata.modifiers
            == modifiers,
        dispatcher.after_event(NativeEvent::ModifiersChanged(modifiers), now).windata.modifiers
            == modifiers,
        dispatcher.dispatch(NativeEvent::ModifiersChanged(modifiers), now).event == Some(
            Event::ModifiersChanged(modifiers),
        ),
{
}

} // verus!
