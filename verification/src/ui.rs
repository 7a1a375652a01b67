//! The controller: one session, one application, and the cycle between them.

use vstd::prelude::*;
use std::time::Instant;
use crate::app::App;
use crate::app::Ticked;
use crate::clock;
use crate::cycle::asks;
use crate::cycle::conclude;
use crate::cycle::remaining_wait;
use crate::cycle::step;
use crate::cycle::step_of;
use crate::cycle::tick_due;
use crate::cycle::Outcome;
use crate::cycle::Pending;
use crate::cycle::Phase;
use crate::cycle::Request;
use crate::cycle::Step;
use crate::session::release_commands;
use crate::session::Command;
use crate::session::Session;
use crate::span::Span;

verus! {

/// A controller: the terminal session, the hosted application and, in
/// ticked mode, the tick interval.
///
/// The mode is fixed when the controller is made. One made by
/// [`UI::new`] is driven by [`UI::run`] and [`UI::resume`]; one made by
/// [`UI::new_ticked`] by [`UI::run_ticked`] and [`UI::resume_ticked`].
pub struct UI<A: App> {
    session: Session,
    tick_rate: Option<Span>,
    app: A,
    phase: Phase,
    last_tick: Instant,
}

/// Whether a phase and a request are what a step leaves behind. `limit` is
/// the tick interval, where there is one: no wait is longer than it.
pub open spec fn follows(step: Step, limit: Option<Span>, phase: Phase, request: Request) -> bool {
    &&& asks(request, phase)
    &&& match step {
        Step::Wait => match limit {
            None => phase == Phase::Running(Pending::Read),
            Some(interval) => phase == Phase::Running(Pending::Poll)
                && request->Poll_0@ <= interval@,
        },
        Step::Fetch => phase == Phase::Running(Pending::Read),
        Step::Settle(_) => phase == Phase::Terminated || phase == Phase::Running(
            Pending::Render,
        ),
        Step::Rest => phase == Phase::Terminated,
        Step::Fault => phase == Phase::Faulted,
    }
}

impl<A: App> UI<A> {
    /// The terminal session as the controller knows it.
    pub closed spec fn spec_session(&self) -> Session {
        self.session
    }

    /// The tick interval; `None` in unticked mode.
    pub closed spec fn spec_tick_rate(&self) -> Option<Span> {
        self.tick_rate
    }

    /// The hosted application.
    pub closed spec fn spec_app(&self) -> A {
        self.app
    }

    /// Where the cycle stands.
    pub closed spec fn spec_phase(&self) -> Phase {
        self.phase
    }

    /// Whether two controllers differ in nothing but where the cycle stands
    /// and when the last tick was.
    pub open spec fn same_setup(self, other: Self) -> bool {
        &&& self.spec_session() == other.spec_session()
        &&& self.spec_tick_rate() == other.spec_tick_rate()
        &&& self.spec_app() == other.spec_app()
    }

    /// Makes an unticked controller over an acquired session. A session that
    /// is not acquired gives `None`: a controller exists only over a
    /// terminal in raw mode, on the alternate screen, with mouse reports.
    pub fn new(app: A, session: Session) -> (ui: Option<Self>)
        ensures
            ui is Some <==> session.acquired(),
            ui is Some ==> {
                &&& ui.unwrap().spec_app() == app
                &&& ui.unwrap().spec_session() == session
                &&& ui.unwrap().spec_tick_rate() is None
                &&& ui.unwrap().spec_phase() == Phase::Idle
            },
    {
        if session.is_acquired() {
            Some(UI { session, tick_rate: None, app, phase: Phase::Idle, last_tick: clock::now() })
        } else {
            None
        }
    }

    /// The terminal session as the controller knows it.
    #[verifier::when_used_as_spec(spec_session)]
    pub fn session(&self) -> (session: Session)
        ensures
            session == self.spec_session(),
    {
        self.session
    }

    /// The tick interval; `None` in unticked mode.
    #[verifier::when_used_as_spec(spec_tick_rate)]
    pub fn tick_rate(&self) -> (tick_rate: Option<Span>)
        ensures
            tick_rate == self.spec_tick_rate(),
    {
        self.tick_rate
    }

    /// Where the cycle stands.
    #[verifier::when_used_as_spec(spec_phase)]
    pub fn phase(&self) -> (phase: Phase)
        ensures
            phase == self.spec_phase(),
    {
        self.phase
    }

    /// The hosted application.
    pub fn app(&self) -> (app: &A)
        ensures
            *app == self.spec_app(),
    {
        &self.app
    }

    /// The hosted application, to draw it or to change it between runs.
    pub fn app_mut(&mut self) -> (app: &mut A)
        ensures
            *app == old(self).spec_app(),
            final(self).spec_app() == *final(app),
            final(self).spec_session() == old(self).spec_session(),
            final(self).spec_tick_rate() == old(self).spec_tick_rate(),
            final(self).spec_phase() == old(self).spec_phase(),
    {
        &mut self.app
    }

    /// Starts the unticked cycle: asks the application whether it wants to
    /// stop, and asks for a drawing if it does not.
    ///
    /// Only a controller without a tick interval may be run this way.
    pub fn run(&mut self) -> (request: Request)
        requires
            old(self).spec_tick_rate() is None,
        ensures
            final(self).same_setup(*old(self)),
            final(self).spec_phase() == Phase::Terminated || final(self).spec_phase()
                == Phase::Running(Pending::Render),
            asks(request, final(self).spec_phase()),
    {
        let closed = self.app.is_closed();
        let next = conclude(closed);
        self.phase = next.0;
        next.1
    }

    /// Goes on with the unticked cycle after the outstanding request was
    /// served.
    ///
    /// After a drawing the cycle blocks for one event. Of the events read,
    /// a key event is handed to the application and any other is dropped;
    /// either way the application is then asked whether it wants to stop.
    /// The application is touched only when a key event was read.
    pub fn resume(&mut self, outcome: Outcome) -> (request: Request)
        requires
            old(self).spec_tick_rate() is None,
        ensures
            final(self).spec_session() == old(self).spec_session(),
            final(self).spec_tick_rate() == old(self).spec_tick_rate(),
            follows(
                step_of(false, old(self).spec_phase(), outcome),
                None,
                final(self).spec_phase(),
                request,
            ),
            !(step_of(false, old(self).spec_phase(), outcome) matches Step::Settle(Some(_)))
                ==> final(self).spec_app() == old(self).spec_app(),
            outcome matches Outcome::Input(event) && !(event is Key)
                ==> final(self).spec_app() == old(self).spec_app(),
    {
        match step(false, self.phase, outcome) {
            Step::Wait => {
                self.phase = Phase::Running(Pending::Read);
                Request::Read
            },
            Step::Fetch => {
                self.phase = Phase::Running(Pending::Read);
                Request::Read
            },
            Step::Settle(key) => {
                match key {
                    Some(event) => {
                        self.app.on_input_received(event);
                    },
                    None => {},
                }
                let closed = self.app.is_closed();
                let next = conclude(closed);
                self.phase = next.0;
                next.1
            },
            Step::Rest => {
                self.phase = Phase::Terminated;
                Request::Finish
            },
            Step::Fault => {
                self.phase = Phase::Faulted;
                Request::Abort
            },
        }
    }

    /// The commands that release the terminal, in the order in which they
    /// are to be performed: raw mode off, mouse reports off, back to the
    /// primary screen, cursor shown. Each one performed is reported with
    /// [`UI::applied`].
    pub fn destroy_app(&self) -> (commands: Vec<Command>)
        ensures
            commands@ == release_commands(),
    {
        Session::release()
    }

    /// Records that a command was performed on the terminal.
    pub fn applied(&mut self, command: Command)
        ensures
            final(self).spec_session() == old(self).spec_session().after(command),
            final(self).spec_tick_rate() == old(self).spec_tick_rate(),
            final(self).spec_app() == old(self).spec_app(),
            final(self).spec_phase() == old(self).spec_phase(),
    {
        self.session.apply(command);
    }
}

impl<A: App + Ticked> UI<A> {
    /// Makes a ticked controller over an acquired session, with the time
    /// between two ticks. The empty length is a legal interval and makes a
    /// tick due in every iteration. A session that is not acquired gives
    /// `None`.
    pub fn new_ticked(app: A, session: Session, tick_rate: Span) -> (ui: Option<Self>)
        ensures
            ui is Some <==> session.acquired(),
            ui is Some ==> {
                &&& ui.unwrap().spec_app() == app
                &&& ui.unwrap().spec_session() == session
                &&& ui.unwrap().spec_tick_rate() == Some(tick_rate)
                &&& ui.unwrap().spec_phase() == Phase::Idle
            },
    {
        if session.is_acquired() {
            Some(
                UI {
                    session,
                    tick_rate: Some(tick_rate),
                    app,
                    phase: Phase::Idle,
                    last_tick: clock::now(),
                },
            )
        } else {
            None
        }
    }

    /// Starts the ticked cycle: notes the time as that of the last tick,
    /// asks the application whether it wants to stop, and asks for a drawing
    /// if it does not.
    ///
    /// Only a controller with a tick interval may be run this way.
    pub fn run_ticked(&mut self) -> (request: Request)
        requires
            old(self).spec_tick_rate() is Some,
        ensures
            final(self).same_setup(*old(self)),
            final(self).spec_phase() == Phase::Terminated || final(self).spec_phase()
                == Phase::Running(Pending::Render),
            asks(request, final(self).spec_phase()),
    {
        self.last_tick = clock::now();
        let closed = self.app.is_closed();
        let next = conclude(closed);
        self.phase = next.0;
        next.1
    }

    /// Goes on with the ticked cycle after the outstanding request was
    /// served.
    ///
    /// After a drawing the cycle waits for input for what is left of the
    /// interval since the last tick, and not at all where the interval has
    /// run out. When the wait is over, with or without an event, a key
    /// event read is handed to the application, a tick is delivered if the
    /// interval has run out by then, and the application is asked whether
    /// it wants to stop.
    pub fn resume_ticked(&mut self, outcome: Outcome) -> (request: Request)
        requires
            old(self).spec_tick_rate() is Some,
        ensures
            final(self).spec_session() == old(self).spec_session(),
            final(self).spec_tick_rate() == old(self).spec_tick_rate(),
            follows(
                step_of(true, old(self).spec_phase(), outcome),
                old(self).spec_tick_rate(),
                final(self).spec_phase(),
                request,
            ),
            !(step_of(true, old(self).spec_phase(), outcome) is Settle)
                ==> final(self).spec_app() == old(self).spec_app(),
    {
        let interval = self.tick_rate.unwrap();
        match step(true, self.phase, outcome) {
            Step::Wait => {
                let elapsed = clock::since(&self.last_tick);
                self.phase = Phase::Running(Pending::Poll);
                Request::Poll(remaining_wait(interval, elapsed))
            },
            Step::Fetch => {
                self.phase = Phase::Running(Pending::Read);
                Request::Read
            },
            Step::Settle(key) => {
                match key {
                    Some(event) => {
                        self.app.on_input_received(event);
                    },
                    None => {},
                }
                let elapsed = clock::since(&self.last_tick);
                if tick_due(interval, elapsed) {
                    self.app.on_tick();
                    self.last_tick = clock::now();
                }
                let closed = self.app.is_closed();
                let next = conclude(closed);
                self.phase = next.0;
                next.1
            },
            Step::Rest => {
                self.phase = Phase::Terminated;
                Request::Finish
            },
            Step::Fault => {
                self.phase = Phase::Faulted;
                Request::Abort
            },
        }
    }
}

} // verus!
