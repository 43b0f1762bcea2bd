//! The application around the screens: it waits for the database, then shows
//! the welcome screen, from which the bar till opens; its own toasts report
//! what the screens cannot.

use vstd::prelude::*;
use crate::action::{ActionView, AlegriaAction, no_action, tasks_only};
use crate::bar::{Bar, BarTask, BarTaskView, BarView, bar_message_allowed, bar_step};
use crate::bar::Message as BarMessage;
use crate::models::Toast;
use std::time::Instant;

verus! {

/// A point of the monotonic clock (`std::time::Instant`), carried through as
/// it came.
#[verifier::external_type_specification]
#[verifier::external_body]
pub struct ExInstant(std::time::Instant);

/// The present instant of the monotonic clock (`Instant::now`). It depends
/// on the clock, so nothing is claimed of it.
#[verifier::external_body]
fn instant_now() -> (t: Instant) {
    Instant::now()
}

/// The screen the application shows once the database is ready.
#[derive(Debug)]
pub enum Screen {
    Welcome,
    Bar(Bar),
}

pub enum ScreenView {
    Welcome,
    Bar(BarView),
}

/// Whether the database is ready.
#[derive(Debug)]
pub enum State {
    Loading,
    Ready(Screen),
}

pub enum StateView {
    Loading,
    Ready(ScreenView),
}

/// The state of the application; `now` is the instant of the last message,
/// which the views draw with.
#[derive(Debug)]
pub struct IcedAlegria {
    pub toasts: Vec<Toast>,
    pub state: State,
    pub now: Instant,
}

pub struct IcedAlegriaView {
    pub toasts: Seq<(Seq<char>, Seq<char>)>,
    pub state: StateView,
    pub now: Instant,
}

impl View for IcedAlegria {
    type V = IcedAlegriaView;

    open spec fn view(&self) -> IcedAlegriaView {
        IcedAlegriaView {
            toasts: self.toasts.deep_view(),
            state: match &self.state {
                State::Loading => StateView::Loading,
                State::Ready(Screen::Welcome) => StateView::Ready(ScreenView::Welcome),
                State::Ready(Screen::Bar(b)) => StateView::Ready(ScreenView::Bar(b@)),
            },
            now: self.now,
        }
    }
}

/// The messages of the application.
#[derive(Debug)]
pub enum Message {
    /// The database connection is ready, or failed with the given error
    DatabaseLoaded(Result<(), String>),
    /// Messages of the bar screen
    Bar(BarMessage),
    /// Opens the bar till
    OpenBar,
    /// Adds a toast
    AddToast(Toast),
    /// Closes a toast
    CloseToast(usize),
}

/// What the application asks of its runner.
#[derive(Debug)]
pub enum AppInstruction {
    /// Stop the program, reporting the error (the database could not be
    /// opened)
    Exit(String),
}

pub enum AppInstructionView {
    Exit(Seq<char>),
}

impl DeepView for AppInstruction {
    type V = AppInstructionView;

    open spec fn deep_view(&self) -> AppInstructionView {
        match self {
            AppInstruction::Exit(e) => AppInstructionView::Exit(e@),
        }
    }
}

pub type AppAction = AlegriaAction<AppInstruction, BarTask>;

pub type AppActionView = ActionView<AppInstructionView, BarTaskView>;

/// What a message that arrives at the instant `now` does to the
/// application, and the work it asks for: the instant is kept; the bar's
/// tasks are the application's; a bar that asks to go back returns to the
/// welcome screen.
pub open spec fn app_step(s: IcedAlegriaView, m: Message, now: Instant) -> (IcedAlegriaView, AppActionView) {
    let s = IcedAlegriaView { now: now, ..s };
    match m {
        Message::DatabaseLoaded(r) => match r {
            Ok(_) => (
                IcedAlegriaView { state: StateView::Ready(ScreenView::Welcome), ..s },
                no_action(),
            ),
            Err(e) => (
                s,
                ActionView { instructions: seq![AppInstructionView::Exit(e@)], tasks: Seq::empty() },
            ),
        },
        Message::Bar(bm) => match s.state {
            StateView::Ready(ScreenView::Bar(b)) => {
                let (b2, ba) = bar_step(b, bm);
                (
                    IcedAlegriaView {
                        state: StateView::Ready(
                            if ba.instructions.len() > 0 {
                                ScreenView::Welcome
                            } else {
                                ScreenView::Bar(b2)
                            },
                        ),
                        ..s
                    },
                    tasks_only(ba.tasks),
                )
            },
            _ => (s, no_action()),
        },
        Message::OpenBar => match s.state {
            StateView::Ready(_) => {
                let (b2, ba) = bar_step(crate::bar::update::initial_bar(true), BarMessage::InitPage);
                (
                    IcedAlegriaView { state: StateView::Ready(ScreenView::Bar(b2)), ..s },
                    tasks_only(ba.tasks),
                )
            },
            StateView::Loading => (s, no_action()),
        },
        Message::AddToast(t) => (IcedAlegriaView { toasts: s.toasts.push(t@), ..s }, no_action()),
        Message::CloseToast(i) => (
            IcedAlegriaView { toasts: s.toasts.remove(i as int), ..s },
            no_action(),
        ),
    }
}

/// The inputs on which a message would panic are left out: closing a toast
/// that is not there, and those of the bar.
pub open spec fn app_message_allowed(s: IcedAlegriaView, m: Message) -> bool {
    match m {
        Message::CloseToast(i) => i < s.toasts.len(),
        Message::Bar(bm) => match s.state {
            StateView::Ready(ScreenView::Bar(b)) => bar_message_allowed(b, bm),
            _ => true,
        },
        _ => true,
    }
}

impl IcedAlegria {
    /// The application as it starts: waiting for the database, at the
    /// present instant.
    pub fn new() -> (a: IcedAlegria)
        ensures
            a@.toasts == Seq::<(Seq<char>, Seq<char>)>::empty(),
            a@.state == StateView::Loading,
    {
        let a = IcedAlegria { toasts: Vec::new(), state: State::Loading, now: instant_now() };
        assert(a@.toasts =~= Seq::empty());
        a
    }

    /// Handles a message that arrives at the instant `now`.
    pub fn update(&mut self, message: Message, now: Instant) -> (action: AppAction)
        requires
            app_message_allowed(old(self)@, message),
        ensures
            (final(self)@, action@) == app_step(old(self)@, message, now),
    {
        self.now = now;
        let mut action = AlegriaAction::new();
        match message {
            Message::DatabaseLoaded(r) => match r {
                Ok(_) => {
                    self.state = State::Ready(Screen::Welcome);
                },
                Err(e) => {
                    action.add_instruction(AppInstruction::Exit(e));
                },
            },
            Message::Bar(bm) => {
                let mut state = State::Loading;
                std::mem::swap(&mut state, &mut self.state);
                match state {
                    State::Ready(Screen::Bar(mut bar)) => {
                        let bar_action = bar.update(bm);
                        let AlegriaAction { instructions, tasks } = bar_action;
                        if instructions.len() > 0 {
                            self.state = State::Ready(Screen::Welcome);
                        } else {
                            self.state = State::Ready(Screen::Bar(bar));
                        }
                        action.tasks = tasks;
                    },
                    other => {
                        self.state = other;
                    },
                }
            },
            Message::OpenBar => {
                match &self.state {
                    State::Ready(_) => {
                        let mut bar = Bar::new(true);
                        let bar_action = bar.update(BarMessage::InitPage);
                        let AlegriaAction { instructions: _, tasks } = bar_action;
                        self.state = State::Ready(Screen::Bar(bar));
                        action.tasks = tasks;
                    },
                    State::Loading => {},
                }
            },
            Message::AddToast(t) => {
                let ghost before = self.toasts.deep_view();
                self.toasts.push(t);
                assert(self.toasts.deep_view() =~= before.push(t@));
            },
            Message::CloseToast(i) => {
                let ghost before = self.toasts.deep_view();
                let ghost tseq = self.toasts@;
                let _ = self.toasts.remove(i);
                assert forall|j: int| 0 <= j < self.toasts@.len() implies #[trigger] self.toasts.deep_view()[j]
                    == before.remove(i as int)[j] by {
                    if j < i {
                        assert(self.toasts@[j] == tseq[j]);
                    } else {
                        assert(self.toasts@[j] == tseq[j + 1]);
                    }
                }
                assert(self.toasts.deep_view() =~= before.remove(i as int));
            },
        }
        action
    }
}

/// Going back from the bar's home screen returns the application to the
/// welcome screen; a failed database stops the program with its error.
pub proof fn app_bar_back_returns_to_welcome(s: IcedAlegriaView, b: BarView, e: String, now: Instant)
    requires
        s.state == StateView::Ready(ScreenView::Bar(b)),
        b.bar_screen == crate::bar::BarScreen::Home,
    ensures
        app_step(s, Message::Bar(BarMessage::Back), now).0.state == StateView::Ready(ScreenView::Welcome),
        app_step(s, Message::DatabaseLoaded(Err(e)), now).1.instructions == seq![AppInstructionView::Exit(e@)],
{
}

} // verus!
