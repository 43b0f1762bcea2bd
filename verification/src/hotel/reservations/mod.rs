//! The reservations page of the hotel: a calendar of the rooms over a period
//! of days (two weeks from today when it opens), which can be moved a day at a
//! time or set by typing or picking its first and last day; a click on a free
//! cell opens the form that adds a reservation.

pub mod booking;
pub mod add;
mod update;

use vstd::prelude::*;
use crate::action::{ActionView, Subtask, instructions_only, no_action, tasks_only};
use crate::dates::{
    CalendarDate, date_format_ok, days_after, days_before, is_valid_ymd, iso_date, next_day,
    parsed_date, plain_date,
};
use crate::models::{
    Reservation, ReservationView, Room, RoomView, Toast, empty_reservation, error_toast_view,
};
use self::add::{
    AddReservationPage, AddReservationPageView, AddReservationTask, AddReservationTaskView,
    AddReservationsInstructionView, Message as AddMessage, add_reservation_message_allowed,
    add_reservation_step, empty_add_page, new_sold_room, opened_add_page,
};
use self::booking::booked_scan;

verus! {

/// The view the page shows.
#[derive(Clone, Copy, Debug, PartialEq, Eq, Structural)]
pub enum ReservationsScreen {
    Home,
    Add,
}

/// The period of days the calendar shows, as dates and as the texts of its
/// two fields, and whether their date pickers are open.
#[derive(Debug)]
pub struct DateFiltersState {
    pub initial_date: CalendarDate,
    pub show_initial_date_picker: bool,
    pub initial_date_string: String,
    pub last_date: CalendarDate,
    pub show_last_date_picker: bool,
    pub last_date_string: String,
}

pub struct DateFiltersView {
    pub initial_date: CalendarDate,
    pub show_initial_date_picker: bool,
    pub initial_date_string: Seq<char>,
    pub last_date: CalendarDate,
    pub show_last_date_picker: bool,
    pub last_date_string: Seq<char>,
}

impl View for DateFiltersState {
    type V = DateFiltersView;

    open spec fn view(&self) -> DateFiltersView {
        DateFiltersView {
            initial_date: self.initial_date,
            show_initial_date_picker: self.show_initial_date_picker,
            initial_date_string: self.initial_date_string@,
            last_date: self.last_date,
            show_last_date_picker: self.show_last_date_picker,
            last_date_string: self.last_date_string@,
        }
    }
}

/// The date fields of the page.
#[derive(Clone, Copy, Debug, PartialEq, Eq, Structural)]
pub enum ReservationDateInputFields {
    FilterInitialDate,
    FilterLastDate,
}

/// The text fields of the page.
#[derive(Clone, Copy, Debug, PartialEq, Eq, Structural)]
pub enum ReservationTextInputFields {
    FilterInitialDate,
    FilterLastDate,
}

/// The two arrows that move the calendar a day back or forward.
#[derive(Clone, Copy, Debug, PartialEq, Eq, Structural)]
pub enum ReservationDirectionAction {
    Back,
    Forward,
}

/// The state of the reservations page.
#[derive(Debug)]
pub struct Reservations {
    /// Whether the application has a database to work with
    pub has_database: bool,
    /// Page Toasts
    pub toasts: Vec<Toast>,
    /// Determines which is the current view of the subscreen
    pub current_screen: ReservationsScreen,
    /// Holds the state of all the reservations (of the given time/period)
    pub reservations: Vec<Reservation>,
    /// Holds the state of all the rooms (the rows of the calendar)
    pub rooms: Vec<Room>,
    /// Holds the state of the date filters that control which reservations are being shown
    pub date_filters: DateFiltersState,
    /// Add SubScreen of the reservation page
    pub add_reservations: AddReservationPage,
}

pub struct ReservationsView {
    pub has_database: bool,
    pub toasts: Seq<(Seq<char>, Seq<char>)>,
    pub current_screen: ReservationsScreen,
    pub reservations: Seq<ReservationView>,
    pub rooms: Seq<RoomView>,
    pub date_filters: DateFiltersView,
    pub add_reservations: AddReservationPageView,
}

impl View for Reservations {
    type V = ReservationsView;

    open spec fn view(&self) -> ReservationsView {
        ReservationsView {
            has_database: self.has_database,
            toasts: self.toasts.deep_view(),
            current_screen: self.current_screen,
            reservations: self.reservations.deep_view(),
            rooms: self.rooms.deep_view(),
            date_filters: self.date_filters@,
            add_reservations: self.add_reservations@,
        }
    }
}

/// The messages of the reservations page.
#[derive(Debug)]
pub enum Message {
    /// Asks the parent to go back (or the add form to close)
    Back,
    /// Adds the given toast to the state to be shown on screen
    AddToast(Toast),
    /// Callback after clicking the close toast button
    CloseToast(usize),
    /// Asks for the data of the page when it opens
    InitPage,
    /// A free cell was clicked: opens the add form for that day and room
    OpenAddReservationForm(CalendarDate, Room),
    /// Fetches the reservations of the period that the date texts name
    FetchReservations,
    /// Sets the reservations
    SetReservations(Vec<Reservation>),
    /// Sets the rooms
    SetRooms(Vec<Room>),
    /// New text in a date field
    TextInputUpdate(String, ReservationTextInputFields),
    /// Opens the given date picker
    ShowDatePicker(ReservationDateInputFields),
    /// Closes the date pickers
    CancelDateOperation,
    /// The day a date picker returned (not necessarily a day that exists)
    UpdateDateField(CalendarDate, ReservationDateInputFields),
    /// Moves the period a day back or forward
    DirectionActionInput(ReservationDirectionAction),
    /// Messages of the add reservations page
    AddReservationPage(AddMessage),
}

/// What the page asks of its parent.
#[derive(Clone, Copy, Debug, PartialEq, Eq, Structural)]
pub enum ReservationsInstruction {
    Back,
}

impl DeepView for ReservationsInstruction {
    type V = ReservationsInstruction;

    open spec fn deep_view(&self) -> ReservationsInstruction {
        *self
    }
}

/// The outside work the reservations page asks for.
#[derive(Debug)]
pub enum ReservationsTask {
    /// Load the reservations between two days, answered by `SetReservations`
    LoadReservations(CalendarDate, CalendarDate),
    /// Load all the rooms, answered by `SetRooms`
    LoadRooms,
    /// Store a new reservation, answered by `Back` (or `AddToast` with the
    /// error)
    AddReservation(Reservation),
    /// The work of the add form
    AddPage(AddReservationTask),
}

pub enum ReservationsTaskView {
    LoadReservations(CalendarDate, CalendarDate),
    LoadRooms,
    AddReservation(ReservationView),
    AddPage(AddReservationTaskView),
}

impl DeepView for ReservationsTask {
    type V = ReservationsTaskView;

    open spec fn deep_view(&self) -> ReservationsTaskView {
        match self {
            ReservationsTask::LoadReservations(a, b) => ReservationsTaskView::LoadReservations(*a, *b),
            ReservationsTask::LoadRooms => ReservationsTaskView::LoadRooms,
            ReservationsTask::AddReservation(r) => ReservationsTaskView::AddReservation(r@),
            ReservationsTask::AddPage(t) => ReservationsTaskView::AddPage(t.deep_view()),
        }
    }
}

impl Subtask<ReservationsTask> for AddReservationTask {
    open spec fn lifted(v: AddReservationTaskView) -> ReservationsTaskView {
        ReservationsTaskView::AddPage(v)
    }

    fn lift(self) -> (p: ReservationsTask) {
        ReservationsTask::AddPage(self)
    }
}

pub type ReservationsAction = crate::action::AlegriaAction<ReservationsInstruction, ReservationsTask>;

pub type ReservationsActionView = ActionView<ReservationsInstruction, ReservationsTaskView>;

// ---------------------------------------------------------------------------
// What each message does, over the views
// ---------------------------------------------------------------------------

/// Both days of the period are days that `chrono` represents.
pub open spec fn filters_wf(f: DateFiltersView) -> bool {
    f.initial_date.valid() && f.last_date.valid()
}

/// The period that starts on `today`: two weeks long (a single day when the
/// calendar ends before that), its texts as `chrono` writes dates.
pub open spec fn filters_from(today: CalendarDate) -> DateFiltersView {
    let last = match days_after(today, 14) {
        Some(l) => l,
        None => today,
    };
    DateFiltersView {
        initial_date: today,
        show_initial_date_picker: false,
        initial_date_string: iso_date(today),
        last_date: last,
        show_last_date_picker: false,
        last_date_string: iso_date(last),
    }
}

/// A task only when there is a database.
pub open spec fn reservations_db_task(s: ReservationsView, t: ReservationsTaskView) -> ReservationsActionView {
    if s.has_database {
        tasks_only(seq![t])
    } else {
        no_action()
    }
}

/// The page with a toast added.
pub open spec fn with_toast(s: ReservationsView, t: (Seq<char>, Seq<char>)) -> ReservationsView {
    ReservationsView { toasts: s.toasts.push(t), ..s }
}

/// The page with the date pickers closed.
pub open spec fn pickers_closed(s: ReservationsView) -> ReservationsView {
    ReservationsView {
        date_filters: DateFiltersView {
            show_initial_date_picker: false,
            show_last_date_picker: false,
            ..s.date_filters
        },
        ..s
    }
}

/// `FetchReservations`: when both texts have the date format, name days that
/// exist and the first comes before the last, they become the period and its
/// reservations are loaded; texts without the format add an error toast.
pub open spec fn fetch_step(s: ReservationsView) -> (ReservationsView, ReservationsActionView) {
    let f = s.date_filters;
    if date_format_ok(f.initial_date_string) && date_format_ok(f.last_date_string) {
        match (parsed_date(f.initial_date_string), parsed_date(f.last_date_string)) {
            (Some(i), Some(l)) => if i.before(l) {
                let s2 = ReservationsView {
                    date_filters: DateFiltersView { initial_date: i, last_date: l, ..f },
                    ..s
                };
                (s2, reservations_db_task(s2, ReservationsTaskView::LoadReservations(i, l)))
            } else {
                (s, no_action())
            },
            _ => (s, no_action()),
        }
    } else {
        (with_toast(s, error_toast_view("Can't parse dates"@)), no_action())
    }
}

/// `Back`: from the calendar, the parent goes back; from the add form, the
/// form is dropped and the reservations are fetched again.
pub open spec fn back_step(s: ReservationsView) -> (ReservationsView, ReservationsActionView) {
    match s.current_screen {
        ReservationsScreen::Home => (s, instructions_only(seq![ReservationsInstruction::Back])),
        ReservationsScreen::Add => fetch_step(
            ReservationsView {
                add_reservations: empty_add_page(),
                current_screen: ReservationsScreen::Home,
                ..s
            },
        ),
    }
}

/// The reservation that a click on a free cell starts: one night from the
/// clicked day, with the clicked room unless a reservation books it then.
pub open spec fn clicked_reservation(s: ReservationsView, day: CalendarDate, room: RoomView) -> ReservationView {
    let entry = Some(day);
    let departure = next_day(day);
    ReservationView {
        entry_date: entry,
        departure_date: departure,
        rooms: if booked_scan(s.reservations, room.id, entry, departure) == Some(true) {
            Seq::empty()
        } else {
            seq![new_sold_room(room.id, room.default_room_price_bits)]
        },
        ..empty_reservation()
    }
}

/// `UpdateDateField`: a day that exists and keeps the first day before the
/// last becomes that end of the period (and its text), and the reservations
/// are fetched; a day that does not keep the order only closes the pickers;
/// a day that does not exist adds an error toast before the fetch.
pub open spec fn date_update_step(
    s: ReservationsView,
    d: CalendarDate,
    field: ReservationDateInputFields,
) -> (ReservationsView, ReservationsActionView) {
    let f = s.date_filters;
    if is_valid_ymd(d.year as int, d.month as int, d.day as int) {
        match field {
            ReservationDateInputFields::FilterInitialDate => if d.before(f.last_date) {
                fetch_step(
                    ReservationsView {
                        date_filters: DateFiltersView {
                            initial_date: d,
                            initial_date_string: plain_date(d),
                            ..f
                        },
                        ..s
                    },
                )
            } else {
                (pickers_closed(s), no_action())
            },
            ReservationDateInputFields::FilterLastDate => if f.initial_date.before(d) {
                fetch_step(
                    ReservationsView {
                        date_filters: DateFiltersView {
                            last_date: d,
                            last_date_string: plain_date(d),
                            ..f
                        },
                        ..s
                    },
                )
            } else {
                (pickers_closed(s), no_action())
            },
        }
    } else {
        fetch_step(with_toast(s, error_toast_view("Could not parse new date"@)))
    }
}

/// The page with both ends of the period moved to the given days.
pub open spec fn with_period(s: ReservationsView, i: CalendarDate, l: CalendarDate) -> ReservationsView {
    ReservationsView {
        date_filters: DateFiltersView {
            initial_date: i,
            initial_date_string: plain_date(i),
            last_date: l,
            last_date_string: plain_date(l),
            ..s.date_filters
        },
        ..s
    }
}

/// `DirectionActionInput`: both ends of the period move a day, and the
/// reservations are fetched; nothing happens at the ends of the calendar.
pub open spec fn direction_step(s: ReservationsView, a: ReservationDirectionAction) -> (
    ReservationsView,
    ReservationsActionView,
) {
    let f = s.date_filters;
    let (i, l) = match a {
        ReservationDirectionAction::Back => (
            days_before(f.initial_date, 1),
            days_before(f.last_date, 1),
        ),
        ReservationDirectionAction::Forward => (
            days_after(f.initial_date, 1),
            days_after(f.last_date, 1),
        ),
    };
    match (i, l) {
        (Some(ni), Some(nl)) => fetch_step(with_period(s, ni, nl)),
        _ => (s, no_action()),
    }
}

/// The add form's tasks, as tasks of the page.
pub open spec fn wrap_add_tasks(ts: Seq<AddReservationTaskView>) -> Seq<ReservationsTaskView> {
    ts.map_values(|t: AddReservationTaskView| ReservationsTaskView::AddPage(t))
}

/// The add form's instructions, one after the other: going back leaves the
/// form (and only that outcome stays); a reservation to add is handed to the
/// database; a toast is shown.
pub open spec fn apply_add_instructions(
    s: ReservationsView,
    acc: ReservationsActionView,
    instrs: Seq<AddReservationsInstructionView>,
) -> (ReservationsView, ReservationsActionView)
    decreases instrs.len(),
{
    if instrs.len() == 0 {
        (s, acc)
    } else {
        match instrs[0] {
            AddReservationsInstructionView::Back => back_step(s),
            AddReservationsInstructionView::TryAddReservation(r) => apply_add_instructions(
                s,
                if s.has_database {
                    ActionView {
                        tasks: acc.tasks.push(ReservationsTaskView::AddReservation(r)),
                        ..acc
                    }
                } else {
                    acc
                },
                instrs.drop_first(),
            ),
            AddReservationsInstructionView::ShowToast(t) => apply_add_instructions(
                with_toast(s, t),
                acc,
                instrs.drop_first(),
            ),
        }
    }
}

/// `AddReservationPage`: the add form handles the message; its tasks become
/// the page's and its instructions are applied.
pub open spec fn add_page_step(s: ReservationsView, m: AddMessage) -> (
    ReservationsView,
    ReservationsActionView,
) {
    let (a2, aa) = add_reservation_step(s.add_reservations, m);
    apply_add_instructions(
        ReservationsView { add_reservations: a2, ..s },
        tasks_only(wrap_add_tasks(aa.tasks)),
        aa.instructions,
    )
}

/// What a message does to the reservations page, and the work it asks for.
pub open spec fn reservations_step(s: ReservationsView, m: Message) -> (
    ReservationsView,
    ReservationsActionView,
) {
    let f = s.date_filters;
    match m {
        Message::Back => back_step(s),
        Message::AddToast(t) => (with_toast(s, t@), no_action()),
        Message::CloseToast(i) => (
            ReservationsView { toasts: s.toasts.remove(i as int), ..s },
            no_action(),
        ),
        Message::InitPage => if s.has_database {
            (
                ReservationsView { current_screen: ReservationsScreen::Home, ..s },
                tasks_only(
                    seq![
                        ReservationsTaskView::LoadReservations(f.initial_date, f.last_date),
                        ReservationsTaskView::LoadRooms,
                    ],
                ),
            )
        } else {
            (s, no_action())
        },
        Message::OpenAddReservationForm(day, room) => (
            ReservationsView {
                add_reservations: opened_add_page(
                    s.has_database,
                    clicked_reservation(s, day, room@),
                    s.rooms,
                    s.reservations,
                ),
                current_screen: ReservationsScreen::Add,
                ..s
            },
            no_action(),
        ),
        Message::FetchReservations => fetch_step(s),
        Message::SetReservations(v) => (
            ReservationsView { reservations: v.deep_view(), ..s },
            no_action(),
        ),
        Message::SetRooms(v) => (ReservationsView { rooms: v.deep_view(), ..s }, no_action()),
        Message::TextInputUpdate(v, field) => (
            ReservationsView {
                date_filters: match field {
                    ReservationTextInputFields::FilterInitialDate => DateFiltersView {
                        initial_date_string: v@,
                        ..f
                    },
                    ReservationTextInputFields::FilterLastDate => DateFiltersView {
                        last_date_string: v@,
                        ..f
                    },
                },
                ..s
            },
            no_action(),
        ),
        Message::ShowDatePicker(field) => (
            ReservationsView {
                date_filters: match field {
                    ReservationDateInputFields::FilterInitialDate => DateFiltersView {
                        show_initial_date_picker: true,
                        ..f
                    },
                    ReservationDateInputFields::FilterLastDate => DateFiltersView {
                        show_last_date_picker: true,
                        ..f
                    },
                },
                ..s
            },
            no_action(),
        ),
        Message::CancelDateOperation => (pickers_closed(s), no_action()),
        Message::UpdateDateField(d, field) => date_update_step(s, d, field),
        Message::DirectionActionInput(a) => direction_step(s, a),
        Message::AddReservationPage(am) => add_page_step(s, am),
    }
}

/// The inputs on which a message would panic are left out: closing a toast
/// that is not there; a click on the last day `chrono` represents (the stay
/// would end after it) or on a room whose reservations lack a date that the
/// overlap check reads; and those of the add form.
pub open spec fn reservations_message_allowed(s: ReservationsView, m: Message) -> bool {
    match m {
        Message::CloseToast(i) => i < s.toasts.len(),
        Message::OpenAddReservationForm(day, room) => {
            &&& day.valid()
            &&& next_day(day) is Some
            &&& booked_scan(s.reservations, room.id, Some(day), next_day(day)) is Some
        },
        Message::AddReservationPage(am) => add_reservation_message_allowed(s.add_reservations, am),
        _ => true,
    }
}

/// The page as it opens, on the period that starts on `today`.
pub open spec fn initial_reservations(has_database: bool, today: CalendarDate) -> ReservationsView {
    ReservationsView {
        has_database,
        toasts: Seq::empty(),
        current_screen: ReservationsScreen::Home,
        reservations: Seq::empty(),
        rooms: Seq::empty(),
        date_filters: filters_from(today),
        add_reservations: empty_add_page(),
    }
}

} // verus!
