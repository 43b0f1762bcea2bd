//! The hotel: a home page that leads to the reservations, room types, rooms
//! and clients pages. Each page hands its work up as the hotel's work, and a
//! page that asks to go back returns to the home page, where every page
//! starts afresh.

pub mod clients;
pub mod rooms;
pub mod room_types;
pub mod reservations;
pub mod laws;

use vstd::prelude::*;
use crate::action::{ActionView, AlegriaAction, Subtask, instructions_only, lift_all, no_action, tasks_only};
use crate::dates::{CalendarDate, today};
use self::clients::{
    Clients, ClientsInstruction, ClientsInstructionView, ClientsPageMode, ClientsTask,
    ClientsTaskView, ClientsView, clients_message_allowed, clients_step, initial_clients,
};
use self::reservations::{
    Reservations, ReservationsTask, ReservationsTaskView, ReservationsView, filters_wf,
    initial_reservations, reservations_message_allowed, reservations_step,
};
use self::room_types::{
    RoomTypes, RoomTypesTask, RoomTypesTaskView, RoomTypesView, initial_room_types,
    room_types_step,
};
use self::rooms::{Rooms, RoomsTask, RoomsTaskView, RoomsView, initial_rooms, rooms_message_allowed, rooms_step};

verus! {

/// The pages of the hotel.
#[derive(Clone, Copy, Debug, PartialEq, Eq, Structural)]
pub enum SubScreen {
    Home,
    Reservations,
    RoomTypes,
    Rooms,
    Clients,
}

/// The state of the hotel screen.
#[derive(Debug)]
pub struct Hotel {
    /// Whether the application has a database to work with
    pub has_database: bool,
    /// The page the hotel shows
    pub sub_screen: SubScreen,
    /// Reservations Subscreen of the HotelPage
    pub reservations: Reservations,
    /// RoomTypes Subscreen of the HotelPage
    pub room_types: RoomTypes,
    /// Rooms Subscreen of the HotelPage
    pub rooms: Rooms,
    /// Clients Subscreen of the HotelPage
    pub clients: Clients,
}

pub struct HotelView {
    pub has_database: bool,
    pub sub_screen: SubScreen,
    pub reservations: ReservationsView,
    pub room_types: RoomTypesView,
    pub rooms: RoomsView,
    pub clients: ClientsView,
}

impl View for Hotel {
    type V = HotelView;

    open spec fn view(&self) -> HotelView {
        HotelView {
            has_database: self.has_database,
            sub_screen: self.sub_screen,
            reservations: self.reservations@,
            room_types: self.room_types@,
            rooms: self.rooms@,
            clients: self.clients@,
        }
    }
}

/// The messages of the hotel screen.
#[derive(Debug)]
pub enum Message {
    /// Asks the parent to go back
    Back,
    /// Opens a page
    ChangeSubScreen(SubScreen),
    /// Messages of the reservations page
    Reservations(reservations::Message),
    /// Messages of the room types page
    RoomTypes(room_types::Message),
    /// Messages of the rooms page
    Rooms(rooms::Message),
    /// Messages of the clients page
    Clients(clients::Message),
}

/// What the hotel asks of its parent.
#[derive(Clone, Copy, Debug, PartialEq, Eq, Structural)]
pub enum HotelInstruction {
    Back,
}

impl DeepView for HotelInstruction {
    type V = HotelInstruction;

    open spec fn deep_view(&self) -> HotelInstruction {
        *self
    }
}

/// The work of the hotel's pages.
#[derive(Debug)]
pub enum HotelTask {
    Reservations(ReservationsTask),
    RoomTypes(RoomTypesTask),
    Rooms(RoomsTask),
    Clients(ClientsTask),
}

pub enum HotelTaskView {
    Reservations(ReservationsTaskView),
    RoomTypes(RoomTypesTaskView),
    Rooms(RoomsTaskView),
    Clients(ClientsTaskView),
}

impl DeepView for HotelTask {
    type V = HotelTaskView;

    open spec fn deep_view(&self) -> HotelTaskView {
        match self {
            HotelTask::Reservations(t) => HotelTaskView::Reservations(t.deep_view()),
            HotelTask::RoomTypes(t) => HotelTaskView::RoomTypes(t.deep_view()),
            HotelTask::Rooms(t) => HotelTaskView::Rooms(t.deep_view()),
            HotelTask::Clients(t) => HotelTaskView::Clients(t.deep_view()),
        }
    }
}

impl Subtask<HotelTask> for ReservationsTask {
    open spec fn lifted(v: ReservationsTaskView) -> HotelTaskView {
        HotelTaskView::Reservations(v)
    }

    fn lift(self) -> (p: HotelTask) {
        HotelTask::Reservations(self)
    }
}

impl Subtask<HotelTask> for RoomTypesTask {
    open spec fn lifted(v: RoomTypesTaskView) -> HotelTaskView {
        HotelTaskView::RoomTypes(v)
    }

    fn lift(self) -> (p: HotelTask) {
        HotelTask::RoomTypes(self)
    }
}

impl Subtask<HotelTask> for RoomsTask {
    open spec fn lifted(v: RoomsTaskView) -> HotelTaskView {
        HotelTaskView::Rooms(v)
    }

    fn lift(self) -> (p: HotelTask) {
        HotelTask::Rooms(self)
    }
}

impl Subtask<HotelTask> for ClientsTask {
    open spec fn lifted(v: ClientsTaskView) -> HotelTaskView {
        HotelTaskView::Clients(v)
    }

    fn lift(self) -> (p: HotelTask) {
        HotelTask::Clients(self)
    }
}

pub type HotelAction = AlegriaAction<HotelInstruction, HotelTask>;

pub type HotelActionView = ActionView<HotelInstruction, HotelTaskView>;

// ---------------------------------------------------------------------------
// What each message does, over the views
// ---------------------------------------------------------------------------

/// The reservations page's period is made of represented days.
pub open spec fn hotel_wf(s: HotelView) -> bool {
    filters_wf(s.reservations.date_filters)
}

/// The home page, every page started afresh (the reservations page on the
/// period that starts on `today`).
pub open spec fn home_state(s: HotelView, today: CalendarDate) -> HotelView {
    HotelView {
        sub_screen: SubScreen::Home,
        reservations: initial_reservations(s.has_database, today),
        room_types: initial_room_types(s.has_database),
        rooms: initial_rooms(s.has_database),
        clients: initial_clients(s.has_database, ClientsPageMode::Normal),
        ..s
    }
}

/// The hotel as it opens: the home page, every page started afresh.
pub open spec fn initial_hotel(has_database: bool, today: CalendarDate) -> HotelView {
    HotelView {
        has_database,
        sub_screen: SubScreen::Home,
        reservations: initial_reservations(has_database, today),
        room_types: initial_room_types(has_database),
        rooms: initial_rooms(has_database),
        clients: initial_clients(has_database, ClientsPageMode::Normal),
    }
}

/// A page that asked to go back leads to the home page.
pub open spec fn home_if(s: HotelView, back: bool, today: CalendarDate) -> HotelView {
    if back {
        home_state(s, today)
    } else {
        s
    }
}

/// `Reservations`: the page handles the message; its tasks become the
/// hotel's.
pub open spec fn reservations_branch(s: HotelView, m: reservations::Message, today: CalendarDate) -> (
    HotelView,
    HotelActionView,
) {
    let (r2, ra) = reservations_step(s.reservations, m);
    (
        home_if(HotelView { reservations: r2, ..s }, ra.instructions.len() > 0, today),
        tasks_only(ra.tasks.map_values(|t: ReservationsTaskView| HotelTaskView::Reservations(t))),
    )
}

/// `RoomTypes`: the page handles the message; its tasks become the hotel's.
pub open spec fn room_types_branch(s: HotelView, m: room_types::Message, today: CalendarDate) -> (
    HotelView,
    HotelActionView,
) {
    let (r2, ra) = room_types_step(s.room_types, m);
    (
        home_if(HotelView { room_types: r2, ..s }, ra.instructions.len() > 0, today),
        tasks_only(ra.tasks.map_values(|t: RoomTypesTaskView| HotelTaskView::RoomTypes(t))),
    )
}

/// `Rooms`: the page handles the message; its tasks become the hotel's.
pub open spec fn rooms_branch(s: HotelView, m: rooms::Message, today: CalendarDate) -> (
    HotelView,
    HotelActionView,
) {
    let (r2, ra) = rooms_step(s.rooms, m);
    (
        home_if(HotelView { rooms: r2, ..s }, ra.instructions.len() > 0, today),
        tasks_only(ra.tasks.map_values(|t: RoomsTaskView| HotelTaskView::Rooms(t))),
    )
}

/// The clients page asked to go back (a selected client means nothing to the
/// hotel).
pub open spec fn clients_went_back(instrs: Seq<ClientsInstructionView>) -> bool {
    exists|k: int| 0 <= k < instrs.len() && #[trigger] instrs[k] is Back
}

/// `Clients`: the page handles the message; its tasks become the hotel's.
pub open spec fn clients_branch(s: HotelView, m: clients::Message, today: CalendarDate) -> (
    HotelView,
    HotelActionView,
) {
    let (c2, ca) = clients_step(s.clients, m);
    (
        home_if(HotelView { clients: c2, ..s }, clients_went_back(ca.instructions), today),
        tasks_only(ca.tasks.map_values(|t: ClientsTaskView| HotelTaskView::Clients(t))),
    )
}

/// What a message does to the hotel, and the work it asks for; `today` is
/// the day the reservations page starts on when the pages start afresh.
pub open spec fn hotel_step(s: HotelView, m: Message, today: CalendarDate) -> (HotelView, HotelActionView) {
    match m {
        Message::Back => (s, instructions_only(seq![HotelInstruction::Back])),
        Message::ChangeSubScreen(sub) => {
            let s1 = HotelView { sub_screen: sub, ..s };
            match sub {
                SubScreen::Home => (home_state(s, today), no_action()),
                SubScreen::Reservations => {
                    let (s2, a2) = reservations_branch(s1, reservations::Message::InitPage, today);
                    (s2, tasks_only(a2.tasks))
                },
                SubScreen::RoomTypes => {
                    let (s2, a2) = room_types_branch(s1, room_types::Message::FetchRoomTypes, today);
                    (s2, tasks_only(a2.tasks))
                },
                SubScreen::Rooms => {
                    let (s2, a2) = rooms_branch(s1, rooms::Message::FetchRooms, today);
                    let (s3, a3) = rooms_branch(s2, rooms::Message::FetchRoomTypes, today);
                    (s3, tasks_only(a2.tasks + a3.tasks))
                },
                SubScreen::Clients => {
                    let (s2, a2) = clients_branch(s1, clients::Message::InitPage, today);
                    (s2, tasks_only(a2.tasks))
                },
            }
        },
        Message::Reservations(rm) => reservations_branch(s, rm, today),
        Message::RoomTypes(rm) => room_types_branch(s, rm, today),
        Message::Rooms(rm) => rooms_branch(s, rm, today),
        Message::Clients(cm) => clients_branch(s, cm, today),
    }
}

/// The inputs on which a message would panic are left out: those of the
/// pages.
pub open spec fn hotel_message_allowed(s: HotelView, m: Message) -> bool {
    match m {
        Message::Reservations(rm) => reservations_message_allowed(s.reservations, rm),
        Message::Rooms(rm) => rooms_message_allowed(s.rooms, rm),
        Message::Clients(cm) => clients_message_allowed(s.clients, cm),
        _ => true,
    }
}

/// `set_database`: the hotel and its pages get (or lose) the database; the
/// add reservation form keeps what it had.
pub open spec fn with_database(s: HotelView, has_database: bool) -> HotelView {
    HotelView {
        has_database,
        room_types: RoomTypesView { has_database, ..s.room_types },
        rooms: RoomsView { has_database, ..s.rooms },
        reservations: ReservationsView { has_database, ..s.reservations },
        clients: ClientsView { has_database, ..s.clients },
        ..s
    }
}

// ---------------------------------------------------------------------------
// The state machine
// ---------------------------------------------------------------------------

impl Hotel {
    /// The hotel as it opens, the reservations page on the period that starts
    /// on `day`.
    pub fn starting_on(has_database: bool, day: CalendarDate) -> (h: Hotel)
        requires
            day.valid(),
        ensures
            h@ == initial_hotel(has_database, day),
            hotel_wf(h@),
    {
        Hotel {
            has_database,
            sub_screen: SubScreen::Home,
            reservations: Reservations::starting_on(has_database, day),
            room_types: RoomTypes::clean_state(has_database),
            rooms: Rooms::clean_state(has_database),
            clients: Clients::clean_state(has_database),
        }
    }

    /// The hotel as it opens today with no database.
    pub fn init() -> (h: Hotel)
        ensures
            h@.reservations.date_filters.initial_date.valid(),
            h@ == initial_hotel(false, h@.reservations.date_filters.initial_date),
            hotel_wf(h@),
    {
        Hotel::starting_on(false, today())
    }

    /// The hotel as it opens today, keeping the database.
    pub fn clean_state(has_database: bool) -> (h: Hotel)
        ensures
            h@.reservations.date_filters.initial_date.valid(),
            h@ == initial_hotel(has_database, h@.reservations.date_filters.initial_date),
            hotel_wf(h@),
    {
        Hotel::starting_on(has_database, today())
    }

    /// Gives (or takes) the database to the hotel and its pages.
    pub fn set_database(&mut self, has_database: bool)
        ensures
            final(self)@ == with_database(old(self)@, has_database),
    {
        self.has_database = has_database;
        self.room_types.has_database = has_database;
        self.rooms.has_database = has_database;
        self.reservations.has_database = has_database;
        self.clients.has_database = has_database;
    }

    /// Back to the home page, every page started afresh.
    fn go_home(&mut self, day: CalendarDate)
        requires
            day.valid(),
        ensures
            final(self)@ == home_state(old(self)@, day),
            hotel_wf(final(self)@),
    {
        self.sub_screen = SubScreen::Home;
        self.reservations = Reservations::starting_on(self.has_database, day);
        self.room_types = RoomTypes::clean_state(self.has_database);
        self.rooms = Rooms::clean_state(self.has_database);
        self.clients = Clients::clean_state(self.has_database);
    }

    /// `Reservations`.
    fn reservations_message(&mut self, m: reservations::Message, day: CalendarDate) -> (action: HotelAction)
        requires
            day.valid(),
            hotel_wf(old(self)@),
            reservations_message_allowed(old(self)@.reservations, m),
        ensures
            (final(self)@, action@) == reservations_branch(old(self)@, m, day),
            hotel_wf(final(self)@),
    {
        let page_action = self.reservations.update(m);
        let AlegriaAction { instructions, tasks } = page_action;
        if instructions.len() > 0 {
            self.go_home(day);
        }
        let ghost child_tasks = tasks.deep_view();
        let mut action = AlegriaAction::new();
        action.tasks = lift_all(tasks);
        assert(action.tasks.deep_view() =~= child_tasks.map_values(
            |t: ReservationsTaskView| HotelTaskView::Reservations(t),
        ));
        action
    }

    /// `RoomTypes`.
    fn room_types_message(&mut self, m: room_types::Message, day: CalendarDate) -> (action: HotelAction)
        requires
            day.valid(),
            hotel_wf(old(self)@),
        ensures
            (final(self)@, action@) == room_types_branch(old(self)@, m, day),
            hotel_wf(final(self)@),
    {
        let page_action = self.room_types.update(m);
        let AlegriaAction { instructions, tasks } = page_action;
        if instructions.len() > 0 {
            self.go_home(day);
        }
        let ghost child_tasks = tasks.deep_view();
        let mut action = AlegriaAction::new();
        action.tasks = lift_all(tasks);
        assert(action.tasks.deep_view() =~= child_tasks.map_values(
            |t: RoomTypesTaskView| HotelTaskView::RoomTypes(t),
        ));
        action
    }

    /// `Rooms`.
    fn rooms_message(&mut self, m: rooms::Message, day: CalendarDate) -> (action: HotelAction)
        requires
            day.valid(),
            hotel_wf(old(self)@),
            rooms_message_allowed(old(self)@.rooms, m),
        ensures
            (final(self)@, action@) == rooms_branch(old(self)@, m, day),
            hotel_wf(final(self)@),
    {
        let page_action = self.rooms.update(m);
        let AlegriaAction { instructions, tasks } = page_action;
        if instructions.len() > 0 {
            self.go_home(day);
        }
        let ghost child_tasks = tasks.deep_view();
        let mut action = AlegriaAction::new();
        action.tasks = lift_all(tasks);
        assert(action.tasks.deep_view() =~= child_tasks.map_values(
            |t: RoomsTaskView| HotelTaskView::Rooms(t),
        ));
        action
    }

    /// `Clients`.
    fn clients_message(&mut self, m: clients::Message, day: CalendarDate) -> (action: HotelAction)
        requires
            day.valid(),
            hotel_wf(old(self)@),
            clients_message_allowed(old(self)@.clients, m),
        ensures
            (final(self)@, action@) == clients_branch(old(self)@, m, day),
            hotel_wf(final(self)@),
    {
        let page_action = self.clients.update(m);
        let AlegriaAction { instructions, tasks } = page_action;
        let ghost s1 = self@;
        let ghost all = instructions.deep_view();
        let mut went_back = false;
        let mut i: usize = 0;
        while i < instructions.len()
            invariant
                i <= all.len(),
                all == instructions.deep_view(),
                went_back == exists|k: int| 0 <= k < i && #[trigger] all[k] is Back,
            decreases all.len() - i,
        {
            assert(all[i as int] == instructions@[i as int].deep_view());
            match &instructions[i] {
                ClientsInstruction::Back => {
                    went_back = true;
                },
                ClientsInstruction::ClientSelected(_) => {},
            }
            i = i + 1;
        }
        if went_back {
            self.go_home(day);
        }
        let ghost child_tasks = tasks.deep_view();
        let mut action = AlegriaAction::new();
        action.tasks = lift_all(tasks);
        assert(action.tasks.deep_view() =~= child_tasks.map_values(
            |t: ClientsTaskView| HotelTaskView::Clients(t),
        ));
        action
    }

    /// Handles the messages of the hotel; `day` is the day the reservations
    /// page starts on when the pages start afresh.
    pub fn update_on(&mut self, message: Message, day: CalendarDate) -> (action: HotelAction)
        requires
            day.valid(),
            hotel_wf(old(self)@),
            hotel_message_allowed(old(self)@, message),
        ensures
            (final(self)@, action@) == hotel_step(old(self)@, message, day),
            hotel_wf(final(self)@),
    {
        match message {
            Message::Back => {
                let mut action = AlegriaAction::new();
                action.add_instruction(HotelInstruction::Back);
                action
            },
            Message::ChangeSubScreen(sub) => {
                match sub {
                    SubScreen::Home => {
                        self.go_home(day);
                        AlegriaAction::new()
                    },
                    SubScreen::Reservations => {
                        self.sub_screen = sub;
                        let a = self.reservations_message(reservations::Message::InitPage, day);
                        let mut action = AlegriaAction::new();
                        action.extend_tasks(a);
                        action
                    },
                    SubScreen::RoomTypes => {
                        self.sub_screen = sub;
                        let a = self.room_types_message(room_types::Message::FetchRoomTypes, day);
                        let mut action = AlegriaAction::new();
                        action.extend_tasks(a);
                        action
                    },
                    SubScreen::Rooms => {
                        self.sub_screen = sub;
                        let a = self.rooms_message(rooms::Message::FetchRooms, day);
                        let b = self.rooms_message(rooms::Message::FetchRoomTypes, day);
                        let mut action = AlegriaAction::new();
                        action.extend_tasks(a);
                        action.extend_tasks(b);
                        action
                    },
                    SubScreen::Clients => {
                        self.sub_screen = sub;
                        let a = self.clients_message(clients::Message::InitPage, day);
                        let mut action = AlegriaAction::new();
                        action.extend_tasks(a);
                        action
                    },
                }
            },
            Message::Reservations(m) => self.reservations_message(m, day),
            Message::RoomTypes(m) => self.room_types_message(m, day),
            Message::Rooms(m) => self.rooms_message(m, day),
            Message::Clients(m) => self.clients_message(m, day),
        }
    }

    /// Handles the messages of the hotel, reading today's date for the pages
    /// that start afresh: the outcome is that of `hotel_step` on some day that
    /// `chrono` represents.
    pub fn update(&mut self, message: Message) -> (action: HotelAction)
        requires
            hotel_wf(old(self)@),
            hotel_message_allowed(old(self)@, message),
        ensures
            exists|day: CalendarDate|
                day.valid() && (final(self)@, action@) == #[trigger] hotel_step(old(self)@, message, day),
            hotel_wf(final(self)@),
    {
        let day = today();
        let action = self.update_on(message, day);
        assert(day.valid() && (self@, action@) == hotel_step(old(self)@, message, day));
        action
    }
}

} // verus!
