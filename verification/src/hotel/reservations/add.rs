//! The form that adds a reservation: its dates, whether the guests are in,
//! the rooms it books and its main client, picked on the clients page in
//! selection mode.

use vstd::prelude::*;
use crate::action::{ActionView, AlegriaAction, Subtask, instructions_only, lift_all, no_action, tasks_only};
use crate::dates::{CalendarDate, date_from_ymd, is_valid_ymd};
use crate::hotel::clients::{
    Clients, ClientsInstruction, ClientsInstructionView, ClientsPageMode, ClientsTask,
    ClientsTaskView, ClientsView, Message as ClientsMessage, clients_message_allowed, clients_step,
    initial_clients,
};
use crate::models::{
    Client, ClientView, Duplicate, Reservation, ReservationView, Room, RoomView, SoldRoom,
    SoldRoomView, Toast, error_toast, error_toast_view,
};
use crate::text::push_char;

verus! {

/// Whether the page shows the form or the client selector.
#[derive(Clone, Copy, Debug, PartialEq, Eq, Structural)]
pub enum AddReservationPageMode {
    AddingReservation,
    PickingClient,
}

/// The date fields of the reservation form.
#[derive(Clone, Copy, Debug, PartialEq, Eq, Structural)]
pub enum ReservationDateInputFields {
    EntryDate,
    DepartureDate,
}

/// Which date pickers of the form are open.
#[derive(Clone, Copy, Debug, PartialEq, Eq, Structural)]
pub struct ReservationDateInputState {
    pub show_entry_date_picker: bool,
    pub show_departure_date_picker: bool,
}

/// The state of the add reservation page.
#[derive(Debug)]
pub struct AddReservationPage {
    /// Whether the application has a database to work with (needed for the
    /// client selector)
    pub has_database: bool,
    /// Holds the state of the currently adding reservation
    pub new_reservation: Option<Reservation>,
    /// Holds the state of the current page mode
    pub page_mode: AddReservationPageMode,
    /// Holds the state of the datepickers to input dates for a reservation
    pub new_reservation_datepickers_state: ReservationDateInputState,
    /// All the rooms (for the room selector)
    pub rooms: Vec<Room>,
    /// The reservations of the calendar's period (to leave out booked rooms)
    pub reservations: Vec<Reservation>,
    /// Clients SubScreen of the reservation page (client selection)
    pub clients_selector: Clients,
}

pub struct AddReservationPageView {
    pub has_database: bool,
    pub new_reservation: Option<ReservationView>,
    pub page_mode: AddReservationPageMode,
    pub pickers: ReservationDateInputState,
    pub rooms: Seq<RoomView>,
    pub reservations: Seq<ReservationView>,
    pub clients_selector: ClientsView,
}

impl View for AddReservationPage {
    type V = AddReservationPageView;

    open spec fn view(&self) -> AddReservationPageView {
        AddReservationPageView {
            has_database: self.has_database,
            new_reservation: self.new_reservation.deep_view(),
            page_mode: self.page_mode,
            pickers: self.new_reservation_datepickers_state,
            rooms: self.rooms.deep_view(),
            reservations: self.reservations.deep_view(),
            clients_selector: self.clients_selector@,
        }
    }
}

/// The messages of the add reservation page.
#[derive(Debug)]
pub enum Message {
    /// Asks the parent to go back (or the client selector to close)
    Back,
    /// Opens the given date picker
    ShowDatePicker(ReservationDateInputFields),
    /// Closes the date pickers
    CancelDateOperation,
    /// The day a date picker returned (not necessarily a day that exists)
    UpdateDateField(CalendarDate, ReservationDateInputFields),
    /// New value of the occupied checkbox
    ToggleOccupiedCheckbox(bool),
    /// Adds a room (its id and the bit pattern of its default price)
    AddReservationRoom(i32, Option<u32>),
    /// Removes a room, unless it has invoices
    RemoveReservationRoom(i32),
    /// Tries to add the reservation
    AddReservation,
    /// Opens the client selector
    OpenClientSelector,
    /// Messages of the clients (selector) page
    Clients(ClientsMessage),
}

/// What the page asks of its parent.
#[derive(Debug)]
pub enum AddReservationsInstruction {
    /// Asks the parent to go back
    Back,
    /// Asks the parent to add the reservation to the database
    TryAddReservation(Reservation),
    /// Asks the parent to show the given toast
    ShowToast(Toast),
}

pub enum AddReservationsInstructionView {
    Back,
    TryAddReservation(ReservationView),
    ShowToast((Seq<char>, Seq<char>)),
}

impl DeepView for AddReservationsInstruction {
    type V = AddReservationsInstructionView;

    open spec fn deep_view(&self) -> AddReservationsInstructionView {
        match self {
            AddReservationsInstruction::Back => AddReservationsInstructionView::Back,
            AddReservationsInstruction::TryAddReservation(r) => {
                AddReservationsInstructionView::TryAddReservation(r@)
            },
            AddReservationsInstruction::ShowToast(t) => AddReservationsInstructionView::ShowToast(t@),
        }
    }
}

/// The outside work the page asks for: that of its client selector.
#[derive(Debug)]
pub enum AddReservationTask {
    Clients(ClientsTask),
}

pub enum AddReservationTaskView {
    Clients(ClientsTaskView),
}

impl DeepView for AddReservationTask {
    type V = AddReservationTaskView;

    open spec fn deep_view(&self) -> AddReservationTaskView {
        match self {
            AddReservationTask::Clients(t) => AddReservationTaskView::Clients(t.deep_view()),
        }
    }
}

impl Subtask<AddReservationTask> for ClientsTask {
    open spec fn lifted(v: ClientsTaskView) -> AddReservationTaskView {
        AddReservationTaskView::Clients(v)
    }

    fn lift(self) -> (p: AddReservationTask) {
        AddReservationTask::Clients(self)
    }
}

pub type AddReservationAction = AlegriaAction<AddReservationsInstruction, AddReservationTask>;

pub type AddReservationActionView = ActionView<
    AddReservationsInstructionView,
    AddReservationTaskView,
>;

// ---------------------------------------------------------------------------
// What each message does, over the views
// ---------------------------------------------------------------------------

/// A reservation that can be stored: it has a client, rooms and both dates.
pub open spec fn reservation_complete(r: ReservationView) -> bool {
    &&& r.client_id is Some
    &&& r.rooms.len() > 0
    &&& r.entry_date is Some
    &&& r.departure_date is Some
}

/// The reservation books the room `room_id` already.
pub open spec fn has_sold_room(r: ReservationView, room_id: i32) -> bool {
    exists|k: int| 0 <= k < r.rooms.len() && #[trigger] r.rooms[k].room_id == Some(room_id)
}

/// A sold room for the room `room_id` at the given price, with no guests and
/// no invoices.
pub open spec fn new_sold_room(room_id: Option<i32>, price_bits: Option<u32>) -> SoldRoomView {
    SoldRoomView {
        id: None,
        room_id,
        guests: Seq::empty(),
        price_bits,
        invoices: Seq::empty(),
        room_name: Seq::empty(),
    }
}

/// A sold room that stays when the room `room_id` is removed: another room,
/// or one that has invoices.
pub open spec fn keeps_sold_room(room_id: i32) -> spec_fn(SoldRoomView) -> bool {
    |sr: SoldRoomView| sr.room_id != Some(room_id) || sr.invoices.len() > 0
}

/// How the form names a client: `name first-surname second-surname | country`.
pub open spec fn client_label(c: ClientView) -> Seq<char> {
    c.name + seq![' '] + c.first_surname + seq![' '] + c.second_surname + seq![' ', '|', ' ']
        + c.country
}

/// The client selector as it opens (`Clients::default`).
pub open spec fn default_selector() -> ClientsView {
    initial_clients(false, ClientsPageMode::Normal)
}

/// What `Back` leaves of the page: the client selector closes; the form
/// stays.
pub open spec fn back_state(s: AddReservationPageView) -> AddReservationPageView {
    match s.page_mode {
        AddReservationPageMode::AddingReservation => s,
        AddReservationPageMode::PickingClient => AddReservationPageView {
            clients_selector: default_selector(),
            page_mode: AddReservationPageMode::AddingReservation,
            ..s
        },
    }
}

/// The selector's instructions, one after the other: going back closes it,
/// and a selected client becomes the reservation's client (when there is a
/// reservation) before the selector closes.
pub open spec fn apply_client_instructions(
    s: AddReservationPageView,
    instrs: Seq<ClientsInstructionView>,
) -> AddReservationPageView
    decreases instrs.len(),
{
    if instrs.len() == 0 {
        s
    } else {
        let s1 = match instrs[0] {
            ClientsInstructionView::Back => back_state(s),
            ClientsInstructionView::ClientSelected(c) => match s.new_reservation {
                Some(r) => back_state(
                    AddReservationPageView {
                        new_reservation: Some(
                            ReservationView { client_id: c.id, client_name: client_label(c), ..r },
                        ),
                        ..s
                    },
                ),
                None => s,
            },
        };
        apply_client_instructions(s1, instrs.drop_first())
    }
}

/// The selector's tasks, as tasks of the page.
pub open spec fn wrap_client_tasks(ts: Seq<ClientsTaskView>) -> Seq<AddReservationTaskView> {
    ts.map_values(|t: ClientsTaskView| AddReservationTaskView::Clients(t))
}

/// `Clients`: the selector handles the message; its tasks become the page's,
/// and its instructions are applied.
pub open spec fn clients_branch(s: AddReservationPageView, m: ClientsMessage) -> (
    AddReservationPageView,
    AddReservationActionView,
) {
    let (cs, ca) = clients_step(s.clients_selector, m);
    (
        apply_client_instructions(AddReservationPageView { clients_selector: cs, ..s }, ca.instructions),
        tasks_only(wrap_client_tasks(ca.tasks)),
    )
}

/// `UpdateDateField` for a day that exists: the entry must come before the
/// departure, and the departure after the entry, when the other is set.
pub open spec fn with_picked_day(
    s: AddReservationPageView,
    d: CalendarDate,
    field: ReservationDateInputFields,
) -> AddReservationPageView {
    match s.new_reservation {
        None => s,
        Some(r) => match field {
            ReservationDateInputFields::EntryDate => match r.departure_date {
                Some(dep) => if d.before(dep) {
                    AddReservationPageView {
                        new_reservation: Some(ReservationView { entry_date: Some(d), ..r }),
                        ..s
                    }
                } else {
                    s
                },
                None => AddReservationPageView {
                    new_reservation: Some(ReservationView { entry_date: Some(d), ..r }),
                    ..s
                },
            },
            ReservationDateInputFields::DepartureDate => match r.entry_date {
                Some(ent) => if ent.before(d) {
                    AddReservationPageView {
                        new_reservation: Some(ReservationView { departure_date: Some(d), ..r }),
                        ..s
                    }
                } else {
                    s
                },
                None => AddReservationPageView {
                    new_reservation: Some(ReservationView { departure_date: Some(d), ..r }),
                    ..s
                },
            },
        },
    }
}

/// The page with the reservation changed by `r2`, when there is one.
pub open spec fn with_reservation(s: AddReservationPageView, r2: ReservationView) -> AddReservationPageView {
    AddReservationPageView { new_reservation: Some(r2), ..s }
}

/// What a message does to the add reservation page, and the work it asks for.
pub open spec fn add_reservation_step(s: AddReservationPageView, m: Message) -> (
    AddReservationPageView,
    AddReservationActionView,
) {
    match m {
        Message::Back => match s.page_mode {
            AddReservationPageMode::AddingReservation => (
                s,
                instructions_only(seq![AddReservationsInstructionView::Back]),
            ),
            AddReservationPageMode::PickingClient => (back_state(s), no_action()),
        },
        Message::ShowDatePicker(field) => (
            AddReservationPageView {
                pickers: match field {
                    ReservationDateInputFields::EntryDate => ReservationDateInputState {
                        show_entry_date_picker: true,
                        ..s.pickers
                    },
                    ReservationDateInputFields::DepartureDate => ReservationDateInputState {
                        show_departure_date_picker: true,
                        ..s.pickers
                    },
                },
                ..s
            },
            no_action(),
        ),
        Message::CancelDateOperation => (
            AddReservationPageView {
                pickers: ReservationDateInputState {
                    show_entry_date_picker: false,
                    show_departure_date_picker: false,
                },
                ..s
            },
            no_action(),
        ),
        Message::UpdateDateField(d, field) => if is_valid_ymd(
            d.year as int,
            d.month as int,
            d.day as int,
        ) {
            (
                AddReservationPageView {
                    pickers: ReservationDateInputState {
                        show_entry_date_picker: false,
                        show_departure_date_picker: false,
                    },
                    ..with_picked_day(s, d, field)
                },
                no_action(),
            )
        } else {
            (s, no_action())
        },
        Message::ToggleOccupiedCheckbox(v) => match s.new_reservation {
            Some(r) => (with_reservation(s, ReservationView { occupied: v, ..r }), no_action()),
            None => (s, no_action()),
        },
        Message::AddReservationRoom(room_id, price_bits) => match s.new_reservation {
            Some(r) => if has_sold_room(r, room_id) {
                (s, no_action())
            } else {
                (
                    with_reservation(
                        s,
                        ReservationView {
                            rooms: r.rooms.push(new_sold_room(Some(room_id), price_bits)),
                            ..r
                        },
                    ),
                    no_action(),
                )
            },
            None => (s, no_action()),
        },
        Message::RemoveReservationRoom(room_id) => match s.new_reservation {
            Some(r) => (
                with_reservation(
                    s,
                    ReservationView { rooms: r.rooms.filter(keeps_sold_room(room_id)), ..r },
                ),
                no_action(),
            ),
            None => (s, no_action()),
        },
        Message::AddReservation => match s.new_reservation {
            Some(r) => if reservation_complete(r) {
                (s, instructions_only(seq![AddReservationsInstructionView::TryAddReservation(r)]))
            } else {
                (
                    s,
                    instructions_only(
                        seq![AddReservationsInstructionView::ShowToast(error_toast_view("Missing required fields"@))],
                    ),
                )
            },
            None => (s, no_action()),
        },
        Message::OpenClientSelector => if s.has_database {
            let s1 = AddReservationPageView {
                clients_selector: ClientsView {
                    page_mode: ClientsPageMode::Selection,
                    has_database: true,
                    ..s.clients_selector
                },
                ..s
            };
            let (s2, a2) = clients_branch(s1, ClientsMessage::InitPage);
            (
                AddReservationPageView { page_mode: AddReservationPageMode::PickingClient, ..s2 },
                tasks_only(a2.tasks),
            )
        } else {
            (s, no_action())
        },
        Message::Clients(cm) => clients_branch(s, cm),
    }
}

/// The inputs on which a message would panic are left out: those of the
/// client selector.
pub open spec fn add_reservation_message_allowed(s: AddReservationPageView, m: Message) -> bool {
    match m {
        Message::Clients(cm) => clients_message_allowed(s.clients_selector, cm),
        _ => true,
    }
}

/// The page with nothing open (`AddReservationPage::default`).
pub open spec fn empty_add_page() -> AddReservationPageView {
    AddReservationPageView {
        has_database: false,
        new_reservation: None,
        page_mode: AddReservationPageMode::AddingReservation,
        pickers: ReservationDateInputState {
            show_entry_date_picker: false,
            show_departure_date_picker: false,
        },
        rooms: Seq::empty(),
        reservations: Seq::empty(),
        clients_selector: default_selector(),
    }
}

/// The page opened on a reservation.
pub open spec fn opened_add_page(
    has_database: bool,
    reservation: ReservationView,
    rooms: Seq<RoomView>,
    reservations: Seq<ReservationView>,
) -> AddReservationPageView {
    AddReservationPageView {
        has_database,
        new_reservation: Some(reservation),
        rooms,
        reservations,
        ..empty_add_page()
    }
}

// ---------------------------------------------------------------------------
// The state machine
// ---------------------------------------------------------------------------

/// Checks that a reservation can be stored.
pub fn is_new_reservation_valid(reservation: &Reservation) -> (valid: bool)
    ensures
        valid == reservation_complete(reservation@),
        reservation@.client_id is None ==> !valid,
        reservation@.rooms.len() == 0 ==> !valid,
        reservation@.entry_date is None ==> !valid,
        reservation@.departure_date is None ==> !valid,
{
    if reservation.client_id.is_none() {
        return false;
    }
    if reservation.rooms.len() == 0 {
        return false;
    }
    if reservation.entry_date.is_none() {
        return false;
    }
    if reservation.departure_date.is_none() {
        return false;
    }
    true
}

/// How the form names a client.
fn client_label_text(c: &Client) -> (s: String)
    ensures
        s@ == client_label(c@),
{
    let mut s = c.name.clone();
    push_char(&mut s, ' ');
    s.append(c.first_surname.as_str());
    push_char(&mut s, ' ');
    s.append(c.second_surname.as_str());
    push_char(&mut s, ' ');
    push_char(&mut s, '|');
    push_char(&mut s, ' ');
    s.append(c.country.as_str());
    assert(s@ =~= client_label(c@));
    s
}

/// A sold room for the room `room_id` at the given price.
pub(crate) fn sold_room_for(room_id: Option<i32>, price_bits: Option<u32>) -> (sr: SoldRoom)
    ensures
        sr@ == new_sold_room(room_id, price_bits),
{
    let sr = SoldRoom {
        id: None,
        room_id,
        guests: Vec::new(),
        price_bits,
        invoices: Vec::new(),
        room_name: String::new(),
    };
    assert(sr@.guests =~= Seq::empty());
    assert(sr@.invoices =~= Seq::empty());
    sr
}

/// Whether one of the sold rooms is the room `room_id`.
fn holds_sold_room(r: &Reservation, room_id: i32) -> (b: bool)
    ensures
        b == has_sold_room(r@, room_id),
{
    let mut k: usize = 0;
    while k < r.rooms.len()
        invariant
            k <= r.rooms@.len(),
            forall|j: int| 0 <= j < k ==> r@.rooms[j].room_id != Some(room_id),
        decreases r.rooms@.len() - k,
    {
        if r.rooms[k].room_id == Some(room_id) {
            assert(r@.rooms[k as int].room_id == Some(room_id));
            return true;
        }
        k = k + 1;
    }
    false
}

/// The sold rooms that stay when the room `room_id` is removed, in their order.
fn remaining_rooms(rooms: Vec<SoldRoom>, room_id: i32) -> (r: Vec<SoldRoom>)
    ensures
        r.deep_view() == rooms.deep_view().filter(keeps_sold_room(room_id)),
{
    let ghost all = rooms.deep_view();
    let ghost p = keeps_sold_room(room_id);
    let mut r: Vec<SoldRoom> = Vec::new();
    let mut i: usize = 0;
    proof {
        reveal(Seq::filter);
    }
    assert(r.deep_view() =~= all.take(0).filter(p));
    while i < rooms.len()
        invariant
            i <= all.len(),
            all == rooms.deep_view(),
            p == keeps_sold_room(room_id),
            r.deep_view() == all.take(i as int).filter(p),
        decreases all.len() - i,
    {
        proof {
            reveal(Seq::filter);
        }
        let ghost before = r.deep_view();
        assert(all.take(i + 1).drop_last() =~= all.take(i as int));
        assert(all.take(i + 1).last() == all[i as int]);
        assert(all[i as int] == rooms@[i as int]@);
        if rooms[i].room_id != Some(room_id) || rooms[i].invoices.len() > 0 {
            r.push(rooms[i].duplicate());
            assert(r.deep_view() =~= before.push(all[i as int]));
        }
        assert(all.take(i + 1).filter(p) == (if p(all[i as int]) {
            all.take(i as int).filter(p).push(all[i as int])
        } else {
            all.take(i as int).filter(p)
        }));
        i = i + 1;
    }
    assert(all.take(all.len() as int) =~= all);
    r
}

impl AddReservationPage {
    /// The page with nothing open (`AddReservationPage::default`).
    pub fn init() -> (p: AddReservationPage)
        ensures
            p@ == empty_add_page(),
    {
        let p = AddReservationPage {
            has_database: false,
            new_reservation: None,
            page_mode: AddReservationPageMode::AddingReservation,
            new_reservation_datepickers_state: ReservationDateInputState {
                show_entry_date_picker: false,
                show_departure_date_picker: false,
            },
            rooms: Vec::new(),
            reservations: Vec::new(),
            clients_selector: Clients::init(),
        };
        assert(p@.rooms =~= Seq::empty());
        assert(p@.reservations =~= Seq::empty());
        p
    }

    /// Called when opening the add reservation page.
    pub fn open_reservation(
        has_database: bool,
        reservation: Reservation,
        rooms: Vec<Room>,
        reservations: Vec<Reservation>,
    ) -> (p: AddReservationPage)
        ensures
            p@ == opened_add_page(
                has_database,
                reservation@,
                rooms.deep_view(),
                reservations.deep_view(),
            ),
    {
        AddReservationPage {
            has_database,
            new_reservation: Some(reservation),
            page_mode: AddReservationPageMode::AddingReservation,
            new_reservation_datepickers_state: ReservationDateInputState {
                show_entry_date_picker: false,
                show_departure_date_picker: false,
            },
            rooms,
            reservations,
            clients_selector: Clients::init(),
        }
    }

    /// What `Back` does to the page's state.
    fn close_selector(&mut self)
        ensures
            final(self)@ == back_state(old(self)@),
    {
        match self.page_mode {
            AddReservationPageMode::AddingReservation => {},
            AddReservationPageMode::PickingClient => {
                self.clients_selector = Clients::init();
                self.page_mode = AddReservationPageMode::AddingReservation;
            },
        }
    }

    /// Applies the selector's instructions, one after the other.
    fn apply_instructions(&mut self, instrs: &Vec<ClientsInstruction>)
        ensures
            final(self)@ == apply_client_instructions(old(self)@, instrs.deep_view()),
    {
        let ghost s0 = self@;
        let ghost all = instrs.deep_view();
        let mut i: usize = 0;
        assert(all.skip(0) =~= all);
        while i < instrs.len()
            invariant
                i <= all.len(),
                all == instrs.deep_view(),
                apply_client_instructions(s0, all) == apply_client_instructions(
                    self@,
                    all.skip(i as int),
                ),
            decreases all.len() - i,
        {
            assert(all.skip(i as int).drop_first() =~= all.skip(i + 1));
            assert(all.skip(i as int)[0] == instrs@[i as int].deep_view());
            match &instrs[i] {
                ClientsInstruction::Back => {
                    self.close_selector();
                },
                ClientsInstruction::ClientSelected(c) => {
                    match self.new_reservation.take() {
                        Some(mut r) => {
                            r.client_id = c.id;
                            r.client_name = client_label_text(c);
                            self.new_reservation = Some(r);
                            self.close_selector();
                        },
                        None => {},
                    }
                },
            }
            i = i + 1;
        }
        assert(all.skip(i as int).len() == 0);
    }

    /// `Clients`: the selector handles the message.
    fn clients_branch(&mut self, m: ClientsMessage) -> (action: AddReservationAction)
        requires
            clients_message_allowed(old(self)@.clients_selector, m),
        ensures
            (final(self)@, action@) == clients_branch(old(self)@, m),
    {
        let client_action = self.clients_selector.update(m);
        let AlegriaAction { instructions, tasks } = client_action;
        self.apply_instructions(&instructions);
        let ghost child_tasks = tasks.deep_view();
        let mut action = AlegriaAction::new();
        action.tasks = lift_all(tasks);
        assert(action.tasks.deep_view() =~= wrap_client_tasks(child_tasks));
        action
    }

    /// `UpdateDateField`.
    fn update_date(&mut self, d: CalendarDate, field: ReservationDateInputFields)
        ensures
            final(self)@ == add_reservation_step(old(self)@, Message::UpdateDateField(d, field)).0,
    {
        match date_from_ymd(d.year, d.month, d.day) {
            Some(date) => {
                match self.new_reservation.take() {
                    Some(mut r) => {
                        match field {
                            ReservationDateInputFields::EntryDate => match r.departure_date {
                                Some(dep) => {
                                    if date.is_before(&dep) {
                                        r.entry_date = Some(date);
                                    }
                                },
                                None => {
                                    r.entry_date = Some(date);
                                },
                            },
                            ReservationDateInputFields::DepartureDate => match r.entry_date {
                                Some(ent) => {
                                    if ent.is_before(&date) {
                                        r.departure_date = Some(date);
                                    }
                                },
                                None => {
                                    r.departure_date = Some(date);
                                },
                            },
                        }
                        self.new_reservation = Some(r);
                    },
                    None => {},
                }
                self.new_reservation_datepickers_state = ReservationDateInputState {
                    show_entry_date_picker: false,
                    show_departure_date_picker: false,
                };
            },
            None => {},
        }
    }

    /// Handles the messages of the add reservation page.
    pub fn update(&mut self, message: Message) -> (action: AddReservationAction)
        requires
            add_reservation_message_allowed(old(self)@, message),
        ensures
            (final(self)@, action@) == add_reservation_step(old(self)@, message),
    {
        let mut action = AlegriaAction::new();
        match message {
            Message::Back => match self.page_mode {
                AddReservationPageMode::AddingReservation => {
                    action.add_instruction(AddReservationsInstruction::Back);
                },
                AddReservationPageMode::PickingClient => {
                    self.close_selector();
                },
            },
            Message::ShowDatePicker(field) => match field {
                ReservationDateInputFields::EntryDate => {
                    self.new_reservation_datepickers_state.show_entry_date_picker = true;
                },
                ReservationDateInputFields::DepartureDate => {
                    self.new_reservation_datepickers_state.show_departure_date_picker = true;
                },
            },
            Message::CancelDateOperation => {
                self.new_reservation_datepickers_state = ReservationDateInputState {
                    show_entry_date_picker: false,
                    show_departure_date_picker: false,
                };
            },
            Message::UpdateDateField(d, field) => {
                self.update_date(d, field);
            },
            Message::ToggleOccupiedCheckbox(v) => {
                match self.new_reservation.take() {
                    Some(mut r) => {
                        r.occupied = v;
                        self.new_reservation = Some(r);
                    },
                    None => {},
                }
            },
            Message::AddReservationRoom(room_id, price_bits) => {
                match self.new_reservation.take() {
                    Some(mut r) => {
                        if !holds_sold_room(&r, room_id) {
                            let ghost before = r@;
                            r.rooms.push(sold_room_for(Some(room_id), price_bits));
                            assert(r@.rooms =~= before.rooms.push(new_sold_room(Some(room_id), price_bits)));
                        }
                        self.new_reservation = Some(r);
                    },
                    None => {},
                }
            },
            Message::RemoveReservationRoom(room_id) => {
                match self.new_reservation.take() {
                    Some(mut r) => {
                        let mut rooms: Vec<SoldRoom> = Vec::new();
                        std::mem::swap(&mut rooms, &mut r.rooms);
                        r.rooms = remaining_rooms(rooms, room_id);
                        self.new_reservation = Some(r);
                    },
                    None => {},
                }
            },
            Message::AddReservation => {
                match &self.new_reservation {
                    Some(r) => {
                        if is_new_reservation_valid(r) {
                            action.add_instruction(
                                AddReservationsInstruction::TryAddReservation(r.duplicate()),
                            );
                        } else {
                            let text = String::from_str("Missing required fields");
                            proof {
                                reveal_strlit("Missing required fields");
                            }
                            action.add_instruction(
                                AddReservationsInstruction::ShowToast(error_toast(text)),
                            );
                        }
                    },
                    None => {},
                }
            },
            Message::OpenClientSelector => {
                if self.has_database {
                    self.clients_selector.page_mode = ClientsPageMode::Selection;
                    self.clients_selector.has_database = true;
                    let clients_action = self.clients_branch(ClientsMessage::InitPage);
                    action.extend_tasks(clients_action);
                    self.page_mode = AddReservationPageMode::PickingClient;
                }
            },
            Message::Clients(cm) => {
                return self.clients_branch(cm);
            },
        }
        action
    }
}

impl Default for AddReservationPage {
    /// The page with nothing open.
    fn default() -> (p: Self)
        ensures
            p@ == empty_add_page(),
    {
        AddReservationPage::init()
    }
}

} // verus!
