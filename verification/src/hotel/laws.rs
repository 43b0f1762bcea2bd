//! What the hotel's pages keep, whatever the state.

use vstd::prelude::*;
use crate::action::{ActionView, no_action, tasks_only};
use crate::dates::{
    CalendarDate, day_after_then_before, day_before_then_after, days_after, days_before,
    lemma_days_after_valid, lemma_days_before_valid, lemma_next_day_keeps_order,
    date_format_ok, lemma_plain_date_format_year, lemma_previous_day_keeps_order, next_day,
    parsed_date, plain_date,
    plain_date_reads_back, previous_day,
};
use crate::models::{ClientView, ReservationView, error_toast_view};
use super::clients::{
    ClientsInstructionView, ClientsPageMode, ClientsScreen, ClientsTaskView, ClientsView,
    Message as ClientsMessage, client_valid, clients_step, first_clients_page, save_step,
    search_matches, with_parsed_dates, with_picked_date, ClientDateInputFields,
};
use super::reservations::add::{
    AddReservationPageMode, AddReservationPageView, AddReservationsInstructionView,
    Message as AddMessage, add_reservation_step, client_label, empty_add_page, has_sold_room,
    keeps_sold_room,
    reservation_complete,
};
use super::reservations::booking::{booked_scan, covers_day};
use super::reservations::{
    DateFiltersView, Message as ReservationsMessage, ReservationDateInputFields,
    ReservationDirectionAction, ReservationsScreen,
    ReservationsActionView, ReservationsTaskView, ReservationsView, apply_add_instructions,
    clicked_reservation, direction_step, fetch_step, filters_wf, reservations_step, with_period,
    add_page_step, date_update_step, with_toast, wrap_add_tasks,
};
use super::rooms::{
    Message as RoomsMessage, RoomsInstruction, RoomsTaskView, RoomsView, room_valid, rooms_step,
};
use super::room_types::{
    Message as RoomTypesMessage, RoomTypesInstruction, RoomTypesTaskView, RoomTypesView,
    room_type_valid, room_types_step,
};
use super::{HotelView, Message, home_state, hotel_step};

verus! {

// ---------------------------------------------------------------------------
// Clients
// ---------------------------------------------------------------------------

/// A day picked for one of a client's dates is stored, and its text is
/// written so that it reads back as that day (for every year from 0 on), in
/// the form's format when the year has four digits.
pub proof fn clients_picked_date_reads_back(c: ClientView, field: ClientDateInputFields, d: CalendarDate)
    requires
        d.valid(),
        0 <= d.year,
    ensures
        ({
            let c2 = with_picked_date(c, field, d);
            let (date, text) = match field {
                ClientDateInputFields::Birthdate => (c2.birthdate, c2.birthdate_string),
                ClientDateInputFields::IdentityDocumentExpeditionDate => (
                    c2.identity_document_expedition_date,
                    c2.identity_document_expedition_date_string,
                ),
                ClientDateInputFields::IdentityDocumentExpirationDate => (
                    c2.identity_document_expiration_date,
                    c2.identity_document_expiration_date_string,
                ),
            };
            &&& date == Some(d)
            &&& parsed_date(text) == Some(d)
            &&& 1000 <= d.year <= 9999 ==> date_format_ok(text)
        }),
{
    plain_date_reads_back(d);
}

/// A selected client is handed to the parent only in selection mode.
pub proof fn clients_selection_only_when_selecting(s: ClientsView, c: crate::models::Client)
    ensures
        s.page_mode == ClientsPageMode::Normal ==> clients_step(s, ClientsMessage::ClientSelected(c))
            == (s, no_action::<ClientsInstructionView, ClientsTaskView>()),
        s.page_mode == ClientsPageMode::Selection ==> clients_step(
            s,
            ClientsMessage::ClientSelected(c),
        ).1.instructions == seq![ClientsInstructionView::ClientSelected(c@)],
{
}

/// A search keeps exactly the clients whose search field holds the search
/// text (both lower-cased), in their order, and shows the first page.
pub proof fn clients_search_keeps_matches(s: ClientsView)
    requires
        s.current_search.len() > 0,
    ensures
        clients_step(s, ClientsMessage::SubmitSearch).0.page == first_clients_page(),
        clients_step(s, ClientsMessage::SubmitSearch).0.clients.len() <= s.clients.len(),
        forall|k: int|
            0 <= k < clients_step(s, ClientsMessage::SubmitSearch).0.clients.len() ==> search_matches(
                s.current_search,
            )(#[trigger] clients_step(s, ClientsMessage::SubmitSearch).0.clients[k]),
        forall|k: int|
            0 <= k < s.clients.len() && search_matches(s.current_search)(#[trigger] s.clients[k])
                ==> clients_step(s, ClientsMessage::SubmitSearch).0.clients.contains(s.clients[k]),
{
    broadcast use vstd::seq_lib::group_filter_ensures;
    let p = search_matches(s.current_search);
    s.clients.lemma_filter_len(p);
    assert forall|k: int| 0 <= k < s.clients.filter(p).len() implies p(#[trigger] s.clients.filter(p)[k]) by {
        s.clients.lemma_filter_pred(p, k);
    }
    assert forall|k: int| 0 <= k < s.clients.len() && p(#[trigger] s.clients[k]) implies s.clients.filter(
        p,
    ).contains(s.clients[k]) by {
        s.clients.lemma_filter_contains(p, k);
    }
}

/// A client is handed to the database only when the form accepts it (and it
/// is new when adding, stored when editing), with its dates read from their
/// texts.
pub proof fn clients_save_only_valid(s: ClientsView, adding: bool, c: ClientView)
    requires
        s.add_edit_client == Some(c),
    ensures
        save_step(s, adding).1.tasks.len() > 0 ==> client_valid(c) && (c.id is None) == adding,
        save_step(s, adding).1.tasks.len() > 0 && adding ==> save_step(s, adding).1.tasks == seq![
            ClientsTaskView::AddClient(with_parsed_dates(c)),
        ],
{
}

/// A client is stored only with an identity document type, an identity
/// document, a name and a country: adding or editing a client that lacks
/// any of them asks for nothing and changes nothing.
pub proof fn clients_store_needs_required_fields(s: ClientsView, m: ClientsMessage)
    requires
        m is AddCurrentClient || m is EditCurrentClient,
    ensures
        clients_step(s, m).1.tasks.len() > 0 ==> (s.add_edit_client matches Some(c) && {
            &&& c.identity_document_type_id is Some
            &&& c.identity_document.len() > 0
            &&& c.name.len() > 0
            &&& c.country.len() > 0
        }),
        (s.add_edit_client matches Some(c) && (c.identity_document_type_id is None
            || c.identity_document.len() == 0 || c.name.len() == 0 || c.country.len() == 0))
            ==> clients_step(s, m) == (s, no_action::<ClientsInstructionView, ClientsTaskView>()),
{
}

/// The first date text of a client that is not empty (birthdate, then the
/// document's expedition date, then its expiration date) must have the date
/// format for the client to be stored; a stored client is new exactly when
/// it is added, and is stored with its dates read from their texts.
pub proof fn clients_store_checks_first_date_and_reads_dates(s: ClientsView, c: ClientView, adding: bool)
    requires
        s.add_edit_client == Some(c),
    ensures
        ({
            let m = if adding { ClientsMessage::AddCurrentClient } else { ClientsMessage::EditCurrentClient };
            let (s2, a) = clients_step(s, m);
            &&& (c.birthdate_string.len() > 0 && !date_format_ok(c.birthdate_string)) ==> (s2, a) == (
                s,
                no_action::<ClientsInstructionView, ClientsTaskView>(),
            )
            &&& (c.birthdate_string.len() == 0 && c.identity_document_expedition_date_string.len() > 0
                && !date_format_ok(c.identity_document_expedition_date_string)) ==> a.tasks.len() == 0
            &&& (c.birthdate_string.len() == 0 && c.identity_document_expedition_date_string.len() == 0
                && c.identity_document_expiration_date_string.len() > 0 && !date_format_ok(
                c.identity_document_expiration_date_string,
            )) ==> a.tasks.len() == 0
            &&& (c.id is Some) == adding ==> a.tasks.len() == 0
            &&& a.tasks.len() > 0 ==> {
                let stored = match a.tasks[0] {
                    ClientsTaskView::AddClient(x) => x,
                    ClientsTaskView::EditClient(x) => x,
                    _ => c,
                };
                &&& a.tasks.len() == 1
                &&& (if adding { a.tasks[0] is AddClient } else { a.tasks[0] is EditClient })
                &&& stored.birthdate == parsed_date(c.birthdate_string)
                &&& stored.identity_document_expedition_date == parsed_date(
                    c.identity_document_expedition_date_string,
                )
                &&& stored.identity_document_expiration_date == parsed_date(
                    c.identity_document_expiration_date_string,
                )
                &&& stored.name == c.name
                &&& stored.identity_document == c.identity_document
                &&& stored.id == c.id
            }
        }),
{
}

/// Deleting removes the stored client of the form by its id; a client that
/// was never stored is not deleted.
pub proof fn clients_delete_only_stored(s: ClientsView, c: ClientView)
    requires
        s.add_edit_client == Some(c),
        s.has_database,
    ensures
        c.id matches Some(id) ==> clients_step(s, ClientsMessage::DeleteCurrentClient).1.tasks == seq![
            ClientsTaskView::DeleteClient(id),
        ],
        c.id is None ==> clients_step(s, ClientsMessage::DeleteCurrentClient).1.tasks.len() == 0,
        clients_step(s, ClientsMessage::DeleteCurrentClient).0 == s,
{
}

/// Leaving the form, by cancelling it or after it was stored, returns to the
/// list without a form.
pub proof fn clients_leaving_form_returns_to_list(s: ClientsView)
    ensures
        clients_step(s, ClientsMessage::CancelClientOperation).0.current_screen == ClientsScreen::List,
        clients_step(s, ClientsMessage::CancelClientOperation).0.add_edit_client is None,
        clients_step(s, ClientsMessage::ModifiedCurrentClient).0.current_screen == ClientsScreen::List,
        clients_step(s, ClientsMessage::ModifiedCurrentClient).0.add_edit_client is None,
{
}

// ---------------------------------------------------------------------------
// Rooms and room types
// ---------------------------------------------------------------------------

/// A room is handed to the database only when it has a name and a room
/// type.
pub proof fn rooms_save_only_valid(s: RoomsView)
    ensures
        rooms_step(s, RoomsMessage::AddCurrentRoom).1.tasks.len() > 0 ==> room_valid(
            s.add_edit_room->0,
        ),
        rooms_step(s, RoomsMessage::EditCurrentRoom).1.tasks.len() > 0 ==> room_valid(
            s.add_edit_room->0,
        ),
{
}

/// A room is stored only with a name and a room type: adding or editing a
/// room without a name, or without a type, asks for nothing and changes
/// nothing.
pub proof fn rooms_store_needs_name_and_type(s: RoomsView, m: RoomsMessage)
    requires
        m is AddCurrentRoom || m is EditCurrentRoom,
    ensures
        rooms_step(s, m).1.tasks.len() > 0 ==> (s.add_edit_room matches Some(r) && r.name.len() > 0
            && r.room_type_id is Some),
        (s.add_edit_room matches Some(r) && (r.name.len() == 0 || r.room_type_id is None))
            ==> rooms_step(s, m) == (s, no_action::<RoomsInstruction, RoomsTaskView>()),
{
}

/// Deleting removes the stored room of the form by its id; a room that was
/// never stored is not deleted.
pub proof fn rooms_delete_only_stored(s: RoomsView, r: crate::models::RoomView)
    requires
        s.add_edit_room == Some(r),
        s.has_database,
    ensures
        r.id matches Some(id) ==> rooms_step(s, RoomsMessage::DeleteCurrentRoom).1.tasks == seq![
            RoomsTaskView::DeleteRoom(id),
        ],
        r.id is None ==> rooms_step(s, RoomsMessage::DeleteCurrentRoom).1.tasks.len() == 0,
        rooms_step(s, RoomsMessage::DeleteCurrentRoom).0 == s,
{
}

/// A room type is handed to the database only when it has a name and a
/// price.
pub proof fn room_types_save_only_valid(s: RoomTypesView)
    ensures
        room_types_step(s, RoomTypesMessage::AddCurrentRoomType).1.tasks.len() > 0
            ==> room_type_valid(s.add_edit_room_type->0),
        room_types_step(s, RoomTypesMessage::EditCurrentRoomType).1.tasks.len() > 0
            ==> room_type_valid(s.add_edit_room_type->0),
{
}

/// A room type is stored only with a name and a price: adding or editing
/// one without a name, or without a price, asks for nothing and changes
/// nothing.
pub proof fn room_types_store_needs_name_and_price(s: RoomTypesView, m: RoomTypesMessage)
    requires
        m is AddCurrentRoomType || m is EditCurrentRoomType,
    ensures
        room_types_step(s, m).1.tasks.len() > 0 ==> (s.add_edit_room_type matches Some(r)
            && r.name.len() > 0 && r.price_bits is Some),
        (s.add_edit_room_type matches Some(r) && (r.name.len() == 0 || r.price_bits is None))
            ==> room_types_step(s, m) == (s, no_action::<RoomTypesInstruction, RoomTypesTaskView>()),
{
}

/// Deleting removes the stored room type of the form by its id; one that
/// was never stored is not deleted.
pub proof fn room_types_delete_only_stored(s: RoomTypesView, r: crate::models::RoomTypeView)
    requires
        s.add_edit_room_type == Some(r),
        s.has_database,
    ensures
        r.id matches Some(id) ==> room_types_step(s, RoomTypesMessage::DeleteCurrentRoomType).1.tasks
            == seq![RoomTypesTaskView::DeleteRoomType(id)],
        r.id is None ==> room_types_step(s, RoomTypesMessage::DeleteCurrentRoomType).1.tasks.len() == 0,
        room_types_step(s, RoomTypesMessage::DeleteCurrentRoomType).0 == s,
{
}

// ---------------------------------------------------------------------------
// The add reservation form
// ---------------------------------------------------------------------------

/// Only a reservation with a client, rooms and both dates is handed to the
/// parent to be stored.
pub proof fn add_reservation_hands_on_only_complete(s: AddReservationPageView, r: ReservationView)
    requires
        add_reservation_step(s, AddMessage::AddReservation).1.instructions == seq![
            AddReservationsInstructionView::TryAddReservation(r),
        ],
    ensures
        reservation_complete(r),
        s.new_reservation == Some(r),
{
    assert(add_reservation_step(s, AddMessage::AddReservation).1.instructions[0]
        == AddReservationsInstructionView::TryAddReservation(r));
}

/// The form hands on only a reservation with a client, both dates and at
/// least one room; one that lacks any of them is not handed on, and a toast
/// reports it instead.
pub proof fn add_reservation_hands_on_only_with_rooms(s: AddReservationPageView, r: ReservationView)
    ensures
        add_reservation_step(s, AddMessage::AddReservation).1.instructions == seq![
            AddReservationsInstructionView::TryAddReservation(r),
        ] ==> {
            &&& r.rooms.len() > 0
            &&& r.client_id is Some
            &&& r.entry_date is Some
            &&& r.departure_date is Some
        },
        (s.new_reservation == Some(r) && (r.rooms.len() == 0 || r.client_id is None
            || r.entry_date is None || r.departure_date is None)) ==> {
            let a = add_reservation_step(s, AddMessage::AddReservation);
            &&& a.0 == s
            &&& a.1.tasks.len() == 0
            &&& a.1.instructions.len() == 1
            &&& a.1.instructions[0] is ShowToast
        },
{
    if add_reservation_step(s, AddMessage::AddReservation).1.instructions == seq![
        AddReservationsInstructionView::TryAddReservation(r),
    ] {
        add_reservation_hands_on_only_complete(s, r);
    }
}

/// A room is booked at most once by the form: adding a room that it books
/// already changes nothing, and afterwards the room is booked.
pub proof fn add_reservation_room_once(
    s: AddReservationPageView,
    r: ReservationView,
    room_id: i32,
    price_bits: Option<u32>,
)
    requires
        s.new_reservation == Some(r),
    ensures
        has_sold_room(r, room_id) ==> add_reservation_step(
            s,
            AddMessage::AddReservationRoom(room_id, price_bits),
        ).0 == s,
        has_sold_room(
            add_reservation_step(s, AddMessage::AddReservationRoom(room_id, price_bits)).0.new_reservation->0,
            room_id,
        ),
{
    let r2 = add_reservation_step(s, AddMessage::AddReservationRoom(room_id, price_bits)).0.new_reservation->0;
    if !has_sold_room(r, room_id) {
        assert(r2.rooms[r.rooms.len() as int].room_id == Some(room_id));
    }
}

/// Removing a room never drops a sold room that has invoices, and leaves no
/// sold room of that room without invoices.
pub proof fn add_reservation_keeps_invoiced_rooms(
    s: AddReservationPageView,
    r: ReservationView,
    room_id: i32,
)
    requires
        s.new_reservation == Some(r),
    ensures
        forall|k: int|
            0 <= k < r.rooms.len() && (#[trigger] r.rooms[k]).invoices.len() > 0
                ==> add_reservation_step(
                s,
                AddMessage::RemoveReservationRoom(room_id),
            ).0.new_reservation->0.rooms.contains(r.rooms[k]),
        forall|k: int|
            0 <= k < add_reservation_step(
                s,
                AddMessage::RemoveReservationRoom(room_id),
            ).0.new_reservation->0.rooms.len() ==> keeps_sold_room(room_id)(
                #[trigger] add_reservation_step(
                    s,
                    AddMessage::RemoveReservationRoom(room_id),
                ).0.new_reservation->0.rooms[k],
            ),
{
    broadcast use vstd::seq_lib::group_filter_ensures;
    let p = keeps_sold_room(room_id);
    assert forall|k: int| 0 <= k < r.rooms.len() && (#[trigger] r.rooms[k]).invoices.len() > 0 implies r.rooms.filter(
        p,
    ).contains(r.rooms[k]) by {
        r.rooms.lemma_filter_contains(p, k);
    }
    assert forall|k: int| 0 <= k < r.rooms.filter(p).len() implies p(#[trigger] r.rooms.filter(p)[k]) by {
        r.rooms.lemma_filter_pred(p, k);
    }
}

/// A picked day never puts the entry on or after the departure: when both
/// are set and in order, they stay in order.
pub proof fn add_reservation_dates_stay_ordered(
    s: AddReservationPageView,
    r: ReservationView,
    d: CalendarDate,
    field: super::reservations::add::ReservationDateInputFields,
)
    requires
        s.new_reservation == Some(r),
        r.entry_date is Some,
        r.departure_date is Some,
        r.entry_date->0.before(r.departure_date->0),
    ensures
        ({
            let r2 = add_reservation_step(s, AddMessage::UpdateDateField(d, field)).0.new_reservation->0;
            r2.entry_date is Some && r2.departure_date is Some && r2.entry_date->0.before(
                r2.departure_date->0,
            )
        }),
{
}

/// Picking a client in the selector makes it the reservation's client
/// (named `name first-surname second-surname | country`) and closes the
/// selector.
pub proof fn add_reservation_picked_client(s: AddReservationPageView, r: ReservationView, c: crate::models::Client)
    requires
        s.new_reservation == Some(r),
        s.page_mode == AddReservationPageMode::PickingClient,
        s.clients_selector.page_mode == ClientsPageMode::Selection,
    ensures
        ({
            let s2 = add_reservation_step(s, AddMessage::Clients(ClientsMessage::ClientSelected(c))).0;
            &&& s2.page_mode == AddReservationPageMode::AddingReservation
            &&& s2.new_reservation == Some(
                ReservationView { client_id: c@.id, client_name: client_label(c@), ..r },
            )
        }),
{
    let cs = clients_step(s.clients_selector, ClientsMessage::ClientSelected(c));
    let instrs = cs.1.instructions;
    assert(instrs == seq![ClientsInstructionView::ClientSelected(c@)]);
    assert(instrs[0] == ClientsInstructionView::ClientSelected(c@));
    assert(instrs.drop_first() =~= Seq::<ClientsInstructionView>::empty());
    let s1 = AddReservationPageView { clients_selector: cs.0, ..s };
    let s2 = super::reservations::add::back_state(
        AddReservationPageView {
            new_reservation: Some(
                ReservationView { client_id: c@.id, client_name: client_label(c@), ..r },
            ),
            ..s1
        },
    );
    assert(super::reservations::add::apply_client_instructions(s1, instrs)
        == super::reservations::add::apply_client_instructions(s2, instrs.drop_first()));
    assert(super::reservations::add::apply_client_instructions(s2, instrs.drop_first()) == s2);
}

// ---------------------------------------------------------------------------
// The reservations page
// ---------------------------------------------------------------------------

/// A click on a free cell starts a one-night stay from that day, booking the
/// clicked room only when no reservation books it for that night.
pub proof fn reservations_click_books_free_room(s: ReservationsView, day: CalendarDate, room: crate::models::RoomView)
    ensures
        clicked_reservation(s, day, room).entry_date == Some(day),
        clicked_reservation(s, day, room).departure_date == next_day(day),
        clicked_reservation(s, day, room).rooms.len() == (if booked_scan(
            s.reservations,
            room.id,
            Some(day),
            next_day(day),
        ) == Some(true) {
            0nat
        } else {
            1nat
        }),
{
}

/// Reservations are only loaded for a period whose first day comes before
/// its last.
pub proof fn reservations_load_nonempty_periods(s: ReservationsView)
    ensures
        forall|k: int|
            0 <= k < fetch_step(s).1.tasks.len() ==> (#[trigger] fetch_step(s).1.tasks[k] matches ReservationsTaskView::LoadReservations(
                i,
                l,
            ) && i.before(l)),
{
}

/// A period written into the date fields is kept by the fetch that follows:
/// its texts either read back as the same days or are refused.
proof fn lemma_fetch_keeps_written_period(s: ReservationsView, i: CalendarDate, l: CalendarDate)
    requires
        i.valid(),
        l.valid(),
    ensures
        fetch_step(with_period(s, i, l)).0.date_filters.initial_date == i,
        fetch_step(with_period(s, i, l)).0.date_filters.last_date == l,
{
    lemma_plain_date_format_year(i);
    lemma_plain_date_format_year(l);
    if 1000 <= i.year <= 9999 {
        plain_date_reads_back(i);
    }
    if 1000 <= l.year <= 9999 {
        plain_date_reads_back(l);
    }
}

/// Moving the calendar a day forward and then a day back returns to the
/// same period (when the calendar does not end within a day of it).
pub proof fn reservations_forward_then_back(s: ReservationsView)
    requires
        filters_wf(s.date_filters),
        next_day(s.date_filters.initial_date) is Some,
        next_day(s.date_filters.last_date) is Some,
    ensures
        ({
            let s2 = reservations_step(
                reservations_step(
                    s,
                    ReservationsMessage::DirectionActionInput(ReservationDirectionAction::Forward),
                ).0,
                ReservationsMessage::DirectionActionInput(ReservationDirectionAction::Back),
            ).0;
            s2.date_filters.initial_date == s.date_filters.initial_date
                && s2.date_filters.last_date == s.date_filters.last_date
        }),
{
    let f = s.date_filters;
    let ni = next_day(f.initial_date)->0;
    let nl = next_day(f.last_date)->0;
    assert(days_after(f.initial_date, 0) == Some(f.initial_date));
    assert(days_after(f.last_date, 0) == Some(f.last_date));
    assert(days_after(f.initial_date, 1) == Some(ni));
    assert(days_after(f.last_date, 1) == Some(nl));
    lemma_days_after_valid(f.initial_date, 1);
    lemma_days_after_valid(f.last_date, 1);
    lemma_fetch_keeps_written_period(s, ni, nl);
    let s1 = fetch_step(with_period(s, ni, nl)).0;
    day_after_then_before(f.initial_date);
    day_after_then_before(f.last_date);
    assert(days_before(ni, 0) == Some(ni));
    assert(days_before(nl, 0) == Some(nl));
    assert(days_before(ni, 1) == Some(f.initial_date));
    assert(days_before(nl, 1) == Some(f.last_date));
    lemma_fetch_keeps_written_period(s1, f.initial_date, f.last_date);
}

/// Moving the calendar a day back and then a day forward returns to the
/// same period (when the calendar does not begin within a day of it).
pub proof fn reservations_back_then_forward(s: ReservationsView)
    requires
        filters_wf(s.date_filters),
        previous_day(s.date_filters.initial_date) is Some,
        previous_day(s.date_filters.last_date) is Some,
    ensures
        ({
            let s2 = reservations_step(
                reservations_step(
                    s,
                    ReservationsMessage::DirectionActionInput(ReservationDirectionAction::Back),
                ).0,
                ReservationsMessage::DirectionActionInput(ReservationDirectionAction::Forward),
            ).0;
            s2.date_filters.initial_date == s.date_filters.initial_date
                && s2.date_filters.last_date == s.date_filters.last_date
        }),
{
    let f = s.date_filters;
    let pi = previous_day(f.initial_date)->0;
    let pl = previous_day(f.last_date)->0;
    assert(days_before(f.initial_date, 0) == Some(f.initial_date));
    assert(days_before(f.last_date, 0) == Some(f.last_date));
    assert(days_before(f.initial_date, 1) == Some(pi));
    assert(days_before(f.last_date, 1) == Some(pl));
    lemma_days_before_valid(f.initial_date, 1);
    lemma_days_before_valid(f.last_date, 1);
    lemma_fetch_keeps_written_period(s, pi, pl);
    let s1 = fetch_step(with_period(s, pi, pl)).0;
    day_before_then_after(f.initial_date);
    day_before_then_after(f.last_date);
    assert(days_after(pi, 0) == Some(pi));
    assert(days_after(pl, 0) == Some(pl));
    assert(days_after(pi, 1) == Some(f.initial_date));
    assert(days_after(pl, 1) == Some(f.last_date));
    lemma_fetch_keeps_written_period(s1, f.initial_date, f.last_date);
}

/// The first day of the period comes before its last.
pub open spec fn period_ordered(f: DateFiltersView) -> bool {
    f.initial_date.before(f.last_date)
}

/// A fetch keeps an ordered period ordered.
proof fn lemma_fetch_keeps_order(s: ReservationsView)
    requires
        period_ordered(s.date_filters),
    ensures
        period_ordered(fetch_step(s).0.date_filters),
{
}

/// The add form's instructions keep an ordered period ordered.
proof fn lemma_add_instructions_keep_order(
    s: ReservationsView,
    acc: ReservationsActionView,
    instrs: Seq<AddReservationsInstructionView>,
)
    requires
        period_ordered(s.date_filters),
    ensures
        period_ordered(apply_add_instructions(s, acc, instrs).0.date_filters),
    decreases instrs.len(),
{
    if instrs.len() > 0 {
        match instrs[0] {
            AddReservationsInstructionView::Back => {
                lemma_fetch_keeps_order(
                    ReservationsView {
                        add_reservations: empty_add_page(),
                        current_screen: ReservationsScreen::Home,
                        ..s
                    },
                );
            },
            AddReservationsInstructionView::TryAddReservation(r) => {
                let acc2 = if s.has_database {
                    ActionView { tasks: acc.tasks.push(ReservationsTaskView::AddReservation(r)), ..acc }
                } else {
                    acc
                };
                lemma_add_instructions_keep_order(s, acc2, instrs.drop_first());
            },
            AddReservationsInstructionView::ShowToast(t) => {
                lemma_add_instructions_keep_order(with_toast(s, t), acc, instrs.drop_first());
            },
        }
    }
}

/// Moving the calendar a day keeps an ordered period ordered.
proof fn lemma_direction_keeps_order(s: ReservationsView, a: ReservationDirectionAction)
    requires
        filters_wf(s.date_filters),
        period_ordered(s.date_filters),
    ensures
        period_ordered(direction_step(s, a).0.date_filters),
{
    let f = s.date_filters;
    match a {
        ReservationDirectionAction::Back => {
            assert(days_before(f.initial_date, 0) == Some(f.initial_date));
            assert(days_before(f.last_date, 0) == Some(f.last_date));
            if previous_day(f.initial_date) is Some {
                lemma_previous_day_keeps_order(f.initial_date, f.last_date);
                let pi = previous_day(f.initial_date)->0;
                let pl = previous_day(f.last_date)->0;
                lemma_fetch_keeps_order(with_period(s, pi, pl));
            }
        },
        ReservationDirectionAction::Forward => {
            assert(days_after(f.initial_date, 0) == Some(f.initial_date));
            assert(days_after(f.last_date, 0) == Some(f.last_date));
            if next_day(f.last_date) is Some {
                lemma_next_day_keeps_order(f.initial_date, f.last_date);
                let ni = next_day(f.initial_date)->0;
                let nl = next_day(f.last_date)->0;
                lemma_fetch_keeps_order(with_period(s, ni, nl));
            }
        },
    }
}

/// A picked day keeps an ordered period ordered.
proof fn lemma_date_update_keeps_order(s: ReservationsView, d: CalendarDate, field: ReservationDateInputFields)
    requires
        period_ordered(s.date_filters),
    ensures
        period_ordered(date_update_step(s, d, field).0.date_filters),
{
    let f = s.date_filters;
    lemma_fetch_keeps_order(with_toast(s, error_toast_view("Could not parse new date"@)));
    if d.before(f.last_date) {
        lemma_fetch_keeps_order(
            ReservationsView {
                date_filters: DateFiltersView { initial_date: d, initial_date_string: plain_date(d), ..f },
                ..s
            },
        );
    }
    if f.initial_date.before(d) {
        lemma_fetch_keeps_order(
            ReservationsView {
                date_filters: DateFiltersView { last_date: d, last_date_string: plain_date(d), ..f },
                ..s
            },
        );
    }
}

/// A message of the add form keeps an ordered period ordered.
proof fn lemma_add_page_keeps_order(s: ReservationsView, am: AddMessage)
    requires
        period_ordered(s.date_filters),
    ensures
        period_ordered(add_page_step(s, am).0.date_filters),
{
    let (a2, aa) = add_reservation_step(s.add_reservations, am);
    lemma_add_instructions_keep_order(
        ReservationsView { add_reservations: a2, ..s },
        tasks_only(wrap_add_tasks(aa.tasks)),
        aa.instructions,
    );
}

/// The period of the reservations page keeps its first day before its last:
/// every message keeps that so (a fetch or a picked day that would break it
/// is dropped, and the period moves a day at both ends or not at all).
pub proof fn reservations_period_stays_ordered(s: ReservationsView, m: ReservationsMessage)
    requires
        filters_wf(s.date_filters),
        period_ordered(s.date_filters),
    ensures
        period_ordered(reservations_step(s, m).0.date_filters),
{
    match m {
        ReservationsMessage::Back => {
            lemma_fetch_keeps_order(
                ReservationsView {
                    add_reservations: empty_add_page(),
                    current_screen: ReservationsScreen::Home,
                    ..s
                },
            );
        },
        ReservationsMessage::FetchReservations => lemma_fetch_keeps_order(s),
        ReservationsMessage::UpdateDateField(d, field) => lemma_date_update_keeps_order(s, d, field),
        ReservationsMessage::DirectionActionInput(a) => lemma_direction_keeps_order(s, a),
        ReservationsMessage::AddReservationPage(am) => lemma_add_page_keeps_order(s, am),
        _ => {},
    }
}

/// Opening the reservations page shows the calendar and loads the
/// reservations of the period and the rooms (when there is a database).
pub proof fn reservations_opening_loads_period_and_rooms(s: ReservationsView)
    requires
        s.has_database,
    ensures
        reservations_step(s, ReservationsMessage::InitPage).0.current_screen == ReservationsScreen::Home,
        reservations_step(s, ReservationsMessage::InitPage).0.date_filters == s.date_filters,
        reservations_step(s, ReservationsMessage::InitPage).1.tasks == seq![
            ReservationsTaskView::LoadReservations(s.date_filters.initial_date, s.date_filters.last_date),
            ReservationsTaskView::LoadRooms,
        ],
{
}

/// A reservation never holds its room on the night of its departure day
/// (the room can be booked again from that day).
pub proof fn calendar_departure_day_is_free(r: ReservationView, room_id: Option<i32>)
    requires
        r.departure_date is Some,
    ensures
        !covers_day(room_id, r.departure_date->0)(r),
{
}

// ---------------------------------------------------------------------------
// The hotel
// ---------------------------------------------------------------------------

/// When the reservations page (showing its calendar) is asked to go back,
/// the hotel returns to its home page with every page started afresh.
pub proof fn hotel_page_back_returns_home(s: HotelView, today: CalendarDate)
    requires
        s.reservations.current_screen == ReservationsScreen::Home,
    ensures
        hotel_step(s, Message::Reservations(ReservationsMessage::Back), today).0 == home_state(
            s,
            today,
        ),
{
}

} // verus!
