use alegria::dates::CalendarDate;
use alegria::hotel::clients::{ClientsTask, Message as ClientsMessage};
use alegria::hotel::reservations::add::{
    AddReservationPage, AddReservationPageMode, AddReservationTask, AddReservationsInstruction,
    Message as AddMessage, ReservationDateInputFields as AddDateField, is_new_reservation_valid,
};
use alegria::hotel::reservations::booking::{
    CalendarCell, available_rooms, calendar_cell, calendar_days, find_room, room_booked,
};
use alegria::hotel::reservations::{
    DateFiltersState, Message, ReservationDateInputFields, ReservationDirectionAction,
    ReservationTextInputFields, Reservations, ReservationsInstruction, ReservationsScreen,
    ReservationsTask,
};
use alegria::models::{Client, Reservation, Room, SoldRoom};

fn date(year: i32, month: u32, day: u32) -> CalendarDate {
    CalendarDate { year, month, day }
}

fn room(id: i32, name: &str) -> Room {
    let mut r = Room::empty();
    r.id = Some(id);
    r.name = String::from(name);
    r.room_type_id = Some(1);
    r.default_room_price_bits = Some(60.0f32.to_bits());
    r
}

fn sold(room_id: i32, invoices: Vec<i32>) -> SoldRoom {
    SoldRoom {
        id: None,
        room_id: Some(room_id),
        guests: Vec::new(),
        price_bits: None,
        invoices,
        room_name: String::new(),
    }
}

fn booking(room_id: i32, entry: CalendarDate, departure: CalendarDate, occupied: bool, name: &str) -> Reservation {
    let mut r = Reservation::empty();
    r.id = Some(1);
    r.client_id = Some(1);
    r.client_name = String::from(name);
    r.entry_date = Some(entry);
    r.departure_date = Some(departure);
    r.occupied = occupied;
    r.rooms = vec![sold(room_id, Vec::new())];
    r
}

#[test]
fn the_period_starts_with_two_weeks() {
    let f = DateFiltersState::starting_on(date(2024, 3, 1));
    assert_eq!(f.initial_date, date(2024, 3, 1));
    assert_eq!(f.last_date, date(2024, 3, 15));
    assert_eq!(f.initial_date_string, "2024-03-01");
    assert_eq!(f.last_date_string, "2024-03-15");
    let end = DateFiltersState::starting_on(date(262142, 12, 25));
    assert_eq!(end.last_date, date(262142, 12, 25));
}

#[test]
fn opening_the_page_loads_the_period_and_the_rooms() {
    let mut page = Reservations::starting_on(true, date(2024, 3, 1));
    let action = page.update(Message::InitPage);
    assert_eq!(action.tasks.len(), 2);
    assert!(matches!(action.tasks[0], ReservationsTask::LoadReservations(a, b) if a == date(2024, 3, 1) && b == date(2024, 3, 15)));
    assert!(matches!(action.tasks[1], ReservationsTask::LoadRooms));
}

#[test]
fn the_arrows_move_the_period_a_day() {
    let mut page = Reservations::starting_on(true, date(2024, 2, 28));
    let action = page.update(Message::DirectionActionInput(ReservationDirectionAction::Forward));
    assert_eq!(page.date_filters.initial_date, date(2024, 2, 29));
    assert_eq!(page.date_filters.last_date, date(2024, 3, 14));
    assert_eq!(page.date_filters.initial_date_string, "2024-2-29");
    assert!(matches!(action.tasks[0], ReservationsTask::LoadReservations(a, _) if a == date(2024, 2, 29)));
    page.update(Message::DirectionActionInput(ReservationDirectionAction::Back));
    assert_eq!(page.date_filters.initial_date, date(2024, 2, 28));
    assert_eq!(page.date_filters.last_date, date(2024, 3, 13));
}

#[test]
fn typed_periods_must_be_well_formed_and_ordered() {
    let mut page = Reservations::starting_on(true, date(2024, 3, 1));
    page.update(Message::TextInputUpdate(String::from("2024-04-01"), ReservationTextInputFields::FilterInitialDate));
    page.update(Message::TextInputUpdate(String::from("2024-4-10"), ReservationTextInputFields::FilterLastDate));
    let action = page.update(Message::FetchReservations);
    assert_eq!(page.date_filters.initial_date, date(2024, 4, 1));
    assert_eq!(page.date_filters.last_date, date(2024, 4, 10));
    assert_eq!(action.tasks.len(), 1);

    page.update(Message::TextInputUpdate(String::from("2024-05-01"), ReservationTextInputFields::FilterInitialDate));
    let action = page.update(Message::FetchReservations);
    assert!(action.tasks.is_empty());
    assert_eq!(page.date_filters.initial_date, date(2024, 4, 1));

    page.update(Message::TextInputUpdate(String::from("tomorrow"), ReservationTextInputFields::FilterInitialDate));
    let action = page.update(Message::FetchReservations);
    assert!(action.tasks.is_empty());
    assert_eq!(page.toasts.len(), 1);
    assert_eq!(page.toasts[0].body, "Can't parse dates");
}

#[test]
fn picked_days_keep_the_period_ordered() {
    let mut page = Reservations::starting_on(true, date(2024, 3, 1));
    page.update(Message::ShowDatePicker(ReservationDateInputFields::FilterLastDate));
    page.update(Message::UpdateDateField(date(2024, 2, 1), ReservationDateInputFields::FilterLastDate));
    assert_eq!(page.date_filters.last_date, date(2024, 3, 15));
    assert!(!page.date_filters.show_last_date_picker);
    let action = page.update(Message::UpdateDateField(date(2024, 3, 20), ReservationDateInputFields::FilterLastDate));
    assert_eq!(page.date_filters.last_date, date(2024, 3, 20));
    assert_eq!(page.date_filters.last_date_string, "2024-3-20");
    assert_eq!(action.tasks.len(), 1);
    page.update(Message::UpdateDateField(date(2024, 2, 30), ReservationDateInputFields::FilterInitialDate));
    assert_eq!(page.toasts[0].body, "Could not parse new date");
}

#[test]
fn a_click_on_a_free_cell_books_that_room_for_a_night() {
    let mut page = Reservations::starting_on(true, date(2024, 3, 1));
    page.update(Message::SetRooms(vec![room(1, "101"), room(2, "102")]));
    page.update(Message::SetReservations(vec![booking(2, date(2024, 3, 2), date(2024, 3, 5), false, "Ana")]));
    page.update(Message::OpenAddReservationForm(date(2024, 3, 3), room(1, "101")));
    assert_eq!(page.current_screen, ReservationsScreen::Add);
    let r = page.add_reservations.new_reservation.as_ref().unwrap();
    assert_eq!(r.entry_date, Some(date(2024, 3, 3)));
    assert_eq!(r.departure_date, Some(date(2024, 3, 4)));
    assert_eq!(r.rooms.len(), 1);
    assert_eq!(r.rooms[0].room_id, Some(1));
    assert_eq!(r.rooms[0].price_bits, Some(60.0f32.to_bits()));

    let action = page.update(Message::Back);
    assert_eq!(page.current_screen, ReservationsScreen::Home);
    assert!(page.add_reservations.new_reservation.is_none());
    assert_eq!(action.tasks.len(), 1);

    page.update(Message::OpenAddReservationForm(date(2024, 3, 4), room(2, "102")));
    assert!(page.add_reservations.new_reservation.as_ref().unwrap().rooms.is_empty());
    page.update(Message::Back);
    page.update(Message::OpenAddReservationForm(date(2024, 3, 5), room(2, "102")));
    assert_eq!(page.add_reservations.new_reservation.as_ref().unwrap().rooms.len(), 1);
}

#[test]
fn the_form_hands_on_only_complete_reservations() {
    let mut page = Reservations::starting_on(true, date(2024, 3, 1));
    page.update(Message::OpenAddReservationForm(date(2024, 3, 3), room(1, "101")));
    let action = page.update(Message::AddReservationPage(AddMessage::AddReservation));
    assert!(action.tasks.is_empty());
    assert_eq!(page.toasts.len(), 1);
    assert_eq!(page.toasts[0].body, "Missing required fields");

    page.add_reservations.new_reservation.as_mut().unwrap().client_id = Some(3);
    let action = page.update(Message::AddReservationPage(AddMessage::AddReservation));
    assert_eq!(action.tasks.len(), 1);
    assert!(matches!(&action.tasks[0], ReservationsTask::AddReservation(r) if r.client_id == Some(3)));

    let action = page.update(Message::AddReservationPage(AddMessage::Back));
    assert_eq!(page.current_screen, ReservationsScreen::Home);
    assert_eq!(action.tasks.len(), 1);
    let action = page.update(Message::Back);
    assert_eq!(action.instructions[0], ReservationsInstruction::Back);
}

#[test]
fn rooms_with_invoices_stay_and_rooms_are_added_once() {
    let mut r = Reservation::empty();
    r.rooms = vec![sold(1, vec![10]), sold(2, Vec::new())];
    let mut form = AddReservationPage::open_reservation(true, r, Vec::new(), Vec::new());
    form.update(AddMessage::RemoveReservationRoom(1));
    form.update(AddMessage::RemoveReservationRoom(2));
    let rooms = &form.new_reservation.as_ref().unwrap().rooms;
    assert_eq!(rooms.len(), 1);
    assert_eq!(rooms[0].room_id, Some(1));
    form.update(AddMessage::AddReservationRoom(1, None));
    form.update(AddMessage::AddReservationRoom(5, Some(7)));
    let rooms = &form.new_reservation.as_ref().unwrap().rooms;
    assert_eq!(rooms.len(), 2);
    assert_eq!(rooms[1].room_id, Some(5));
    assert_eq!(rooms[1].price_bits, Some(7));
    form.update(AddMessage::ToggleOccupiedCheckbox(true));
    assert!(form.new_reservation.as_ref().unwrap().occupied);
}

#[test]
fn the_entry_stays_before_the_departure() {
    let mut r = Reservation::empty();
    r.entry_date = Some(date(2024, 3, 3));
    r.departure_date = Some(date(2024, 3, 4));
    let mut form = AddReservationPage::open_reservation(false, r, Vec::new(), Vec::new());
    form.update(AddMessage::UpdateDateField(date(2024, 3, 4), AddDateField::EntryDate));
    assert_eq!(form.new_reservation.as_ref().unwrap().entry_date, Some(date(2024, 3, 3)));
    form.update(AddMessage::UpdateDateField(date(2024, 3, 9), AddDateField::DepartureDate));
    assert_eq!(form.new_reservation.as_ref().unwrap().departure_date, Some(date(2024, 3, 9)));
    form.update(AddMessage::UpdateDateField(date(2024, 3, 8), AddDateField::EntryDate));
    assert_eq!(form.new_reservation.as_ref().unwrap().entry_date, Some(date(2024, 3, 8)));
    form.update(AddMessage::UpdateDateField(date(2024, 3, 1), AddDateField::DepartureDate));
    assert_eq!(form.new_reservation.as_ref().unwrap().departure_date, Some(date(2024, 3, 9)));
}

#[test]
fn picking_a_client_names_the_reservation() {
    let mut r = Reservation::empty();
    r.entry_date = Some(date(2024, 3, 3));
    let mut form = AddReservationPage::open_reservation(true, r, Vec::new(), Vec::new());
    let action = form.update(AddMessage::OpenClientSelector);
    assert_eq!(form.page_mode, AddReservationPageMode::PickingClient);
    assert_eq!(action.tasks.len(), 3);
    assert!(matches!(action.tasks[0], AddReservationTask::Clients(ClientsTask::LoadClients)));

    let mut c = Client::empty();
    c.id = Some(42);
    c.name = String::from("Ana");
    c.first_surname = String::from("García");
    c.second_surname = String::from("López");
    c.country = String::from("España");
    form.update(AddMessage::Clients(ClientsMessage::ClientSelected(c)));
    assert_eq!(form.page_mode, AddReservationPageMode::AddingReservation);
    let r = form.new_reservation.as_ref().unwrap();
    assert_eq!(r.client_id, Some(42));
    assert_eq!(r.client_name, "Ana García López | España");
    assert!(!is_new_reservation_valid(r));

    let mut offline = AddReservationPage::default();
    assert!(offline.update(AddMessage::OpenClientSelector).tasks.is_empty());
    assert_eq!(offline.page_mode, AddReservationPageMode::AddingReservation);
    let action = offline.update(AddMessage::Back);
    assert!(matches!(action.instructions[0], AddReservationsInstruction::Back));
}

#[test]
fn calendar_cells_show_who_holds_the_room() {
    let reservations = vec![
        booking(1, date(2024, 3, 2), date(2024, 3, 4), true, "Ana"),
        booking(2, date(2024, 3, 2), date(2024, 3, 4), false, "Luis"),
    ];
    assert!(matches!(calendar_cell(&reservations, Some(1), date(2024, 3, 2)), CalendarCell::Occupied(n) if n == "Ana"));
    assert!(matches!(calendar_cell(&reservations, Some(1), date(2024, 3, 3)), CalendarCell::Occupied(_)));
    assert!(matches!(calendar_cell(&reservations, Some(1), date(2024, 3, 4)), CalendarCell::Free));
    assert!(matches!(calendar_cell(&reservations, Some(1), date(2024, 3, 1)), CalendarCell::Free));
    assert!(matches!(calendar_cell(&reservations, Some(2), date(2024, 3, 3)), CalendarCell::Reserved(n) if n == "Luis"));
    assert!(matches!(calendar_cell(&reservations, Some(3), date(2024, 3, 3)), CalendarCell::Free));
}

#[test]
fn calendar_days_run_from_first_to_last() {
    let days = calendar_days(date(2024, 2, 27), date(2024, 3, 2));
    assert_eq!(days, vec![date(2024, 2, 27), date(2024, 2, 28), date(2024, 2, 29), date(2024, 3, 1), date(2024, 3, 2)]);
    assert_eq!(calendar_days(date(2024, 3, 2), date(2024, 3, 2)), vec![date(2024, 3, 2)]);
    assert!(calendar_days(date(2024, 3, 3), date(2024, 3, 2)).is_empty());
}

#[test]
fn booked_rooms_are_not_offered() {
    let rooms = vec![room(1, "101"), room(2, "102"), room(3, "103")];
    let reservations = vec![booking(2, date(2024, 3, 2), date(2024, 3, 5), false, "Ana")];
    let free = available_rooms(&rooms, &reservations, Some(date(2024, 3, 4)), Some(date(2024, 3, 6)));
    assert_eq!(free.len(), 2);
    assert_eq!(free[0].id, Some(1));
    assert_eq!(free[1].id, Some(3));
    let free = available_rooms(&rooms, &reservations, Some(date(2024, 3, 5)), Some(date(2024, 3, 6)));
    assert_eq!(free.len(), 3);
    assert_eq!(room_booked(&reservations, Some(2), Some(date(2024, 3, 1)), Some(date(2024, 3, 3))), Some(true));
    assert_eq!(room_booked(&reservations, Some(2), Some(date(2024, 3, 1)), Some(date(2024, 3, 2))), Some(false));
    let mut undated = Reservation::empty();
    undated.rooms = vec![sold(1, Vec::new())];
    assert_eq!(room_booked(&vec![undated], Some(1), Some(date(2024, 3, 1)), Some(date(2024, 3, 2))), None);
    assert_eq!(find_room(&rooms, Some(3)), Some(2));
    assert_eq!(find_room(&rooms, Some(9)), None);
}

#[test]
fn back_then_forward_returns_to_the_period() {
    let mut page = Reservations::starting_on(true, date(2024, 3, 1));
    page.update(Message::DirectionActionInput(ReservationDirectionAction::Back));
    assert_eq!(page.date_filters.initial_date, date(2024, 2, 29));
    assert_eq!(page.date_filters.last_date, date(2024, 3, 14));
    assert_eq!(page.date_filters.last_date_string, "2024-3-14");
    page.update(Message::DirectionActionInput(ReservationDirectionAction::Forward));
    assert_eq!(page.date_filters.initial_date, date(2024, 3, 1));
    assert_eq!(page.date_filters.last_date, date(2024, 3, 15));
}

#[test]
fn the_period_stays_ordered_whatever_is_typed_or_picked() {
    let mut page = Reservations::starting_on(true, date(2024, 3, 1));
    page.update(Message::UpdateDateField(date(2024, 3, 15), ReservationDateInputFields::FilterInitialDate));
    assert_eq!(page.date_filters.initial_date, date(2024, 3, 1));
    page.update(Message::TextInputUpdate(String::from("2024-03-15"), ReservationTextInputFields::FilterLastDate));
    page.update(Message::TextInputUpdate(String::from("2024-03-15"), ReservationTextInputFields::FilterInitialDate));
    let action = page.update(Message::FetchReservations);
    assert!(action.tasks.is_empty());
    assert_eq!(page.date_filters.initial_date, date(2024, 3, 1));
    assert_eq!(page.date_filters.last_date, date(2024, 3, 15));
}
