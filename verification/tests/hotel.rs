use alegria::dates::CalendarDate;
use alegria::hotel::clients::{ClientsTask, Message as ClientsMessage};
use alegria::hotel::reservations::{Message as ReservationsMessage, ReservationsTask};
use alegria::hotel::rooms::{Message as RoomsMessage, RoomsTask};
use alegria::hotel::room_types::RoomTypesTask;
use alegria::hotel::{Hotel, HotelInstruction, HotelTask, Message, SubScreen};

#[test]
fn opening_a_page_asks_for_its_data() {
    let day = CalendarDate { year: 2024, month: 3, day: 1 };
    let mut hotel = Hotel::starting_on(true, day);
    let action = hotel.update_on(Message::ChangeSubScreen(SubScreen::Rooms), day);
    assert_eq!(hotel.sub_screen, SubScreen::Rooms);
    assert_eq!(action.tasks.len(), 2);
    assert!(matches!(action.tasks[0], HotelTask::Rooms(RoomsTask::LoadRooms)));
    assert!(matches!(action.tasks[1], HotelTask::Rooms(RoomsTask::LoadRoomTypes)));

    let action = hotel.update_on(Message::ChangeSubScreen(SubScreen::RoomTypes), day);
    assert!(matches!(action.tasks[0], HotelTask::RoomTypes(RoomTypesTask::LoadRoomTypes)));
    let action = hotel.update_on(Message::ChangeSubScreen(SubScreen::Clients), day);
    assert_eq!(action.tasks.len(), 3);
    assert!(matches!(action.tasks[2], HotelTask::Clients(ClientsTask::LoadGenders)));
    let action = hotel.update_on(Message::ChangeSubScreen(SubScreen::Reservations), day);
    assert!(matches!(action.tasks[0], HotelTask::Reservations(ReservationsTask::LoadReservations(_, _))));
}

#[test]
fn a_page_that_goes_back_returns_to_the_home_page() {
    let day = CalendarDate { year: 2024, month: 3, day: 1 };
    let mut hotel = Hotel::starting_on(true, day);
    hotel.update_on(Message::ChangeSubScreen(SubScreen::Rooms), day);
    hotel.update_on(Message::Rooms(RoomsMessage::AskAddRoom), day);
    assert!(hotel.rooms.add_edit_room.is_some());
    let action = hotel.update_on(Message::Rooms(RoomsMessage::Back), day);
    assert!(action.instructions.is_empty());
    assert_eq!(hotel.sub_screen, SubScreen::Home);
    assert!(hotel.rooms.add_edit_room.is_none());

    hotel.update_on(Message::ChangeSubScreen(SubScreen::Clients), day);
    hotel.update_on(Message::Clients(ClientsMessage::Back), day);
    assert_eq!(hotel.sub_screen, SubScreen::Home);

    let later = CalendarDate { year: 2024, month: 4, day: 1 };
    hotel.update_on(Message::ChangeSubScreen(SubScreen::Reservations), day);
    hotel.update_on(Message::Reservations(ReservationsMessage::Back), later);
    assert_eq!(hotel.sub_screen, SubScreen::Home);
    assert_eq!(hotel.reservations.date_filters.initial_date, later);

    let action = hotel.update(Message::Back);
    assert_eq!(action.instructions[0], HotelInstruction::Back);
}

#[test]
fn the_database_reaches_every_page() {
    let day = CalendarDate { year: 2024, month: 3, day: 1 };
    let mut hotel = Hotel::starting_on(false, day);
    let action = hotel.update_on(Message::ChangeSubScreen(SubScreen::Rooms), day);
    assert!(action.tasks.is_empty());
    hotel.set_database(true);
    assert!(hotel.rooms.has_database && hotel.clients.has_database);
    assert!(hotel.reservations.has_database && hotel.room_types.has_database);
    let action = hotel.update_on(Message::ChangeSubScreen(SubScreen::Rooms), day);
    assert_eq!(action.tasks.len(), 2);
    let fresh = Hotel::init();
    assert!(!fresh.has_database);
    assert_eq!(fresh.sub_screen, SubScreen::Home);
}
