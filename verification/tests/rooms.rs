use alegria::hotel::room_types::{
    Message as RoomTypesMessage, RoomTypeTextInputFields, RoomTypes, RoomTypesInstruction,
    RoomTypesScreen, RoomTypesTask,
};
use alegria::hotel::rooms::{Message, RoomTextInputFields, Rooms, RoomsInstruction, RoomsScreen, RoomsTask};
use alegria::models::Room;
use alegria::pagination::PaginationAction;

#[test]
fn a_room_needs_a_name_and_a_type() {
    let mut page = Rooms::clean_state(true);
    page.update(Message::AskAddRoom);
    assert_eq!(page.current_screen, RoomsScreen::AddEdit);
    assert!(page.update(Message::AddCurrentRoom).tasks.is_empty());
    page.update(Message::TextInputUpdate(String::from("101"), RoomTextInputFields::Name));
    assert!(page.update(Message::AddCurrentRoom).tasks.is_empty());
    page.update(Message::UpdatedSelectedRoomTypeId(3));
    let action = page.update(Message::AddCurrentRoom);
    match &action.tasks[0] {
        RoomsTask::AddRoom(r) => {
            assert_eq!(r.name, "101");
            assert_eq!(r.room_type_id, Some(3));
        },
        other => panic!("unexpected task {:?}", other),
    }
    assert!(page.update(Message::EditCurrentRoom).tasks.is_empty());
    assert!(page.update(Message::DeleteCurrentRoom).tasks.is_empty());
}

#[test]
fn stored_rooms_can_be_edited_and_deleted() {
    let mut page = Rooms::clean_state(true);
    let mut room = Room::empty();
    room.id = Some(8);
    room.name = String::from("Suite");
    room.room_type_id = Some(1);
    page.update(Message::AskEditRoom(room));
    assert!(matches!(page.update(Message::EditCurrentRoom).tasks[0], RoomsTask::EditRoom(_)));
    assert!(matches!(page.update(Message::DeleteCurrentRoom).tasks[0], RoomsTask::DeleteRoom(8)));
    let action = page.update(Message::ModifiedCurrentRoom);
    assert_eq!(page.current_screen, RoomsScreen::List);
    assert!(page.add_edit_room.is_none());
    assert!(matches!(action.tasks[0], RoomsTask::LoadRooms));
}

#[test]
fn rooms_back_and_pages() {
    let mut page = Rooms::default();
    let action = page.update(Message::Back);
    assert_eq!(action.instructions[0], RoomsInstruction::Back);
    assert!(page.update(Message::FetchRooms).tasks.is_empty());
    page.update(Message::PaginationAction(PaginationAction::Forward));
    assert_eq!(page.pagination_state.current_page(), 0);
}

#[test]
fn room_type_prices_keep_two_decimals() {
    let mut page = RoomTypes::clean_state(true);
    page.update(RoomTypesMessage::AskAddRoomType);
    assert_eq!(page.current_screen, RoomTypesScreen::AddEdit);
    page.update(RoomTypesMessage::TextInputUpdate(String::from("Doble"), RoomTypeTextInputFields::Name, None));
    assert!(page.update(RoomTypesMessage::AddCurrentRoomType).tasks.is_empty());
    page.update(RoomTypesMessage::TextInputUpdate(String::from("45.50"), RoomTypeTextInputFields::Price, Some(45.5f32.to_bits())));
    page.update(RoomTypesMessage::TextInputUpdate(String::from("45.505"), RoomTypeTextInputFields::Price, Some(45.505f32.to_bits())));
    let rt = page.add_edit_room_type.as_ref().unwrap();
    assert_eq!(rt.price_input, "45.50");
    assert_eq!(rt.price_bits, Some(45.5f32.to_bits()));
    page.update(RoomTypesMessage::TextInputUpdate(String::from("45.5x"), RoomTypeTextInputFields::Price, None));
    assert_eq!(page.add_edit_room_type.as_ref().unwrap().price_input, "45.50");
    page.update(RoomTypesMessage::TextInputUpdate(String::new(), RoomTypeTextInputFields::Price, None));
    assert_eq!(page.add_edit_room_type.as_ref().unwrap().price_bits, Some(0));
    let action = page.update(RoomTypesMessage::AddCurrentRoomType);
    assert!(matches!(&action.tasks[0], RoomTypesTask::AddRoomType(r) if r.name == "Doble"));
    let action = page.update(RoomTypesMessage::Back);
    assert_eq!(action.instructions[0], RoomTypesInstruction::Back);
}

#[test]
fn the_submit_buttons_edit_stored_rooms_and_add_new_ones() {
    let mut page = Rooms::clean_state(false);
    assert!(page.submit_message().is_none());
    page.update(Message::AskAddRoom);
    assert!(matches!(page.submit_message(), Some(Message::AddCurrentRoom)));
    let mut room = Room::empty();
    room.id = Some(8);
    page.update(Message::AskEditRoom(room));
    assert!(matches!(page.submit_message(), Some(Message::EditCurrentRoom)));

    let mut types = RoomTypes::clean_state(false);
    assert!(types.submit_message().is_none());
    types.update(RoomTypesMessage::AskAddRoomType);
    assert!(matches!(types.submit_message(), Some(RoomTypesMessage::AddCurrentRoomType)));
}

#[test]
fn the_submit_button_edits_stored_room_types() {
    let mut types = RoomTypes::clean_state(false);
    let mut room_type = alegria::models::RoomType::empty();
    room_type.id = Some(2);
    types.update(RoomTypesMessage::AskEditRoomType(room_type));
    assert!(matches!(types.submit_message(), Some(RoomTypesMessage::EditCurrentRoomType)));
}
