use alegria::dates::CalendarDate;
use alegria::hotel::clients::{
    ClientDateInputFields, ClientTextInputFields, Clients, ClientsInstruction, ClientsPageMode,
    ClientsScreen, ClientsTask, Message, is_client_valid,
};
use alegria::models::Client;
use alegria::pagination::PaginationAction;

fn client(id: i32, name: &str, search: &str) -> Client {
    let mut c = Client::empty();
    c.id = Some(id);
    c.name = String::from(name);
    c.search_field = String::from(search);
    c
}

fn complete_client() -> Client {
    let mut c = Client::empty();
    c.identity_document_type_id = Some(1);
    c.identity_document = String::from("12345678Z");
    c.name = String::from("Ana");
    c.country = String::from("España");
    c
}

#[test]
fn the_required_fields_decide_the_first_form() {
    let c = complete_client();
    assert!(alegria::hotel_subscreens::clients::is_client_valid(&c));
    let mut missing = complete_client();
    missing.country = String::new();
    assert!(!alegria::hotel_subscreens::clients::is_client_valid(&missing));
    let mut no_type = complete_client();
    no_type.identity_document_type_id = None;
    assert!(!alegria::hotel_subscreens::clients::is_client_valid(&no_type));
}

#[test]
fn only_the_first_date_text_that_is_not_empty_is_checked() {
    let mut c = complete_client();
    assert!(is_client_valid(&c));
    c.identity_document_expedition_date_string = String::from("bad");
    assert!(!is_client_valid(&c));
    c.birthdate_string = String::from("1990-05-17");
    assert!(is_client_valid(&c));
    c.birthdate_string = String::from("1990-5-40");
    assert!(!is_client_valid(&c));
    c.name = String::new();
    c.birthdate_string = String::new();
    c.identity_document_expedition_date_string = String::new();
    assert!(!is_client_valid(&c));
}

#[test]
fn opening_the_page_loads_clients_types_and_genders() {
    let mut page = Clients::new(true, ClientsPageMode::Normal);
    let action = page.update(Message::InitPage);
    assert_eq!(action.tasks.len(), 3);
    assert!(matches!(action.tasks[0], ClientsTask::LoadClients));
    assert!(matches!(action.tasks[1], ClientsTask::LoadIdentityDocumentTypes));
    assert!(matches!(action.tasks[2], ClientsTask::LoadGenders));
    let mut offline = Clients::default();
    assert!(offline.update(Message::InitPage).tasks.is_empty());
}

#[test]
fn adding_a_client_reads_its_dates_before_storing_it() {
    let mut page = Clients::new(true, ClientsPageMode::Normal);
    page.update(Message::AskAddClient);
    assert_eq!(page.current_screen, ClientsScreen::AddEdit);
    let action = page.update(Message::AddCurrentClient);
    assert!(action.tasks.is_empty());

    page.update(Message::UpdatedSelectedDocumentTypeId(2));
    page.update(Message::TextInputUpdate(String::from("X1234567L"), ClientTextInputFields::IdentityDocument));
    page.update(Message::TextInputUpdate(String::from("Luis"), ClientTextInputFields::Name));
    page.update(Message::TextInputUpdate(String::from("Portugal"), ClientTextInputFields::Country));
    page.update(Message::TextInputUpdate(String::from("1985-2-3"), ClientTextInputFields::Birthdate));
    let action = page.update(Message::AddCurrentClient);
    assert_eq!(action.tasks.len(), 1);
    match &action.tasks[0] {
        ClientsTask::AddClient(c) => {
            assert_eq!(c.name, "Luis");
            assert_eq!(c.identity_document_type_id, Some(2));
            assert_eq!(c.birthdate, Some(CalendarDate { year: 1985, month: 2, day: 3 }));
            assert_eq!(c.identity_document_expedition_date, None);
        },
        other => panic!("unexpected task {:?}", other),
    }
    let action = page.update(Message::EditCurrentClient);
    assert!(action.tasks.is_empty());
}

#[test]
fn a_picked_date_fills_the_field_and_its_text() {
    let mut page = Clients::new(false, ClientsPageMode::Normal);
    page.update(Message::AskAddClient);
    page.update(Message::ShowDatePicker(ClientDateInputFields::Birthdate));
    assert!(page.show_birthdate_date_picker);
    page.update(Message::UpdateDateField(CalendarDate { year: 2001, month: 9, day: 11 }, ClientDateInputFields::Birthdate));
    let c = page.add_edit_client.as_ref().unwrap();
    assert_eq!(c.birthdate, Some(CalendarDate { year: 2001, month: 9, day: 11 }));
    assert_eq!(c.birthdate_string, "2001-9-11");
    assert!(!page.show_birthdate_date_picker);

    page.update(Message::ShowDatePicker(ClientDateInputFields::IdentityDocumentExpirationDate));
    page.update(Message::UpdateDateField(CalendarDate { year: 2001, month: 2, day: 30 }, ClientDateInputFields::IdentityDocumentExpirationDate));
    let c = page.add_edit_client.as_ref().unwrap();
    assert_eq!(c.identity_document_expiration_date, None);
    assert!(page.show_expiration_date_picker);
}

#[test]
fn cancelling_the_form_returns_to_the_list_and_refetches() {
    let mut page = Clients::new(true, ClientsPageMode::Normal);
    page.update(Message::SetAddEditClient(client(4, "Eva", "eva")));
    assert_eq!(page.current_screen, ClientsScreen::AddEdit);
    let action = page.update(Message::DeleteCurrentClient);
    assert!(matches!(action.tasks[0], ClientsTask::DeleteClient(4)));
    let action = page.update(Message::CancelClientOperation);
    assert_eq!(page.current_screen, ClientsScreen::List);
    assert!(page.add_edit_client.is_none());
    assert!(matches!(action.tasks[0], ClientsTask::LoadClients));
}

#[test]
fn search_keeps_the_matching_clients_ignoring_case() {
    let mut page = Clients::new(true, ClientsPageMode::Normal);
    page.update(Message::SetClients(vec![
        client(1, "Ana", "ANA GARCÍA 111"),
        client(2, "Juan", "juan pérez 222"),
        client(3, "Mariana", "mariana ruiz 333"),
    ]));
    page.update(Message::SearchUpdate(String::from("Ana")));
    let action = page.update(Message::SubmitSearch);
    assert!(action.tasks.is_empty());
    assert_eq!(page.clients.len(), 2);
    assert_eq!(page.clients[0].id, Some(1));
    assert_eq!(page.clients[1].id, Some(3));
    assert_eq!(page.clients_pagination_state.current_page(), 0);

    let action = page.update(Message::ClearSearch);
    assert_eq!(page.current_search, "");
    assert!(matches!(action.tasks[0], ClientsTask::LoadClients));
}

#[test]
fn an_empty_search_refetches_the_clients() {
    let mut page = Clients::new(true, ClientsPageMode::Normal);
    let action = page.update(Message::SubmitSearch);
    assert!(matches!(action.tasks[0], ClientsTask::LoadClients));
}

#[test]
fn clients_are_selected_only_in_selection_mode() {
    let mut normal = Clients::new(true, ClientsPageMode::Normal);
    assert!(normal.update(Message::ClientSelected(client(1, "Ana", "ana"))).instructions.is_empty());
    let mut selecting = Clients::new(true, ClientsPageMode::Selection);
    let action = selecting.update(Message::ClientSelected(client(1, "Ana", "ana")));
    assert!(matches!(&action.instructions[0], ClientsInstruction::ClientSelected(c) if c.id == Some(1)));
    let action = selecting.update(Message::AskSelectClient(7));
    assert!(matches!(action.tasks[0], ClientsTask::LoadClientToSelect(7)));
}

#[test]
fn client_pages_hold_ten_clients() {
    let mut page = Clients::new(true, ClientsPageMode::Normal);
    let mut list = Vec::new();
    for i in 0..11 {
        list.push(client(i, "c", "c"));
    }
    page.update(Message::SetClients(list));
    page.update(Message::ClientsPaginationAction(PaginationAction::Forward));
    assert_eq!(page.clients_pagination_state.current_page(), 1);
    page.update(Message::ClientsPaginationAction(PaginationAction::Forward));
    assert_eq!(page.clients_pagination_state.current_page(), 1);
    page.update(Message::ClientsPaginationAction(PaginationAction::Back));
    assert_eq!(page.clients_pagination_state.current_page(), 0);
}

#[test]
fn the_submit_button_edits_stored_clients_and_adds_new_ones() {
    let mut page = Clients::new(false, ClientsPageMode::Normal);
    assert!(page.submit_message().is_none());
    page.update(Message::AskAddClient);
    assert!(matches!(page.submit_message(), Some(Message::AddCurrentClient)));
    page.update(Message::SetAddEditClient(client(4, "Ana", "ana")));
    assert!(matches!(page.submit_message(), Some(Message::EditCurrentClient)));
}
