//! The clients page of the hotel: the list of clients, ten to a page, with a
//! search box, and the form that adds, edits or deletes a client. Opened from
//! the reservation form, the page is in selection mode and a click on a
//! client hands it back to the form.

mod update;

use vstd::prelude::*;
use crate::action::{ActionView, instructions_only, no_action, tasks_only};
use crate::dates::{CalendarDate, check_date_format, date_format_ok, is_valid_ymd, parsed_date, plain_date};
use crate::hotel_subscreens::clients::has_required_fields;
use crate::models::{Client, ClientView, Gender, IdentityDocumentTypeRecord, NamedRecordView, empty_client};
use crate::pagination::{PaginationAction, PaginationConfig};
use crate::text::{lowercase, occurs_in};

verus! {

/// Whether the page lists clients to edit them or to pick one.
#[derive(Clone, Copy, Debug, PartialEq, Eq, Structural)]
pub enum ClientsPageMode {
    Normal,
    Selection,
}

/// The view the page shows.
#[derive(Clone, Copy, Debug, PartialEq, Eq, Structural)]
pub enum ClientsScreen {
    List,
    AddEdit,
}

/// The text fields of the client form.
#[derive(Clone, Copy, Debug, PartialEq, Eq, Structural)]
pub enum ClientTextInputFields {
    IdentityDocument,
    Name,
    FirstSurname,
    SecondSurname,
    Address,
    PostalCode,
    City,
    Province,
    Country,
    Nationality,
    PhoneNumber,
    MobilePhone,
    IdentityDocumentExpeditionDate,
    IdentityDocumentExpirationDate,
    Birthdate,
}

/// The date fields of the client form.
#[derive(Clone, Copy, Debug, PartialEq, Eq, Structural)]
pub enum ClientDateInputFields {
    IdentityDocumentExpeditionDate,
    IdentityDocumentExpirationDate,
    Birthdate,
}

/// The state of the clients page.
#[derive(Debug)]
pub struct Clients {
    /// Whether the application has a database to work with
    pub has_database: bool,
    /// Determines which is the current mode of the subscreen
    pub page_mode: ClientsPageMode,
    /// Determines which is the current view of the subscreen
    pub current_screen: ClientsScreen,
    /// Holds the state of all the clients
    pub clients: Vec<Client>,
    /// Holds the state of all the identity document types, needed for the document type selector
    pub identity_document_types: Vec<IdentityDocumentTypeRecord>,
    /// Holds the state of all the genders, needed for the gender selector
    pub genders: Vec<Gender>,
    /// Holds the state of the current editing/adding Client
    pub add_edit_client: Option<Client>,
    /// Controls wether or not the expedition date picker should be shown
    pub show_expedition_date_picker: bool,
    /// Controls wether or not the expiration date picker should be shown
    pub show_expiration_date_picker: bool,
    /// Controls wether or not the birthdate date picker should be shown
    pub show_birthdate_date_picker: bool,
    /// Holds the pagination state and config for the clients list
    pub clients_pagination_state: PaginationConfig,
    /// Search Bar value
    pub current_search: String,
}

pub struct ClientsView {
    pub has_database: bool,
    pub page_mode: ClientsPageMode,
    pub current_screen: ClientsScreen,
    pub clients: Seq<ClientView>,
    pub identity_document_types: Seq<NamedRecordView>,
    pub genders: Seq<NamedRecordView>,
    pub add_edit_client: Option<ClientView>,
    pub show_expedition_date_picker: bool,
    pub show_expiration_date_picker: bool,
    pub show_birthdate_date_picker: bool,
    pub page: PaginationConfig,
    pub current_search: Seq<char>,
}

impl View for Clients {
    type V = ClientsView;

    open spec fn view(&self) -> ClientsView {
        ClientsView {
            has_database: self.has_database,
            page_mode: self.page_mode,
            current_screen: self.current_screen,
            clients: self.clients.deep_view(),
            identity_document_types: self.identity_document_types.deep_view(),
            genders: self.genders.deep_view(),
            add_edit_client: self.add_edit_client.deep_view(),
            show_expedition_date_picker: self.show_expedition_date_picker,
            show_expiration_date_picker: self.show_expiration_date_picker,
            show_birthdate_date_picker: self.show_birthdate_date_picker,
            page: self.clients_pagination_state,
            current_search: self.current_search@,
        }
    }
}

/// The messages of the clients page.
#[derive(Debug)]
pub enum Message {
    /// Asks the parent to go back
    Back,
    /// Tells the parent a client has been selected
    ClientSelected(Client),
    /// Fetches all the current clients
    FetchClients,
    /// Sets the clients
    SetClients(Vec<Client>),
    /// Asks for the data of the page when it opens
    InitPage,
    /// Sets the identity document types
    SetIdentityDocumentTypes(Vec<IdentityDocumentTypeRecord>),
    /// Sets the genders
    SetGenders(Vec<Gender>),
    /// Opens the form on the given client
    SetAddEditClient(Client),
    /// Asks to edit the client with the given id
    AskEditClient(i32),
    /// Asks to select the client with the given id
    AskSelectClient(i32),
    /// Opens the form on a new client
    AskAddClient,
    /// Leaves the form without saving
    CancelClientOperation,
    /// New text for a field of the form
    TextInputUpdate(String, ClientTextInputFields),
    /// A new identity document type for the client of the form
    UpdatedSelectedDocumentTypeId(i32),
    /// A new gender for the client of the form
    UpdatedSelectedGenderId(i32),
    /// Shows the given date picker
    ShowDatePicker(ClientDateInputFields),
    /// Closes the date pickers
    CancelDateOperation,
    /// The day a date picker returned (not necessarily a day that exists)
    UpdateDateField(CalendarDate, ClientDateInputFields),
    /// Tries to add the client of the form
    AddCurrentClient,
    /// Tries to store the edited client of the form
    EditCurrentClient,
    /// Tries to delete the client of the form
    DeleteCurrentClient,
    /// The client of the form was added, stored or deleted
    ModifiedCurrentClient,
    /// Goes to the previous or the next page of the list
    ClientsPaginationAction(PaginationAction),
    /// New text in the search box
    SearchUpdate(String),
    /// The search box was submitted
    SubmitSearch,
    /// Clears the search box
    ClearSearch,
}

/// What the page asks of its parent.
#[derive(Debug)]
pub enum ClientsInstruction {
    /// Asks the parent to go back
    Back,
    /// Tells the parent a client has been selected
    ClientSelected(Client),
}

pub enum ClientsInstructionView {
    Back,
    ClientSelected(ClientView),
}

impl DeepView for ClientsInstruction {
    type V = ClientsInstructionView;

    open spec fn deep_view(&self) -> ClientsInstructionView {
        match self {
            ClientsInstruction::Back => ClientsInstructionView::Back,
            ClientsInstruction::ClientSelected(c) => ClientsInstructionView::ClientSelected(c@),
        }
    }
}

/// The outside work the clients page asks for.
#[derive(Debug)]
pub enum ClientsTask {
    /// Load all the clients, answered by `SetClients`
    LoadClients,
    /// Load the identity document types, answered by `SetIdentityDocumentTypes`
    LoadIdentityDocumentTypes,
    /// Load the genders, answered by `SetGenders`
    LoadGenders,
    /// Load a client, answered by `SetAddEditClient`
    LoadClientToEdit(i32),
    /// Load a client, answered by `ClientSelected`
    LoadClientToSelect(i32),
    /// Add a client, answered by `ModifiedCurrentClient` (or
    /// `CancelClientOperation` on failure)
    AddClient(Client),
    /// Store an edited client, answered as `AddClient`
    EditClient(Client),
    /// Delete a client, answered as `AddClient`
    DeleteClient(i32),
}

pub enum ClientsTaskView {
    LoadClients,
    LoadIdentityDocumentTypes,
    LoadGenders,
    LoadClientToEdit(i32),
    LoadClientToSelect(i32),
    AddClient(ClientView),
    EditClient(ClientView),
    DeleteClient(i32),
}

impl DeepView for ClientsTask {
    type V = ClientsTaskView;

    open spec fn deep_view(&self) -> ClientsTaskView {
        match self {
            ClientsTask::LoadClients => ClientsTaskView::LoadClients,
            ClientsTask::LoadIdentityDocumentTypes => ClientsTaskView::LoadIdentityDocumentTypes,
            ClientsTask::LoadGenders => ClientsTaskView::LoadGenders,
            ClientsTask::LoadClientToEdit(id) => ClientsTaskView::LoadClientToEdit(*id),
            ClientsTask::LoadClientToSelect(id) => ClientsTaskView::LoadClientToSelect(*id),
            ClientsTask::AddClient(c) => ClientsTaskView::AddClient(c@),
            ClientsTask::EditClient(c) => ClientsTaskView::EditClient(c@),
            ClientsTask::DeleteClient(id) => ClientsTaskView::DeleteClient(*id),
        }
    }
}

pub type ClientsAction = crate::action::AlegriaAction<ClientsInstruction, ClientsTask>;

pub type ClientsActionView = ActionView<ClientsInstructionView, ClientsTaskView>;

// ---------------------------------------------------------------------------
// What each message does, over the views
// ---------------------------------------------------------------------------

/// A client that the form accepts: the required fields are there and the
/// first date text that is not empty (birthdate, then expedition, then
/// expiration of the identity document) has the form's date format.
pub open spec fn client_valid(c: ClientView) -> bool {
    &&& has_required_fields(c)
    &&& if c.birthdate_string.len() > 0 {
        date_format_ok(c.birthdate_string)
    } else if c.identity_document_expedition_date_string.len() > 0 {
        date_format_ok(c.identity_document_expedition_date_string)
    } else if c.identity_document_expiration_date_string.len() > 0 {
        date_format_ok(c.identity_document_expiration_date_string)
    } else {
        true
    }
}

/// Checks the client of the form before it is stored: the required fields
/// are there and the first date text that is not empty has the date format.
pub fn is_client_valid(client: &Client) -> (valid: bool)
    ensures
        valid == client_valid(client@),
        client@.identity_document_type_id is None ==> !valid,
        client@.identity_document.len() == 0 ==> !valid,
        client@.name.len() == 0 ==> !valid,
        client@.country.len() == 0 ==> !valid,
        client@.birthdate_string.len() > 0 && !date_format_ok(client@.birthdate_string) ==> !valid,
        client@.birthdate_string.len() == 0 && client@.identity_document_expedition_date_string.len() > 0
            && !date_format_ok(client@.identity_document_expedition_date_string) ==> !valid,
{
    if !crate::hotel_subscreens::clients::is_client_valid(client) {
        return false;
    }
    if !client.birthdate_string.as_str().is_empty() {
        return check_date_format(client.birthdate_string.as_str());
    }
    if !client.identity_document_expedition_date_string.as_str().is_empty() {
        return check_date_format(client.identity_document_expedition_date_string.as_str());
    }
    if !client.identity_document_expiration_date_string.as_str().is_empty() {
        return check_date_format(client.identity_document_expiration_date_string.as_str());
    }
    true
}

/// The client with a text field set to `v`.
pub open spec fn with_text(c: ClientView, field: ClientTextInputFields, v: Seq<char>) -> ClientView {
    match field {
        ClientTextInputFields::IdentityDocument => ClientView { identity_document: v, ..c },
        ClientTextInputFields::Name => ClientView { name: v, ..c },
        ClientTextInputFields::FirstSurname => ClientView { first_surname: v, ..c },
        ClientTextInputFields::SecondSurname => ClientView { second_surname: v, ..c },
        ClientTextInputFields::Address => ClientView { address: v, ..c },
        ClientTextInputFields::PostalCode => ClientView { postal_code: v, ..c },
        ClientTextInputFields::City => ClientView { city: v, ..c },
        ClientTextInputFields::Province => ClientView { province: v, ..c },
        ClientTextInputFields::Country => ClientView { country: v, ..c },
        ClientTextInputFields::Nationality => ClientView { nationality: v, ..c },
        ClientTextInputFields::PhoneNumber => ClientView { phone_number: v, ..c },
        ClientTextInputFields::MobilePhone => ClientView { mobile_phone: v, ..c },
        ClientTextInputFields::IdentityDocumentExpeditionDate => ClientView {
            identity_document_expedition_date_string: v,
            ..c
        },
        ClientTextInputFields::IdentityDocumentExpirationDate => ClientView {
            identity_document_expiration_date_string: v,
            ..c
        },
        ClientTextInputFields::Birthdate => ClientView { birthdate_string: v, ..c },
    }
}

/// The client with a date field set to `d`, its text left as it is.
pub open spec fn with_date(c: ClientView, field: ClientDateInputFields, d: Option<CalendarDate>) -> ClientView {
    match field {
        ClientDateInputFields::IdentityDocumentExpeditionDate => ClientView {
            identity_document_expedition_date: d,
            ..c
        },
        ClientDateInputFields::IdentityDocumentExpirationDate => ClientView {
            identity_document_expiration_date: d,
            ..c
        },
        ClientDateInputFields::Birthdate => ClientView { birthdate: d, ..c },
    }
}

/// The client with a date field set to `d` and its text to `year-month-day`.
pub open spec fn with_picked_date(c: ClientView, field: ClientDateInputFields, d: CalendarDate) -> ClientView {
    let c2 = with_date(c, field, Some(d));
    match field {
        ClientDateInputFields::IdentityDocumentExpeditionDate => ClientView {
            identity_document_expedition_date_string: plain_date(d),
            ..c2
        },
        ClientDateInputFields::IdentityDocumentExpirationDate => ClientView {
            identity_document_expiration_date_string: plain_date(d),
            ..c2
        },
        ClientDateInputFields::Birthdate => ClientView { birthdate_string: plain_date(d), ..c2 },
    }
}

/// The client with its three dates read from their texts.
pub open spec fn with_parsed_dates(c: ClientView) -> ClientView {
    ClientView {
        birthdate: parsed_date(c.birthdate_string),
        identity_document_expedition_date: parsed_date(c.identity_document_expedition_date_string),
        identity_document_expiration_date: parsed_date(c.identity_document_expiration_date_string),
        ..c
    }
}

/// The page with `c` as the client of the form, when the form is open.
pub open spec fn map_form(s: ClientsView, c: ClientView) -> ClientsView {
    match s.add_edit_client {
        Some(_) => ClientsView { add_edit_client: Some(c), ..s },
        None => s,
    }
}

/// The tasks that fetch the clients again.
pub open spec fn fetch_clients_tasks(s: ClientsView) -> Seq<ClientsTaskView> {
    if s.has_database {
        seq![ClientsTaskView::LoadClients]
    } else {
        Seq::empty()
    }
}

/// A task only when there is a database.
pub open spec fn db_task(s: ClientsView, t: ClientsTaskView) -> ClientsActionView {
    if s.has_database {
        tasks_only(seq![t])
    } else {
        no_action()
    }
}

/// The search text occurs in the client's search field, both lower-cased.
pub open spec fn search_matches(search: Seq<char>) -> spec_fn(ClientView) -> bool {
    |c: ClientView| occurs_in(lowercase(search), lowercase(c.search_field))
}

/// The first page, ten clients to a page.
pub open spec fn first_clients_page() -> PaginationConfig {
    PaginationConfig { items_per_page: 10, current_page: 0 }
}

/// Back to the list, which is fetched again.
pub open spec fn back_to_list(s: ClientsView) -> (ClientsView, ClientsActionView) {
    let s2 = ClientsView { add_edit_client: None, current_screen: ClientsScreen::List, ..s };
    (s2, tasks_only(fetch_clients_tasks(s2)))
}

/// `UpdateDateField`: a day that exists goes into the field (and its text)
/// and closes the pickers; any other empties the field.
pub open spec fn date_field_step(s: ClientsView, d: CalendarDate, field: ClientDateInputFields) -> ClientsView {
    match s.add_edit_client {
        None => s,
        Some(c) => if is_valid_ymd(d.year as int, d.month as int, d.day as int) {
            ClientsView {
                add_edit_client: Some(with_picked_date(c, field, d)),
                show_expedition_date_picker: false,
                show_expiration_date_picker: false,
                show_birthdate_date_picker: false,
                ..s
            }
        } else {
            ClientsView { add_edit_client: Some(with_date(c, field, None)), ..s }
        },
    }
}

/// `AddCurrentClient` and `EditCurrentClient`: a valid client (new when
/// adding, stored when editing) gets its dates read from their texts and is
/// handed to the database.
pub open spec fn save_step(s: ClientsView, adding: bool) -> (ClientsView, ClientsActionView) {
    match s.add_edit_client {
        None => (s, no_action()),
        Some(c) => if client_valid(c) && (c.id is None) == adding {
            let c2 = with_parsed_dates(c);
            (
                ClientsView { add_edit_client: Some(c2), ..s },
                db_task(
                    s,
                    if adding {
                        ClientsTaskView::AddClient(c2)
                    } else {
                        ClientsTaskView::EditClient(c2)
                    },
                ),
            )
        } else {
            (s, no_action())
        },
    }
}

/// What a message does to the clients page, and the work it asks for.
pub open spec fn clients_step(s: ClientsView, m: Message) -> (ClientsView, ClientsActionView) {
    match m {
        Message::Back => (s, instructions_only(seq![ClientsInstructionView::Back])),
        Message::ClientSelected(c) => if s.page_mode == ClientsPageMode::Selection {
            (s, instructions_only(seq![ClientsInstructionView::ClientSelected(c@)]))
        } else {
            (s, no_action())
        },
        Message::FetchClients => (s, tasks_only(fetch_clients_tasks(s))),
        Message::SetClients(v) => (ClientsView { clients: v.deep_view(), ..s }, no_action()),
        Message::InitPage => (
            s,
            if s.has_database {
                tasks_only(
                    seq![
                        ClientsTaskView::LoadClients,
                        ClientsTaskView::LoadIdentityDocumentTypes,
                        ClientsTaskView::LoadGenders,
                    ],
                )
            } else {
                no_action()
            },
        ),
        Message::SetIdentityDocumentTypes(v) => (
            ClientsView { identity_document_types: v.deep_view(), ..s },
            no_action(),
        ),
        Message::SetGenders(v) => (ClientsView { genders: v.deep_view(), ..s }, no_action()),
        Message::SetAddEditClient(c) => (
            ClientsView { add_edit_client: Some(c@), current_screen: ClientsScreen::AddEdit, ..s },
            no_action(),
        ),
        Message::AskEditClient(id) => (s, db_task(s, ClientsTaskView::LoadClientToEdit(id))),
        Message::AskSelectClient(id) => (s, db_task(s, ClientsTaskView::LoadClientToSelect(id))),
        Message::AskAddClient => (
            ClientsView {
                add_edit_client: Some(empty_client()),
                current_screen: ClientsScreen::AddEdit,
                ..s
            },
            no_action(),
        ),
        Message::CancelClientOperation => back_to_list(s),
        Message::TextInputUpdate(v, field) => match s.add_edit_client {
            Some(c) => (map_form(s, with_text(c, field, v@)), no_action()),
            None => (s, no_action()),
        },
        Message::UpdatedSelectedDocumentTypeId(id) => match s.add_edit_client {
            Some(c) => (
                map_form(s, ClientView { identity_document_type_id: Some(id), ..c }),
                no_action(),
            ),
            None => (s, no_action()),
        },
        Message::UpdatedSelectedGenderId(id) => match s.add_edit_client {
            Some(c) => (map_form(s, ClientView { gender_id: Some(id), ..c }), no_action()),
            None => (s, no_action()),
        },
        Message::ShowDatePicker(field) => (
            match field {
                ClientDateInputFields::IdentityDocumentExpeditionDate => ClientsView {
                    show_expedition_date_picker: true,
                    ..s
                },
                ClientDateInputFields::IdentityDocumentExpirationDate => ClientsView {
                    show_expiration_date_picker: true,
                    ..s
                },
                ClientDateInputFields::Birthdate => ClientsView {
                    show_birthdate_date_picker: true,
                    ..s
                },
            },
            no_action(),
        ),
        Message::CancelDateOperation => (
            ClientsView {
                show_expedition_date_picker: false,
                show_expiration_date_picker: false,
                show_birthdate_date_picker: false,
                ..s
            },
            no_action(),
        ),
        Message::UpdateDateField(d, field) => (date_field_step(s, d, field), no_action()),
        Message::AddCurrentClient => save_step(s, true),
        Message::EditCurrentClient => save_step(s, false),
        Message::DeleteCurrentClient => match s.add_edit_client {
            Some(c) => match c.id {
                Some(id) => (s, db_task(s, ClientsTaskView::DeleteClient(id))),
                None => (s, no_action()),
            },
            None => (s, no_action()),
        },
        Message::ModifiedCurrentClient => back_to_list(s),
        Message::ClientsPaginationAction(a) => (
            ClientsView { page: s.page.after(a, s.clients.len()), ..s },
            no_action(),
        ),
        Message::SearchUpdate(v) => (ClientsView { current_search: v@, ..s }, no_action()),
        Message::SubmitSearch => if s.current_search.len() == 0 {
            (s, tasks_only(fetch_clients_tasks(s)))
        } else {
            (
                ClientsView {
                    clients: s.clients.filter(search_matches(s.current_search)),
                    page: first_clients_page(),
                    ..s
                },
                no_action(),
            )
        },
        Message::ClearSearch => {
            let s2 = ClientsView {
                current_search: Seq::empty(),
                page: first_clients_page(),
                ..s
            };
            (s2, tasks_only(fetch_clients_tasks(s2)))
        },
    }
}

/// The inputs on which a message would panic are left out: a page step whose
/// arithmetic overflows `i32`.
pub open spec fn clients_message_allowed(s: ClientsView, m: Message) -> bool {
    match m {
        Message::ClientsPaginationAction(a) => a.goes_forward() ==> s.page.can_step_forward(),
        _ => true,
    }
}

/// The clients page as it opens: the list, no clients and no form.
pub open spec fn initial_clients(has_database: bool, page_mode: ClientsPageMode) -> ClientsView {
    ClientsView {
        has_database,
        page_mode,
        current_screen: ClientsScreen::List,
        clients: Seq::empty(),
        identity_document_types: Seq::empty(),
        genders: Seq::empty(),
        add_edit_client: None,
        show_expedition_date_picker: false,
        show_expiration_date_picker: false,
        show_birthdate_date_picker: false,
        page: first_clients_page(),
        current_search: Seq::empty(),
    }
}

} // verus!
