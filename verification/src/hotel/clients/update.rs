//! The clients page's state machine.

use vstd::prelude::*;
use crate::action::AlegriaAction;
use crate::dates::{CalendarDate, date_from_ymd, parse_date_to_naive_datetime, plain_date_string};
use crate::models::{Client, Duplicate, Gender, IdentityDocumentTypeRecord};
use crate::pagination::PaginationConfig;
use crate::text::{contains_text, to_lowercase};
use super::{
    ClientDateInputFields, ClientTextInputFields, Clients, ClientsAction, ClientsInstruction,
    ClientsPageMode, ClientsScreen, ClientsTask, Message, clients_message_allowed, clients_step,
    first_clients_page, initial_clients, is_client_valid, search_matches, with_date,
    with_parsed_dates, with_picked_date, with_text,
};

verus! {

/// Sets a text field of a client.
fn set_text(c: &mut Client, field: ClientTextInputFields, v: String)
    ensures
        final(c)@ == with_text(old(c)@, field, v@),
{
    match field {
        ClientTextInputFields::IdentityDocument => c.identity_document = v,
        ClientTextInputFields::Name => c.name = v,
        ClientTextInputFields::FirstSurname => c.first_surname = v,
        ClientTextInputFields::SecondSurname => c.second_surname = v,
        ClientTextInputFields::Address => c.address = v,
        ClientTextInputFields::PostalCode => c.postal_code = v,
        ClientTextInputFields::City => c.city = v,
        ClientTextInputFields::Province => c.province = v,
        ClientTextInputFields::Country => c.country = v,
        ClientTextInputFields::Nationality => c.nationality = v,
        ClientTextInputFields::PhoneNumber => c.phone_number = v,
        ClientTextInputFields::MobilePhone => c.mobile_phone = v,
        ClientTextInputFields::IdentityDocumentExpeditionDate => {
            c.identity_document_expedition_date_string = v
        },
        ClientTextInputFields::IdentityDocumentExpirationDate => {
            c.identity_document_expiration_date_string = v
        },
        ClientTextInputFields::Birthdate => c.birthdate_string = v,
    }
}

/// Sets a date field of a client, leaving its text.
fn set_date(c: &mut Client, field: ClientDateInputFields, d: Option<CalendarDate>)
    ensures
        final(c)@ == with_date(old(c)@, field, d),
{
    match field {
        ClientDateInputFields::IdentityDocumentExpeditionDate => {
            c.identity_document_expedition_date = d
        },
        ClientDateInputFields::IdentityDocumentExpirationDate => {
            c.identity_document_expiration_date = d
        },
        ClientDateInputFields::Birthdate => c.birthdate = d,
    }
}

/// Sets a date field of a client and its text to `year-month-day`.
fn set_picked_date(c: &mut Client, field: ClientDateInputFields, d: CalendarDate)
    ensures
        final(c)@ == with_picked_date(old(c)@, field, d),
{
    set_date(c, field, Some(d));
    let text = plain_date_string(d);
    match field {
        ClientDateInputFields::IdentityDocumentExpeditionDate => {
            c.identity_document_expedition_date_string = text
        },
        ClientDateInputFields::IdentityDocumentExpirationDate => {
            c.identity_document_expiration_date_string = text
        },
        ClientDateInputFields::Birthdate => c.birthdate_string = text,
    }
}

/// The clients whose search field holds the search text, both lower-cased,
/// in their order.
fn search_results(clients: &Vec<Client>, search: &String) -> (r: Vec<Client>)
    ensures
        r.deep_view() == clients.deep_view().filter(search_matches(search@)),
{
    let needle = to_lowercase(search.as_str());
    let ghost all = clients.deep_view();
    let ghost p = search_matches(search@);
    let mut r: Vec<Client> = Vec::new();
    let mut i: usize = 0;
    proof {
        reveal(Seq::filter);
    }
    assert(r.deep_view() =~= all.take(0).filter(p));
    while i < clients.len()
        invariant
            i <= clients@.len(),
            all == clients.deep_view(),
            p == search_matches(search@),
            needle@ == crate::text::lowercase(search@),
            r.deep_view() == all.take(i as int).filter(p),
        decreases clients@.len() - i,
    {
        proof {
            reveal(Seq::filter);
        }
        let hay = to_lowercase(clients[i].search_field.as_str());
        let ghost before = r.deep_view();
        assert(all.take(i + 1).drop_last() =~= all.take(i as int));
        assert(all.take(i + 1).last() == all[i as int]);
        assert(all[i as int] == clients@[i as int]@);
        let found = contains_text(hay.as_str(), needle.as_str());
        assert(found == p(all[i as int]));
        if found {
            let c = clients[i].duplicate();
            r.push(c);
            assert(r.deep_view() =~= before.push(all[i as int]));
        }
        assert(all.take(i + 1).filter(p) == (if p(all[i as int]) {
            all.take(i as int).filter(p).push(all[i as int])
        } else {
            all.take(i as int).filter(p)
        }));
        i = i + 1;
    }
    assert(all.take(clients@.len() as int) =~= all);
    r
}

/// The messages of the form.
spec fn form_message(m: Message) -> bool {
    ||| m is SetAddEditClient
    ||| m is AskEditClient
    ||| m is AskSelectClient
    ||| m is AskAddClient
    ||| m is CancelClientOperation
    ||| m is TextInputUpdate
    ||| m is UpdatedSelectedDocumentTypeId
    ||| m is UpdatedSelectedGenderId
    ||| m is ShowDatePicker
    ||| m is CancelDateOperation
    ||| m is UpdateDateField
    ||| m is AddCurrentClient
    ||| m is EditCurrentClient
    ||| m is DeleteCurrentClient
    ||| m is ModifiedCurrentClient
}

impl Clients {
    /// The clients page as it opens, in the given mode.
    pub fn new(has_database: bool, page_mode: ClientsPageMode) -> (c: Clients)
        ensures
            c@ == initial_clients(has_database, page_mode),
    {
        let c = Clients {
            has_database,
            page_mode,
            current_screen: ClientsScreen::List,
            clients: Vec::new(),
            identity_document_types: Vec::new(),
            genders: Vec::new(),
            add_edit_client: None,
            show_expedition_date_picker: false,
            show_expiration_date_picker: false,
            show_birthdate_date_picker: false,
            clients_pagination_state: PaginationConfig::new(10),
            current_search: String::new(),
        };
        assert(c@.clients =~= Seq::empty());
        assert(c@.identity_document_types =~= Seq::empty());
        assert(c@.genders =~= Seq::empty());
        c
    }

    /// The clients page as it opens with no database, listing clients to
    /// edit them (`Clients::default`).
    pub fn init() -> (c: Clients)
        ensures
            c@ == initial_clients(false, ClientsPageMode::Normal),
    {
        Clients::new(false, ClientsPageMode::Normal)
    }

    /// The clients page as it opens, keeping the database.
    pub fn clean_state(has_database: bool) -> (c: Clients)
        ensures
            c@ == initial_clients(has_database, ClientsPageMode::Normal),
    {
        Clients::new(has_database, ClientsPageMode::Normal)
    }

    /// The task that fetches the clients, when there is a database.
    fn fetch_clients(&self) -> (action: ClientsAction)
        ensures
            action@ == clients_step(self@, Message::FetchClients).1,
    {
        let mut action = AlegriaAction::new();
        if self.has_database {
            action.add_task(ClientsTask::LoadClients);
        }
        action
    }

    /// A task only when there is a database.
    fn db_task(&self, task: ClientsTask) -> (action: ClientsAction)
        ensures
            action@ == super::db_task(self@, task.deep_view()),
    {
        let mut action = AlegriaAction::new();
        if self.has_database {
            action.add_task(task);
        }
        action
    }

    /// Back to the list, which is fetched again.
    fn back_to_list(&mut self) -> (action: ClientsAction)
        ensures
            (final(self)@, action@) == super::back_to_list(old(self)@),
    {
        self.add_edit_client = None;
        self.current_screen = ClientsScreen::List;
        self.fetch_clients()
    }

    /// `UpdateDateField`.
    fn date_field(&mut self, d: CalendarDate, field: ClientDateInputFields)
        ensures
            final(self)@ == super::date_field_step(old(self)@, d, field),
    {
        match self.add_edit_client.take() {
            None => {},
            Some(mut c) => {
                match date_from_ymd(d.year, d.month, d.day) {
                    Some(date) => {
                        set_picked_date(&mut c, field, date);
                        self.show_expedition_date_picker = false;
                        self.show_expiration_date_picker = false;
                        self.show_birthdate_date_picker = false;
                    },
                    None => {
                        set_date(&mut c, field, None);
                    },
                }
                self.add_edit_client = Some(c);
            },
        }
    }

    /// `AddCurrentClient` (`adding`) and `EditCurrentClient`.
    fn save(&mut self, adding: bool) -> (action: ClientsAction)
        ensures
            (final(self)@, action@) == super::save_step(old(self)@, adding),
    {
        let mut action = AlegriaAction::new();
        match self.add_edit_client.take() {
            None => {},
            Some(mut c) => {
                if is_client_valid(&c) && c.id.is_none() == adding {
                    c.birthdate = parse_date_to_naive_datetime(c.birthdate_string.as_str());
                    c.identity_document_expedition_date = parse_date_to_naive_datetime(
                        c.identity_document_expedition_date_string.as_str(),
                    );
                    c.identity_document_expiration_date = parse_date_to_naive_datetime(
                        c.identity_document_expiration_date_string.as_str(),
                    );
                    if self.has_database {
                        let copy = c.duplicate();
                        if adding {
                            action.add_task(ClientsTask::AddClient(copy));
                        } else {
                            action.add_task(ClientsTask::EditClient(copy));
                        }
                    }
                }
                self.add_edit_client = Some(c);
            },
        }
        action
    }

    /// The messages that open, fill in and close the form.
    fn update_form(&mut self, message: Message) -> (action: ClientsAction)
        requires
            form_message(message),
        ensures
            (final(self)@, action@) == clients_step(old(self)@, message),
    {
        let mut action = AlegriaAction::new();
        match message {
            Message::SetAddEditClient(c) => {
                self.add_edit_client = Some(c);
                self.current_screen = ClientsScreen::AddEdit;
            },
            Message::AskEditClient(id) => {
                return self.db_task(ClientsTask::LoadClientToEdit(id));
            },
            Message::AskSelectClient(id) => {
                return self.db_task(ClientsTask::LoadClientToSelect(id));
            },
            Message::AskAddClient => {
                self.add_edit_client = Some(Client::empty());
                self.current_screen = ClientsScreen::AddEdit;
            },
            Message::CancelClientOperation => {
                return self.back_to_list();
            },
            Message::TextInputUpdate(v, field) => {
                match self.add_edit_client.take() {
                    Some(mut c) => {
                        set_text(&mut c, field, v);
                        self.add_edit_client = Some(c);
                    },
                    None => {},
                }
            },
            Message::UpdatedSelectedDocumentTypeId(id) => {
                match self.add_edit_client.take() {
                    Some(mut c) => {
                        c.identity_document_type_id = Some(id);
                        self.add_edit_client = Some(c);
                    },
                    None => {},
                }
            },
            Message::UpdatedSelectedGenderId(id) => {
                match self.add_edit_client.take() {
                    Some(mut c) => {
                        c.gender_id = Some(id);
                        self.add_edit_client = Some(c);
                    },
                    None => {},
                }
            },
            Message::ShowDatePicker(field) => match field {
                ClientDateInputFields::IdentityDocumentExpeditionDate => {
                    self.show_expedition_date_picker = true;
                },
                ClientDateInputFields::IdentityDocumentExpirationDate => {
                    self.show_expiration_date_picker = true;
                },
                ClientDateInputFields::Birthdate => {
                    self.show_birthdate_date_picker = true;
                },
            },
            Message::CancelDateOperation => {
                self.show_expedition_date_picker = false;
                self.show_expiration_date_picker = false;
                self.show_birthdate_date_picker = false;
            },
            Message::UpdateDateField(d, field) => {
                self.date_field(d, field);
            },
            Message::AddCurrentClient => {
                return self.save(true);
            },
            Message::EditCurrentClient => {
                return self.save(false);
            },
            Message::DeleteCurrentClient => {
                match &self.add_edit_client {
                    Some(c) => match c.id {
                        Some(id) => {
                            return self.db_task(ClientsTask::DeleteClient(id));
                        },
                        None => {},
                    },
                    None => {},
                }
            },
            Message::ModifiedCurrentClient => {
                return self.back_to_list();
            },
            _ => {},
        }
        action
    }

    /// The messages of the list: data, selection, pages and search.
    fn update_list(&mut self, message: Message) -> (action: ClientsAction)
        requires
            !form_message(message),
            clients_message_allowed(old(self)@, message),
        ensures
            (final(self)@, action@) == clients_step(old(self)@, message),
    {
        let mut action = AlegriaAction::new();
        match message {
            Message::Back => {
                action.add_instruction(ClientsInstruction::Back);
            },
            Message::ClientSelected(c) => {
                if self.page_mode == ClientsPageMode::Selection {
                    action.add_instruction(ClientsInstruction::ClientSelected(c));
                }
            },
            Message::FetchClients => {
                return self.fetch_clients();
            },
            Message::SetClients(v) => {
                self.clients = v;
            },
            Message::InitPage => {
                if self.has_database {
                    action.add_task(ClientsTask::LoadClients);
                    action.add_task(ClientsTask::LoadIdentityDocumentTypes);
                    action.add_task(ClientsTask::LoadGenders);
                }
            },
            Message::SetIdentityDocumentTypes(v) => {
                self.identity_document_types = v;
            },
            Message::SetGenders(v) => {
                self.genders = v;
            },
            Message::ClientsPaginationAction(a) => {
                let len = self.clients.len();
                self.clients_pagination_state.apply(a, len);
            },
            Message::SearchUpdate(v) => {
                self.current_search = v;
            },
            Message::SubmitSearch => {
                if self.current_search.as_str().is_empty() {
                    return self.fetch_clients();
                }
                let found = search_results(&self.clients, &self.current_search);
                self.clients = found;
                self.clients_pagination_state = PaginationConfig::new(10);
            },
            Message::ClearSearch => {
                self.current_search = String::new();
                self.clients_pagination_state = PaginationConfig::new(10);
                return self.fetch_clients();
            },
            _ => {},
        }
        action
    }

    /// The message the submit button of the form sends: editing a client
    /// that has an id, adding one that has none; no button without a form.
    pub fn submit_message(&self) -> (m: Option<Message>)
        ensures
            (m is None) == (self@.add_edit_client is None),
            self@.add_edit_client matches Some(x) ==> (x.id is Some ==> m matches Some(Message::EditCurrentClient)),
            self@.add_edit_client matches Some(x) ==> (x.id is None ==> m matches Some(Message::AddCurrentClient)),
    {
        match &self.add_edit_client {
            Some(x) => if x.id.is_some() {
                Some(Message::EditCurrentClient)
            } else {
                Some(Message::AddCurrentClient)
            },
            None => None,
        }
    }

    /// Handles the messages of the clients page.
    pub fn update(&mut self, message: Message) -> (action: ClientsAction)
        requires
            clients_message_allowed(old(self)@, message),
        ensures
            (final(self)@, action@) == clients_step(old(self)@, message),
    {
        match message {
            Message::SetAddEditClient(_)
            | Message::AskEditClient(_)
            | Message::AskSelectClient(_)
            | Message::AskAddClient
            | Message::CancelClientOperation
            | Message::TextInputUpdate(_, _)
            | Message::UpdatedSelectedDocumentTypeId(_)
            | Message::UpdatedSelectedGenderId(_)
            | Message::ShowDatePicker(_)
            | Message::CancelDateOperation
            | Message::UpdateDateField(_, _)
            | Message::AddCurrentClient
            | Message::EditCurrentClient
            | Message::DeleteCurrentClient
            | Message::ModifiedCurrentClient => self.update_form(message),
            _ => self.update_list(message),
        }
    }
}

impl Default for Clients {
    /// The clients page as it opens with no database, listing clients to
    /// edit them.
    fn default() -> (c: Self)
        ensures
            c@ == initial_clients(false, ClientsPageMode::Normal),
    {
        Clients::init()
    }
}

} // verus!
