//! The rooms page of the hotel: the list of rooms, ten to a page, and the
//! form that adds, edits or deletes a room.

use vstd::prelude::*;
use crate::action::{ActionView, AlegriaAction, instructions_only, no_action, tasks_only};
use crate::models::{Duplicate, NamedRecordView, Room, RoomType, RoomTypeView, RoomView, empty_room};
use crate::pagination::{PaginationAction, PaginationConfig};

verus! {

/// The view the page shows.
#[derive(Clone, Copy, Debug, PartialEq, Eq, Structural)]
pub enum RoomsScreen {
    List,
    AddEdit,
}

/// The text fields of the room form.
#[derive(Clone, Copy, Debug, PartialEq, Eq, Structural)]
pub enum RoomTextInputFields {
    Name,
}

/// The state of the rooms page.
#[derive(Debug)]
pub struct Rooms {
    /// Whether the application has a database to work with
    pub has_database: bool,
    /// Determines which is the current view of the subscreen
    pub current_screen: RoomsScreen,
    /// Holds the state of all the rooms
    pub rooms: Vec<Room>,
    /// Holds the state of all the room types, needed for the room type selector
    pub room_types: Vec<RoomType>,
    /// Holds the state of the current editing/adding Room
    pub add_edit_room: Option<Room>,
    /// Holds the pagination state and config for this page
    pub pagination_state: PaginationConfig,
}

pub struct RoomsView {
    pub has_database: bool,
    pub current_screen: RoomsScreen,
    pub rooms: Seq<RoomView>,
    pub room_types: Seq<RoomTypeView>,
    pub add_edit_room: Option<RoomView>,
    pub page: PaginationConfig,
}

impl View for Rooms {
    type V = RoomsView;

    open spec fn view(&self) -> RoomsView {
        RoomsView {
            has_database: self.has_database,
            current_screen: self.current_screen,
            rooms: self.rooms.deep_view(),
            room_types: self.room_types.deep_view(),
            add_edit_room: self.add_edit_room.deep_view(),
            page: self.pagination_state,
        }
    }
}

/// The messages of the rooms page.
#[derive(Debug)]
pub enum Message {
    /// Asks the parent to go back
    Back,
    /// Fetches all the current rooms
    FetchRooms,
    /// Sets the rooms
    SetRooms(Vec<Room>),
    /// Fetches all the current room types
    FetchRoomTypes,
    /// Sets the room types
    SetRoomTypes(Vec<RoomType>),
    /// Opens the form on the given room
    AskEditRoom(Room),
    /// Opens the form on a new room
    AskAddRoom,
    /// Leaves the form without saving
    CancelRoomOperation,
    /// New text for a field of the form
    TextInputUpdate(String, RoomTextInputFields),
    /// A new room type for the room of the form
    UpdatedSelectedRoomTypeId(i32),
    /// Tries to add the room of the form
    AddCurrentRoom,
    /// Tries to store the edited room of the form
    EditCurrentRoom,
    /// Tries to delete the room of the form
    DeleteCurrentRoom,
    /// The room of the form was added, stored or deleted
    ModifiedCurrentRoom,
    /// Goes to the previous or the next page of the list
    PaginationAction(PaginationAction),
}

/// What the page asks of its parent.
#[derive(Clone, Copy, Debug, PartialEq, Eq, Structural)]
pub enum RoomsInstruction {
    Back,
}

impl DeepView for RoomsInstruction {
    type V = RoomsInstruction;

    open spec fn deep_view(&self) -> RoomsInstruction {
        *self
    }
}

/// The outside work the rooms page asks for.
#[derive(Debug)]
pub enum RoomsTask {
    /// Load all the rooms, answered by `SetRooms`
    LoadRooms,
    /// Load all the room types, answered by `SetRoomTypes`
    LoadRoomTypes,
    /// Add a room, answered by `ModifiedCurrentRoom` (or `CancelRoomOperation`
    /// on failure)
    AddRoom(Room),
    /// Store an edited room, answered as `AddRoom`
    EditRoom(Room),
    /// Delete a room, answered as `AddRoom`
    DeleteRoom(i32),
}

pub enum RoomsTaskView {
    LoadRooms,
    LoadRoomTypes,
    AddRoom(RoomView),
    EditRoom(RoomView),
    DeleteRoom(i32),
}

impl DeepView for RoomsTask {
    type V = RoomsTaskView;

    open spec fn deep_view(&self) -> RoomsTaskView {
        match self {
            RoomsTask::LoadRooms => RoomsTaskView::LoadRooms,
            RoomsTask::LoadRoomTypes => RoomsTaskView::LoadRoomTypes,
            RoomsTask::AddRoom(r) => RoomsTaskView::AddRoom(r@),
            RoomsTask::EditRoom(r) => RoomsTaskView::EditRoom(r@),
            RoomsTask::DeleteRoom(id) => RoomsTaskView::DeleteRoom(*id),
        }
    }
}

pub type RoomsAction = AlegriaAction<RoomsInstruction, RoomsTask>;

pub type RoomsActionView = ActionView<RoomsInstruction, RoomsTaskView>;

/// A room that the form accepts: it has a name and a room type.
pub open spec fn room_valid(r: RoomView) -> bool {
    r.name.len() > 0 && r.room_type_id is Some
}

/// A task only when there is a database.
pub open spec fn rooms_db_task(s: RoomsView, t: RoomsTaskView) -> RoomsActionView {
    if s.has_database {
        tasks_only(seq![t])
    } else {
        no_action()
    }
}

/// Back to the list, which is fetched again.
pub open spec fn rooms_back_to_list(s: RoomsView) -> (RoomsView, RoomsActionView) {
    let s2 = RoomsView { add_edit_room: None, current_screen: RoomsScreen::List, ..s };
    (s2, rooms_db_task(s2, RoomsTaskView::LoadRooms))
}

/// What a message does to the rooms page, and the work it asks for.
pub open spec fn rooms_step(s: RoomsView, m: Message) -> (RoomsView, RoomsActionView) {
    match m {
        Message::Back => (s, instructions_only(seq![RoomsInstruction::Back])),
        Message::FetchRooms => (s, rooms_db_task(s, RoomsTaskView::LoadRooms)),
        Message::SetRooms(v) => (RoomsView { rooms: v.deep_view(), ..s }, no_action()),
        Message::FetchRoomTypes => (s, rooms_db_task(s, RoomsTaskView::LoadRoomTypes)),
        Message::SetRoomTypes(v) => (RoomsView { room_types: v.deep_view(), ..s }, no_action()),
        Message::AskEditRoom(r) => (
            RoomsView { add_edit_room: Some(r@), current_screen: RoomsScreen::AddEdit, ..s },
            no_action(),
        ),
        Message::AskAddRoom => (
            RoomsView {
                add_edit_room: Some(empty_room()),
                current_screen: RoomsScreen::AddEdit,
                ..s
            },
            no_action(),
        ),
        Message::CancelRoomOperation => rooms_back_to_list(s),
        Message::TextInputUpdate(v, field) => match s.add_edit_room {
            Some(r) => match field {
                RoomTextInputFields::Name => (
                    RoomsView { add_edit_room: Some(RoomView { name: v@, ..r }), ..s },
                    no_action(),
                ),
            },
            None => (s, no_action()),
        },
        Message::UpdatedSelectedRoomTypeId(id) => match s.add_edit_room {
            Some(r) => (
                RoomsView { add_edit_room: Some(RoomView { room_type_id: Some(id), ..r }), ..s },
                no_action(),
            ),
            None => (s, no_action()),
        },
        Message::AddCurrentRoom => match s.add_edit_room {
            Some(r) => if room_valid(r) && r.id is None {
                (s, rooms_db_task(s, RoomsTaskView::AddRoom(r)))
            } else {
                (s, no_action())
            },
            None => (s, no_action()),
        },
        Message::EditCurrentRoom => match s.add_edit_room {
            Some(r) => if room_valid(r) && r.id is Some {
                (s, rooms_db_task(s, RoomsTaskView::EditRoom(r)))
            } else {
                (s, no_action())
            },
            None => (s, no_action()),
        },
        Message::DeleteCurrentRoom => match s.add_edit_room {
            Some(r) => match r.id {
                Some(id) => (s, rooms_db_task(s, RoomsTaskView::DeleteRoom(id))),
                None => (s, no_action()),
            },
            None => (s, no_action()),
        },
        Message::ModifiedCurrentRoom => rooms_back_to_list(s),
        Message::PaginationAction(a) => (
            RoomsView { page: s.page.after(a, s.rooms.len()), ..s },
            no_action(),
        ),
    }
}

/// The inputs on which a message would panic are left out: a page step whose
/// arithmetic overflows `i32`.
pub open spec fn rooms_message_allowed(s: RoomsView, m: Message) -> bool {
    match m {
        Message::PaginationAction(a) => a.goes_forward() ==> s.page.can_step_forward(),
        _ => true,
    }
}

/// The rooms page as it opens: the list, no rooms and no form.
pub open spec fn initial_rooms(has_database: bool) -> RoomsView {
    RoomsView {
        has_database,
        current_screen: RoomsScreen::List,
        rooms: Seq::empty(),
        room_types: Seq::empty(),
        add_edit_room: None,
        page: PaginationConfig { items_per_page: 10, current_page: 0 },
    }
}

impl Rooms {
    /// The rooms page as it opens, with or without a database.
    pub fn clean_state(has_database: bool) -> (r: Rooms)
        ensures
            r@ == initial_rooms(has_database),
    {
        let r = Rooms {
            has_database,
            current_screen: RoomsScreen::List,
            rooms: Vec::new(),
            room_types: Vec::new(),
            add_edit_room: None,
            pagination_state: PaginationConfig::new(10),
        };
        assert(r@.rooms =~= Seq::empty());
        assert(r@.room_types =~= Seq::empty());
        r
    }

    /// The rooms page as it opens with no database (`Rooms::default`).
    pub fn init() -> (r: Rooms)
        ensures
            r@ == initial_rooms(false),
    {
        Rooms::clean_state(false)
    }

    /// A task only when there is a database.
    fn db_task(&self, task: RoomsTask) -> (action: RoomsAction)
        ensures
            action@ == rooms_db_task(self@, task.deep_view()),
    {
        let mut action = AlegriaAction::new();
        if self.has_database {
            action.add_task(task);
        }
        action
    }

    /// Back to the list, which is fetched again.
    fn back_to_list(&mut self) -> (action: RoomsAction)
        ensures
            (final(self)@, action@) == rooms_back_to_list(old(self)@),
    {
        self.add_edit_room = None;
        self.current_screen = RoomsScreen::List;
        self.db_task(RoomsTask::LoadRooms)
    }

    /// The message the submit button of the form sends: editing a room
    /// that has an id, adding one that has none; no button without a form.
    pub fn submit_message(&self) -> (m: Option<Message>)
        ensures
            (m is None) == (self@.add_edit_room is None),
            self@.add_edit_room matches Some(x) ==> (x.id is Some ==> m matches Some(Message::EditCurrentRoom)),
            self@.add_edit_room matches Some(x) ==> (x.id is None ==> m matches Some(Message::AddCurrentRoom)),
    {
        match &self.add_edit_room {
            Some(x) => if x.id.is_some() {
                Some(Message::EditCurrentRoom)
            } else {
                Some(Message::AddCurrentRoom)
            },
            None => None,
        }
    }

    /// Handles the messages of the rooms page.
    pub fn update(&mut self, message: Message) -> (action: RoomsAction)
        requires
            rooms_message_allowed(old(self)@, message),
        ensures
            (final(self)@, action@) == rooms_step(old(self)@, message),
    {
        let mut action = AlegriaAction::new();
        match message {
            Message::Back => {
                action.add_instruction(RoomsInstruction::Back);
            },
            Message::FetchRooms => {
                return self.db_task(RoomsTask::LoadRooms);
            },
            Message::SetRooms(v) => {
                self.rooms = v;
            },
            Message::FetchRoomTypes => {
                return self.db_task(RoomsTask::LoadRoomTypes);
            },
            Message::SetRoomTypes(v) => {
                self.room_types = v;
            },
            Message::AskEditRoom(r) => {
                self.add_edit_room = Some(r);
                self.current_screen = RoomsScreen::AddEdit;
            },
            Message::AskAddRoom => {
                self.add_edit_room = Some(Room::empty());
                self.current_screen = RoomsScreen::AddEdit;
            },
            Message::CancelRoomOperation => {
                return self.back_to_list();
            },
            Message::TextInputUpdate(v, field) => {
                match self.add_edit_room.take() {
                    Some(mut r) => {
                        match field {
                            RoomTextInputFields::Name => r.name = v,
                        }
                        self.add_edit_room = Some(r);
                    },
                    None => {},
                }
            },
            Message::UpdatedSelectedRoomTypeId(id) => {
                match self.add_edit_room.take() {
                    Some(mut r) => {
                        r.room_type_id = Some(id);
                        self.add_edit_room = Some(r);
                    },
                    None => {},
                }
            },
            Message::AddCurrentRoom => {
                match &self.add_edit_room {
                    Some(r) => {
                        if !r.name.as_str().is_empty() && r.room_type_id.is_some() && r.id.is_none() {
                            let copy = r.duplicate();
                            return self.db_task(RoomsTask::AddRoom(copy));
                        }
                    },
                    None => {},
                }
            },
            Message::EditCurrentRoom => {
                match &self.add_edit_room {
                    Some(r) => {
                        if !r.name.as_str().is_empty() && r.room_type_id.is_some() && r.id.is_some() {
                            let copy = r.duplicate();
                            return self.db_task(RoomsTask::EditRoom(copy));
                        }
                    },
                    None => {},
                }
            },
            Message::DeleteCurrentRoom => {
                match &self.add_edit_room {
                    Some(r) => match r.id {
                        Some(id) => {
                            return self.db_task(RoomsTask::DeleteRoom(id));
                        },
                        None => {},
                    },
                    None => {},
                }
            },
            Message::ModifiedCurrentRoom => {
                return self.back_to_list();
            },
            Message::PaginationAction(a) => {
                let len = self.rooms.len();
                self.pagination_state.apply(a, len);
            },
        }
        action
    }
}

impl Default for Rooms {
    /// The rooms page as it opens with no database.
    fn default() -> (r: Self)
        ensures
            r@ == initial_rooms(false),
    {
        Rooms::init()
    }
}

} // verus!
