//! The room types page of the hotel: the list of room types and the form that
//! adds, edits or deletes one, with a price typed as text.

use vstd::prelude::*;
use crate::action::{ActionView, AlegriaAction, instructions_only, no_action, tasks_only};
use crate::models::{Duplicate, RoomType, RoomTypeView, empty_room_type};
use crate::text::{price_input_full, price_text_full};

verus! {

/// The view the page shows.
#[derive(Clone, Copy, Debug, PartialEq, Eq, Structural)]
pub enum RoomTypesScreen {
    List,
    AddEdit,
}

/// The text fields of the room type form.
#[derive(Clone, Copy, Debug, PartialEq, Eq, Structural)]
pub enum RoomTypeTextInputFields {
    Name,
    Price,
}

/// The state of the room types page.
#[derive(Debug)]
pub struct RoomTypes {
    /// Whether the application has a database to work with
    pub has_database: bool,
    /// Determines which is the current view of the subscreen
    pub current_screen: RoomTypesScreen,
    /// Holds the state of all the room_types
    pub room_types: Vec<RoomType>,
    /// Holds the state of the current editing/adding RoomType
    pub add_edit_room_type: Option<RoomType>,
}

pub struct RoomTypesView {
    pub has_database: bool,
    pub current_screen: RoomTypesScreen,
    pub room_types: Seq<RoomTypeView>,
    pub add_edit_room_type: Option<RoomTypeView>,
}

impl View for RoomTypes {
    type V = RoomTypesView;

    open spec fn view(&self) -> RoomTypesView {
        RoomTypesView {
            has_database: self.has_database,
            current_screen: self.current_screen,
            room_types: self.room_types.deep_view(),
            add_edit_room_type: self.add_edit_room_type.deep_view(),
        }
    }
}

/// The messages of the room types page.
#[derive(Debug)]
pub enum Message {
    /// Asks the parent to go back
    Back,
    /// Fetches all the current room types
    FetchRoomTypes,
    /// Sets the room types
    SetRoomTypes(Vec<RoomType>),
    /// Opens the form on the given room type
    AskEditRoomType(RoomType),
    /// Opens the form on a new room type
    AskAddRoomType,
    /// Leaves the form without saving
    CancelRoomTypeOperation,
    /// New text for a field of the form; the last value is the bit pattern
    /// of the text read as an `f32` price, when it reads as one
    TextInputUpdate(String, RoomTypeTextInputFields, Option<u32>),
    /// Tries to add the room type of the form
    AddCurrentRoomType,
    /// Tries to store the edited room type of the form
    EditCurrentRoomType,
    /// Tries to delete the room type of the form
    DeleteCurrentRoomType,
    /// The room type of the form was added, stored or deleted
    ModifiedCurrentRoomType,
}

/// What the page asks of its parent.
#[derive(Clone, Copy, Debug, PartialEq, Eq, Structural)]
pub enum RoomTypesInstruction {
    Back,
}

impl DeepView for RoomTypesInstruction {
    type V = RoomTypesInstruction;

    open spec fn deep_view(&self) -> RoomTypesInstruction {
        *self
    }
}

/// The outside work the room types page asks for.
#[derive(Debug)]
pub enum RoomTypesTask {
    /// Load all the room types, answered by `SetRoomTypes`
    LoadRoomTypes,
    /// Add a room type, answered by `ModifiedCurrentRoomType` (or
    /// `CancelRoomTypeOperation` on failure)
    AddRoomType(RoomType),
    /// Store an edited room type, answered as `AddRoomType`
    EditRoomType(RoomType),
    /// Delete a room type, answered as `AddRoomType`
    DeleteRoomType(i32),
}

pub enum RoomTypesTaskView {
    LoadRoomTypes,
    AddRoomType(RoomTypeView),
    EditRoomType(RoomTypeView),
    DeleteRoomType(i32),
}

impl DeepView for RoomTypesTask {
    type V = RoomTypesTaskView;

    open spec fn deep_view(&self) -> RoomTypesTaskView {
        match self {
            RoomTypesTask::LoadRoomTypes => RoomTypesTaskView::LoadRoomTypes,
            RoomTypesTask::AddRoomType(r) => RoomTypesTaskView::AddRoomType(r@),
            RoomTypesTask::EditRoomType(r) => RoomTypesTaskView::EditRoomType(r@),
            RoomTypesTask::DeleteRoomType(id) => RoomTypesTaskView::DeleteRoomType(*id),
        }
    }
}

pub type RoomTypesAction = AlegriaAction<RoomTypesInstruction, RoomTypesTask>;

pub type RoomTypesActionView = ActionView<RoomTypesInstruction, RoomTypesTaskView>;

/// A room type that the form accepts: it has a name and a price.
pub open spec fn room_type_valid(r: RoomTypeView) -> bool {
    r.name.len() > 0 && r.price_bits is Some
}

/// A task only when there is a database.
pub open spec fn room_types_db_task(s: RoomTypesView, t: RoomTypesTaskView) -> RoomTypesActionView {
    if s.has_database {
        tasks_only(seq![t])
    } else {
        no_action()
    }
}

/// Back to the list, which is fetched again.
pub open spec fn room_types_back_to_list(s: RoomTypesView) -> (RoomTypesView, RoomTypesActionView) {
    let s2 = RoomTypesView {
        add_edit_room_type: None,
        current_screen: RoomTypesScreen::List,
        ..s
    };
    (s2, room_types_db_task(s2, RoomTypesTaskView::LoadRoomTypes))
}

/// The price field of a room type after new text: ignored when the price
/// already has two decimals and the text grows; otherwise a text that reads
/// as an `f32` sets the price, an empty text sets it to zero, and any other
/// text is ignored.
pub open spec fn with_price_text(r: RoomTypeView, v: Seq<char>, parsed: Option<u32>) -> RoomTypeView {
    if price_input_full(r.price_input, v) {
        r
    } else {
        match parsed {
            Some(bits) => RoomTypeView { price_bits: Some(bits), price_input: v, ..r },
            None => if v.len() == 0 {
                RoomTypeView { price_bits: Some(0), price_input: v, ..r }
            } else {
                r
            },
        }
    }
}

/// What a message does to the room types page, and the work it asks for.
pub open spec fn room_types_step(s: RoomTypesView, m: Message) -> (RoomTypesView, RoomTypesActionView) {
    match m {
        Message::Back => (s, instructions_only(seq![RoomTypesInstruction::Back])),
        Message::FetchRoomTypes => (s, room_types_db_task(s, RoomTypesTaskView::LoadRoomTypes)),
        Message::SetRoomTypes(v) => (RoomTypesView { room_types: v.deep_view(), ..s }, no_action()),
        Message::AskEditRoomType(r) => (
            RoomTypesView {
                add_edit_room_type: Some(r@),
                current_screen: RoomTypesScreen::AddEdit,
                ..s
            },
            no_action(),
        ),
        Message::AskAddRoomType => (
            RoomTypesView {
                add_edit_room_type: Some(empty_room_type()),
                current_screen: RoomTypesScreen::AddEdit,
                ..s
            },
            no_action(),
        ),
        Message::CancelRoomTypeOperation => room_types_back_to_list(s),
        Message::TextInputUpdate(v, field, parsed) => match s.add_edit_room_type {
            Some(r) => (
                RoomTypesView {
                    add_edit_room_type: Some(
                        match field {
                            RoomTypeTextInputFields::Name => RoomTypeView { name: v@, ..r },
                            RoomTypeTextInputFields::Price => with_price_text(r, v@, parsed),
                        },
                    ),
                    ..s
                },
                no_action(),
            ),
            None => (s, no_action()),
        },
        Message::AddCurrentRoomType => match s.add_edit_room_type {
            Some(r) => if room_type_valid(r) && r.id is None {
                (s, room_types_db_task(s, RoomTypesTaskView::AddRoomType(r)))
            } else {
                (s, no_action())
            },
            None => (s, no_action()),
        },
        Message::EditCurrentRoomType => match s.add_edit_room_type {
            Some(r) => if room_type_valid(r) && r.id is Some {
                (s, room_types_db_task(s, RoomTypesTaskView::EditRoomType(r)))
            } else {
                (s, no_action())
            },
            None => (s, no_action()),
        },
        Message::DeleteCurrentRoomType => match s.add_edit_room_type {
            Some(r) => match r.id {
                Some(id) => (s, room_types_db_task(s, RoomTypesTaskView::DeleteRoomType(id))),
                None => (s, no_action()),
            },
            None => (s, no_action()),
        },
        Message::ModifiedCurrentRoomType => room_types_back_to_list(s),
    }
}

/// The room types page as it opens: the list, no room types and no form.
pub open spec fn initial_room_types(has_database: bool) -> RoomTypesView {
    RoomTypesView {
        has_database,
        current_screen: RoomTypesScreen::List,
        room_types: Seq::empty(),
        add_edit_room_type: None,
    }
}

/// Sets the price text of a room type, as the form does.
fn set_price_text(r: &mut RoomType, v: String, parsed: Option<u32>)
    ensures
        final(r)@ == with_price_text(old(r)@, v@, parsed),
{
    if !price_text_full(&r.price_input, &v) {
        match parsed {
            Some(bits) => {
                r.price_bits = Some(bits);
                r.price_input = v;
            },
            None => {
                if v.as_str().is_empty() {
                    r.price_bits = Some(0);
                    r.price_input = v;
                }
            },
        }
    }
}

impl RoomTypes {
    /// The room types page as it opens, with or without a database.
    pub fn clean_state(has_database: bool) -> (r: RoomTypes)
        ensures
            r@ == initial_room_types(has_database),
    {
        let r = RoomTypes {
            has_database,
            current_screen: RoomTypesScreen::List,
            room_types: Vec::new(),
            add_edit_room_type: None,
        };
        assert(r@.room_types =~= Seq::empty());
        r
    }

    /// The room types page as it opens with no database.
    pub fn init() -> (r: RoomTypes)
        ensures
            r@ == initial_room_types(false),
    {
        RoomTypes::clean_state(false)
    }

    /// A task only when there is a database.
    fn db_task(&self, task: RoomTypesTask) -> (action: RoomTypesAction)
        ensures
            action@ == room_types_db_task(self@, task.deep_view()),
    {
        let mut action = AlegriaAction::new();
        if self.has_database {
            action.add_task(task);
        }
        action
    }

    /// Back to the list, which is fetched again.
    fn back_to_list(&mut self) -> (action: RoomTypesAction)
        ensures
            (final(self)@, action@) == room_types_back_to_list(old(self)@),
    {
        self.add_edit_room_type = None;
        self.current_screen = RoomTypesScreen::List;
        self.db_task(RoomTypesTask::LoadRoomTypes)
    }

    /// The message the submit button of the form sends: editing a room type
    /// that has an id, adding one that has none; no button without a form.
    pub fn submit_message(&self) -> (m: Option<Message>)
        ensures
            (m is None) == (self@.add_edit_room_type is None),
            self@.add_edit_room_type matches Some(x) ==> (x.id is Some ==> m matches Some(Message::EditCurrentRoomType)),
            self@.add_edit_room_type matches Some(x) ==> (x.id is None ==> m matches Some(Message::AddCurrentRoomType)),
    {
        match &self.add_edit_room_type {
            Some(x) => if x.id.is_some() {
                Some(Message::EditCurrentRoomType)
            } else {
                Some(Message::AddCurrentRoomType)
            },
            None => None,
        }
    }

    /// Handles the messages of the room types page.
    pub fn update(&mut self, message: Message) -> (action: RoomTypesAction)
        ensures
            (final(self)@, action@) == room_types_step(old(self)@, message),
    {
        let mut action = AlegriaAction::new();
        match message {
            Message::Back => {
                action.add_instruction(RoomTypesInstruction::Back);
            },
            Message::FetchRoomTypes => {
                return self.db_task(RoomTypesTask::LoadRoomTypes);
            },
            Message::SetRoomTypes(v) => {
                self.room_types = v;
            },
            Message::AskEditRoomType(r) => {
                self.add_edit_room_type = Some(r);
                self.current_screen = RoomTypesScreen::AddEdit;
            },
            Message::AskAddRoomType => {
                self.add_edit_room_type = Some(RoomType::empty());
                self.current_screen = RoomTypesScreen::AddEdit;
            },
            Message::CancelRoomTypeOperation => {
                return self.back_to_list();
            },
            Message::TextInputUpdate(v, field, parsed) => {
                match self.add_edit_room_type.take() {
                    Some(mut r) => {
                        match field {
                            RoomTypeTextInputFields::Name => r.name = v,
                            RoomTypeTextInputFields::Price => set_price_text(&mut r, v, parsed),
                        }
                        self.add_edit_room_type = Some(r);
                    },
                    None => {},
                }
            },
            Message::AddCurrentRoomType => {
                match &self.add_edit_room_type {
                    Some(r) => {
                        if !r.name.as_str().is_empty() && r.price_bits.is_some() && r.id.is_none() {
                            let copy = r.duplicate();
                            return self.db_task(RoomTypesTask::AddRoomType(copy));
                        }
                    },
                    None => {},
                }
            },
            Message::EditCurrentRoomType => {
                match &self.add_edit_room_type {
                    Some(r) => {
                        if !r.name.as_str().is_empty() && r.price_bits.is_some() && r.id.is_some() {
                            let copy = r.duplicate();
                            return self.db_task(RoomTypesTask::EditRoomType(copy));
                        }
                    },
                    None => {},
                }
            },
            Message::DeleteCurrentRoomType => {
                match &self.add_edit_room_type {
                    Some(r) => match r.id {
                        Some(id) => {
                            return self.db_task(RoomTypesTask::DeleteRoomType(id));
                        },
                        None => {},
                    },
                    None => {},
                }
            },
            Message::ModifiedCurrentRoomType => {
                return self.back_to_list();
            },
        }
        action
    }
}

} // verus!
