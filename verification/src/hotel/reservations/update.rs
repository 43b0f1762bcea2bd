//! The reservations page's state machine.

use vstd::prelude::*;
use crate::action::{AlegriaAction, lift_all};
use crate::dates::{
    CalendarDate, check_date_format, checked_add_days, checked_sub_days, date_from_ymd,
    iso_date_string, lemma_days_after_valid, lemma_days_before_valid, parse_date_to_naive_datetime,
    plain_date_string, today,
};
use crate::models::{Duplicate, Reservation, Room, Toast, copy_vec, error_toast};
use super::add::{
    AddReservationPage, AddReservationTask, AddReservationsInstruction, Message as AddMessage,
    new_sold_room, sold_room_for,
};
use super::booking::room_booked;
use super::{
    DateFiltersState, Message, ReservationDateInputFields, ReservationDirectionAction,
    ReservationTextInputFields, Reservations, ReservationsAction, ReservationsInstruction,
    ReservationsScreen, ReservationsTask, apply_add_instructions, back_step, clicked_reservation,
    date_update_step, direction_step, fetch_step, filters_from, filters_wf, initial_reservations,
    reservations_message_allowed, reservations_step, wrap_add_tasks,
};

verus! {

impl DateFiltersState {
    /// The period that starts on `day`: two weeks long, or a single day when
    /// the calendar ends before that.
    pub fn starting_on(day: CalendarDate) -> (f: DateFiltersState)
        requires
            day.valid(),
        ensures
            f@ == filters_from(day),
            filters_wf(f@),
    {
        let last = match checked_add_days(day, 14) {
            Some(l) => l,
            None => day,
        };
        proof {
            lemma_days_after_valid(day, 14);
        }
        DateFiltersState {
            initial_date: day,
            show_initial_date_picker: false,
            initial_date_string: iso_date_string(day),
            last_date: last,
            show_last_date_picker: false,
            last_date_string: iso_date_string(last),
        }
    }
}

impl Default for DateFiltersState {
    /// The period that starts today.
    fn default() -> (f: Self)
        ensures
            f@.initial_date.valid(),
            f@ == filters_from(f@.initial_date),
            filters_wf(f@),
    {
        DateFiltersState::starting_on(today())
    }
}

impl Reservations {
    /// The page as it opens on the period that starts on `day`.
    pub fn starting_on(has_database: bool, day: CalendarDate) -> (r: Reservations)
        requires
            day.valid(),
        ensures
            r@ == initial_reservations(has_database, day),
            filters_wf(r@.date_filters),
    {
        let r = Reservations {
            has_database,
            toasts: Vec::new(),
            current_screen: ReservationsScreen::Home,
            reservations: Vec::new(),
            rooms: Vec::new(),
            date_filters: DateFiltersState::starting_on(day),
            add_reservations: AddReservationPage::init(),
        };
        assert(r@.toasts =~= Seq::empty());
        assert(r@.reservations =~= Seq::empty());
        assert(r@.rooms =~= Seq::empty());
        r
    }

    /// The page as it opens today, keeping the database.
    pub fn clean_state(has_database: bool) -> (r: Reservations)
        ensures
            r@.date_filters.initial_date.valid(),
            r@ == initial_reservations(has_database, r@.date_filters.initial_date),
            filters_wf(r@.date_filters),
    {
        Reservations::starting_on(has_database, today())
    }

    /// The page as it opens today with no database (`Reservations::default`).
    pub fn init() -> (r: Reservations)
        ensures
            r@.date_filters.initial_date.valid(),
            r@ == initial_reservations(false, r@.date_filters.initial_date),
            filters_wf(r@.date_filters),
    {
        Reservations::clean_state(false)
    }

    /// A task only when there is a database.
    fn db_task(&self, task: ReservationsTask) -> (action: ReservationsAction)
        ensures
            action@ == super::reservations_db_task(self@, task.deep_view()),
    {
        let mut action = AlegriaAction::new();
        if self.has_database {
            action.add_task(task);
        }
        action
    }

    /// Adds an error toast with the given text.
    fn add_error(&mut self, text: String)
        ensures
            final(self)@ == super::with_toast(
                old(self)@,
                crate::models::error_toast_view(text@),
            ),
    {
        let t = error_toast(text);
        let ghost before = self.toasts.deep_view();
        self.toasts.push(t);
        assert(self.toasts.deep_view() =~= before.push(t@));
    }

    /// `FetchReservations`.
    fn fetch(&mut self) -> (action: ReservationsAction)
        requires
            filters_wf(old(self)@.date_filters),
        ensures
            (final(self)@, action@) == fetch_step(old(self)@),
            filters_wf(final(self)@.date_filters),
    {
        if check_date_format(self.date_filters.initial_date_string.as_str())
            && check_date_format(self.date_filters.last_date_string.as_str()) {
            let initial = parse_date_to_naive_datetime(self.date_filters.initial_date_string.as_str());
            let last = parse_date_to_naive_datetime(self.date_filters.last_date_string.as_str());
            match (initial, last) {
                (Some(i), Some(l)) => {
                    if i.is_before(&l) {
                        self.date_filters.initial_date = i;
                        self.date_filters.last_date = l;
                        return self.db_task(ReservationsTask::LoadReservations(i, l));
                    }
                },
                _ => {},
            }
            AlegriaAction::new()
        } else {
            let text = String::from_str("Can't parse dates");
            proof {
                reveal_strlit("Can't parse dates");
            }
            self.add_error(text);
            AlegriaAction::new()
        }
    }

    /// `Back`.
    fn back(&mut self) -> (action: ReservationsAction)
        requires
            filters_wf(old(self)@.date_filters),
        ensures
            (final(self)@, action@) == back_step(old(self)@),
            filters_wf(final(self)@.date_filters),
    {
        match self.current_screen {
            ReservationsScreen::Home => {
                let mut action = AlegriaAction::new();
                action.add_instruction(ReservationsInstruction::Back);
                action
            },
            ReservationsScreen::Add => {
                self.add_reservations = AddReservationPage::init();
                self.current_screen = ReservationsScreen::Home;
                self.fetch()
            },
        }
    }

    /// `OpenAddReservationForm`.
    fn open_form(&mut self, day: CalendarDate, room: Room)
        requires
            reservations_message_allowed(old(self)@, Message::OpenAddReservationForm(day, room)),
        ensures
            final(self)@ == reservations_step(old(self)@, Message::OpenAddReservationForm(day, room)).0,
    {
        proof {
            assert(crate::dates::days_after(day, 0) == Some(day));
            assert(crate::dates::days_after(day, 1) == crate::dates::next_day(day));
        }
        let departure = checked_add_days(day, 1);
        let mut reservation = Reservation::empty();
        reservation.entry_date = Some(day);
        reservation.departure_date = departure;
        let booked = room_booked(&self.reservations, room.id, Some(day), departure);
        if booked != Some(true) {
            let sold = sold_room_for(room.id, room.default_room_price_bits);
            let ghost before = reservation@;
            reservation.rooms.push(sold);
            assert(reservation@.rooms =~= before.rooms.push(
                new_sold_room(room.id, room.default_room_price_bits),
            ));
        }
        assert(reservation@.rooms =~= clicked_reservation(self@, day, room@).rooms);
        let rooms = copy_vec(&self.rooms);
        let reservations = copy_vec(&self.reservations);
        self.add_reservations = AddReservationPage::open_reservation(
            self.has_database,
            reservation,
            rooms,
            reservations,
        );
        self.current_screen = ReservationsScreen::Add;
    }

    /// `UpdateDateField`.
    fn update_date(&mut self, d: CalendarDate, field: ReservationDateInputFields) -> (action: ReservationsAction)
        requires
            filters_wf(old(self)@.date_filters),
        ensures
            (final(self)@, action@) == date_update_step(old(self)@, d, field),
            filters_wf(final(self)@.date_filters),
    {
        match date_from_ymd(d.year, d.month, d.day) {
            Some(date) => {
                match field {
                    ReservationDateInputFields::FilterInitialDate => {
                        if date.is_before(&self.date_filters.last_date) {
                            self.date_filters.initial_date = date;
                            self.date_filters.initial_date_string = plain_date_string(date);
                            return self.fetch();
                        }
                    },
                    ReservationDateInputFields::FilterLastDate => {
                        if self.date_filters.initial_date.is_before(&date) {
                            self.date_filters.last_date = date;
                            self.date_filters.last_date_string = plain_date_string(date);
                            return self.fetch();
                        }
                    },
                }
                self.date_filters.show_initial_date_picker = false;
                self.date_filters.show_last_date_picker = false;
                AlegriaAction::new()
            },
            None => {
                let text = String::from_str("Could not parse new date");
                proof {
                    reveal_strlit("Could not parse new date");
                }
                self.add_error(text);
                self.fetch()
            },
        }
    }

    /// `DirectionActionInput`.
    fn move_period(&mut self, a: ReservationDirectionAction) -> (action: ReservationsAction)
        requires
            filters_wf(old(self)@.date_filters),
        ensures
            (final(self)@, action@) == direction_step(old(self)@, a),
            filters_wf(final(self)@.date_filters),
    {
        let initial = self.date_filters.initial_date;
        let last = self.date_filters.last_date;
        let (i, l) = match a {
            ReservationDirectionAction::Back => (
                checked_sub_days(initial, 1),
                checked_sub_days(last, 1),
            ),
            ReservationDirectionAction::Forward => (
                checked_add_days(initial, 1),
                checked_add_days(last, 1),
            ),
        };
        proof {
            lemma_days_before_valid(initial, 1);
            lemma_days_before_valid(last, 1);
            lemma_days_after_valid(initial, 1);
            lemma_days_after_valid(last, 1);
        }
        match (i, l) {
            (Some(ni), Some(nl)) => {
                self.date_filters.initial_date = ni;
                self.date_filters.initial_date_string = plain_date_string(ni);
                self.date_filters.last_date = nl;
                self.date_filters.last_date_string = plain_date_string(nl);
                self.fetch()
            },
            _ => AlegriaAction::new(),
        }
    }

    /// Applies the add form's instructions, one after the other.
    fn apply_instructions(
        &mut self,
        acc: ReservationsAction,
        pending: Vec<AddReservationsInstruction>,
    ) -> (r: ReservationsAction)
        requires
            filters_wf(old(self)@.date_filters),
        ensures
            (final(self)@, r@) == apply_add_instructions(old(self)@, acc@, pending.deep_view()),
            filters_wf(final(self)@.date_filters),
    {
        let ghost s0 = self@;
        let ghost a0 = acc@;
        let ghost all = pending.deep_view();
        let mut action = acc;
        let mut instrs = pending;
        assert(all.skip(0) =~= all);
        while instrs.len() > 0
            invariant
                s0 == old(self)@,
                a0 == acc@,
                all == pending.deep_view(),
                filters_wf(self@.date_filters),
                all.len() >= instrs@.len(),
                instrs.deep_view() == all.skip(all.len() - instrs@.len()),
                apply_add_instructions(s0, a0, all) == apply_add_instructions(
                    self@,
                    action@,
                    instrs.deep_view(),
                ),
            decreases instrs@.len(),
        {
            let ghost k = all.len() - instrs@.len();
            let ghost rest = instrs.deep_view();
            let ghost iseq = instrs@;
            let first = instrs.remove(0);
            assert(first.deep_view() == rest[0]);
            assert forall|j: int| 0 <= j < instrs@.len() implies #[trigger] instrs.deep_view()[j]
                == rest.drop_first()[j] by {
                assert(instrs@[j] == iseq[j + 1]);
            }
            assert(instrs.deep_view() =~= rest.drop_first());
            assert(rest.drop_first() =~= all.skip(k + 1));
            let ghost cur = self@;
            let ghost acur = action@;
            match first {
                AddReservationsInstruction::Back => {
                    assert(rest[0] == super::add::AddReservationsInstructionView::Back);
                    assert(apply_add_instructions(cur, acur, rest) == back_step(cur));
                    return self.back();
                },
                AddReservationsInstruction::TryAddReservation(r) => {
                    if self.has_database {
                        action.add_task(ReservationsTask::AddReservation(r));
                    }
                },
                AddReservationsInstruction::ShowToast(t) => {
                    let ghost before = self.toasts.deep_view();
                    self.toasts.push(t);
                    assert(self.toasts.deep_view() =~= before.push(t@));
                },
            }
        }
        action
    }

    /// `AddReservationPage`.
    fn add_page(&mut self, m: AddMessage) -> (action: ReservationsAction)
        requires
            filters_wf(old(self)@.date_filters),
            reservations_message_allowed(old(self)@, Message::AddReservationPage(m)),
        ensures
            (final(self)@, action@) == reservations_step(old(self)@, Message::AddReservationPage(m)),
            filters_wf(final(self)@.date_filters),
    {
        let add_action = self.add_reservations.update(m);
        let AlegriaAction { instructions, tasks } = add_action;
        let ghost child_tasks = tasks.deep_view();
        let mut action = AlegriaAction::new();
        action.tasks = lift_all(tasks);
        assert(action.tasks.deep_view() =~= wrap_add_tasks(child_tasks));
        self.apply_instructions(action, instructions)
    }

    /// Handles the messages of the reservations page.
    pub fn update(&mut self, message: Message) -> (action: ReservationsAction)
        requires
            filters_wf(old(self)@.date_filters),
            reservations_message_allowed(old(self)@, message),
        ensures
            (final(self)@, action@) == reservations_step(old(self)@, message),
            filters_wf(final(self)@.date_filters),
    {
        let mut action = AlegriaAction::new();
        match message {
            Message::Back => {
                return self.back();
            },
            Message::AddToast(t) => {
                let ghost before = self.toasts.deep_view();
                self.toasts.push(t);
                assert(self.toasts.deep_view() =~= before.push(t@));
            },
            Message::CloseToast(i) => {
                let ghost before = self.toasts.deep_view();
                let ghost tseq = self.toasts@;
                let _ = self.toasts.remove(i);
                assert forall|j: int| 0 <= j < self.toasts@.len() implies #[trigger] self.toasts.deep_view()[j]
                    == before.remove(i as int)[j] by {
                    if j < i {
                        assert(self.toasts@[j] == tseq[j]);
                    } else {
                        assert(self.toasts@[j] == tseq[j + 1]);
                    }
                }
                assert(self.toasts.deep_view() =~= before.remove(i as int));
            },
            Message::InitPage => {
                if self.has_database {
                    action.add_task(
                        ReservationsTask::LoadReservations(
                            self.date_filters.initial_date,
                            self.date_filters.last_date,
                        ),
                    );
                    action.add_task(ReservationsTask::LoadRooms);
                    self.current_screen = ReservationsScreen::Home;
                }
            },
            Message::OpenAddReservationForm(day, room) => {
                self.open_form(day, room);
            },
            Message::FetchReservations => {
                return self.fetch();
            },
            Message::SetReservations(v) => {
                self.reservations = v;
            },
            Message::SetRooms(v) => {
                self.rooms = v;
            },
            Message::TextInputUpdate(v, field) => match field {
                ReservationTextInputFields::FilterInitialDate => {
                    self.date_filters.initial_date_string = v;
                },
                ReservationTextInputFields::FilterLastDate => {
                    self.date_filters.last_date_string = v;
                },
            },
            Message::ShowDatePicker(field) => match field {
                ReservationDateInputFields::FilterInitialDate => {
                    self.date_filters.show_initial_date_picker = true;
                },
                ReservationDateInputFields::FilterLastDate => {
                    self.date_filters.show_last_date_picker = true;
                },
            },
            Message::CancelDateOperation => {
                self.date_filters.show_initial_date_picker = false;
                self.date_filters.show_last_date_picker = false;
            },
            Message::UpdateDateField(d, field) => {
                return self.update_date(d, field);
            },
            Message::DirectionActionInput(a) => {
                return self.move_period(a);
            },
            Message::AddReservationPage(m) => {
                return self.add_page(m);
            },
        }
        action
    }
}

impl Default for Reservations {
    /// The page as it opens today with no database.
    fn default() -> (r: Self)
        ensures
            r@.date_filters.initial_date.valid(),
            r@ == initial_reservations(false, r@.date_filters.initial_date),
            filters_wf(r@.date_filters),
    {
        Reservations::init()
    }
}

} // verus!
