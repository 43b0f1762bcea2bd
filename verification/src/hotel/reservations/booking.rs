//! When a room is taken: the overlap of a new stay with the reservations, the
//! rooms left free for it, and the cells of the reservation calendar.

use vstd::prelude::*;
use crate::dates::{CalendarDate, checked_add_days, days_after, lemma_next_day_not_past, next_day};
use crate::lists::{first_index, lemma_first_index};
use crate::models::{Duplicate, Reservation, ReservationView, Room, RoomView};

verus! {

/// The reservation books the room `room_id`.
pub open spec fn holds_room(r: ReservationView, room_id: Option<i32>) -> bool {
    exists|k: int| 0 <= k < r.rooms.len() && #[trigger] r.rooms[k].room_id == room_id
}

/// Whether a reservation of the list books the room `room_id` during a stay
/// from `entry` to `departure` (it starts before the departure and ends after
/// the entry), looking at the reservations in their order as the screens do:
/// `Some(true)` at the first that does; `None` where, before that, a
/// reservation of the room lacks a date that the comparison reads (the
/// screens would stop there), or the stay lacks one.
pub open spec fn booked_scan(
    rs: Seq<ReservationView>,
    room_id: Option<i32>,
    entry: Option<CalendarDate>,
    departure: Option<CalendarDate>,
) -> Option<bool>
    decreases rs.len(),
{
    if rs.len() == 0 {
        Some(false)
    } else {
        let r = rs[0];
        let rest = booked_scan(rs.drop_first(), room_id, entry, departure);
        if holds_room(r, room_id) {
            match (r.entry_date, departure) {
                (Some(e), Some(dep)) => if e.before(dep) {
                    match (r.departure_date, entry) {
                        (Some(d), Some(ent)) => if ent.before(d) {
                            Some(true)
                        } else {
                            rest
                        },
                        _ => None,
                    }
                } else {
                    rest
                },
                _ => None,
            }
        } else {
            rest
        }
    }
}

/// Whether the sold rooms of a reservation include `room_id`.
fn reservation_holds_room(r: &Reservation, room_id: Option<i32>) -> (b: bool)
    ensures
        b == holds_room(r@, room_id),
{
    let mut k: usize = 0;
    while k < r.rooms.len()
        invariant
            k <= r.rooms@.len(),
            forall|j: int| 0 <= j < k ==> r@.rooms[j].room_id != room_id,
        decreases r.rooms@.len() - k,
    {
        if r.rooms[k].room_id == room_id {
            assert(r@.rooms[k as int].room_id == room_id);
            return true;
        }
        k = k + 1;
    }
    false
}

/// Whether a reservation books the room `room_id` during the stay from
/// `entry` to `departure`; `None` where the comparison reads a missing date.
pub fn room_booked(
    reservations: &Vec<Reservation>,
    room_id: Option<i32>,
    entry: Option<CalendarDate>,
    departure: Option<CalendarDate>,
) -> (r: Option<bool>)
    ensures
        r == booked_scan(reservations.deep_view(), room_id, entry, departure),
{
    let ghost rs = reservations.deep_view();
    let mut i: usize = 0;
    assert(rs.skip(0) =~= rs);
    while i < reservations.len()
        invariant
            i <= rs.len(),
            rs == reservations.deep_view(),
            booked_scan(rs, room_id, entry, departure) == booked_scan(
                rs.skip(i as int),
                room_id,
                entry,
                departure,
            ),
        decreases rs.len() - i,
    {
        let r = &reservations[i];
        assert(rs.skip(i as int).drop_first() =~= rs.skip(i + 1));
        assert(rs.skip(i as int)[0] == r@);
        if reservation_holds_room(r, room_id) {
            match (r.entry_date, departure) {
                (Some(e), Some(dep)) => {
                    if e.is_before(&dep) {
                        match (r.departure_date, entry) {
                            (Some(d), Some(ent)) => {
                                if ent.is_before(&d) {
                                    return Some(true);
                                }
                            },
                            _ => {
                                return None;
                            },
                        }
                    }
                },
                _ => {
                    return None;
                },
            }
        }
        i = i + 1;
    }
    assert(rs.skip(i as int).len() == 0);
    Some(false)
}

/// The room is free during the stay.
pub open spec fn room_free(
    rs: Seq<ReservationView>,
    entry: Option<CalendarDate>,
    departure: Option<CalendarDate>,
) -> spec_fn(RoomView) -> bool {
    |room: RoomView| booked_scan(rs, room.id, entry, departure) == Some(false)
}

/// Every room can be looked up in the reservations without reading a
/// missing date.
pub open spec fn rooms_scannable(
    rooms: Seq<RoomView>,
    rs: Seq<ReservationView>,
    entry: Option<CalendarDate>,
    departure: Option<CalendarDate>,
) -> bool {
    forall|k: int| 0 <= k < rooms.len() ==> (#[trigger] booked_scan(rs, rooms[k].id, entry, departure)) is Some
}

/// The rooms that no reservation books during the stay, in their order (the
/// choices of the reservation form's room selector).
pub fn available_rooms(
    rooms: &Vec<Room>,
    reservations: &Vec<Reservation>,
    entry: Option<CalendarDate>,
    departure: Option<CalendarDate>,
) -> (r: Vec<Room>)
    requires
        rooms_scannable(rooms.deep_view(), reservations.deep_view(), entry, departure),
    ensures
        r.deep_view() == rooms.deep_view().filter(
            room_free(reservations.deep_view(), entry, departure),
        ),
{
    let ghost all = rooms.deep_view();
    let ghost p = room_free(reservations.deep_view(), entry, departure);
    let mut r: Vec<Room> = Vec::new();
    let mut i: usize = 0;
    proof {
        reveal(Seq::filter);
    }
    assert(r.deep_view() =~= all.take(0).filter(p));
    while i < rooms.len()
        invariant
            i <= all.len(),
            all == rooms.deep_view(),
            p == room_free(reservations.deep_view(), entry, departure),
            rooms_scannable(all, reservations.deep_view(), entry, departure),
            r.deep_view() == all.take(i as int).filter(p),
        decreases all.len() - i,
    {
        proof {
            reveal(Seq::filter);
        }
        let ghost before = r.deep_view();
        assert(all.take(i + 1).drop_last() =~= all.take(i as int));
        assert(all.take(i + 1).last() == all[i as int]);
        assert(all[i as int] == rooms@[i as int]@);
        let booked = room_booked(reservations, rooms[i].id, entry, departure);
        assert(booked_scan(reservations.deep_view(), all[i as int].id, entry, departure) is Some);
        if booked == Some(false) {
            r.push(rooms[i].duplicate());
            assert(r.deep_view() =~= before.push(all[i as int]));
        }
        assert(all.take(i + 1).filter(p) == (if p(all[i as int]) {
            all.take(i as int).filter(p).push(all[i as int])
        } else {
            all.take(i as int).filter(p)
        }));
        i = i + 1;
    }
    assert(all.take(all.len() as int) =~= all);
    r
}

/// The room has the id `room_id`.
pub open spec fn room_with_id(room_id: Option<i32>) -> spec_fn(RoomView) -> bool {
    |room: RoomView| room.id == room_id
}

/// The index of the first room with the id `room_id` (the room of a sold
/// room, as the reservation form lists them).
pub fn find_room(rooms: &Vec<Room>, room_id: Option<i32>) -> (r: Option<usize>)
    ensures
        r matches Some(k) ==> k < rooms@.len() && first_index(rooms.deep_view(), room_with_id(room_id))
            == Some(k as int),
        r is None ==> first_index(rooms.deep_view(), room_with_id(room_id)) is None,
{
    let mut k: usize = 0;
    while k < rooms.len()
        invariant
            k <= rooms@.len(),
            forall|j: int| 0 <= j < k ==> !room_with_id(room_id)(#[trigger] rooms.deep_view()[j]),
        decreases rooms@.len() - k,
    {
        if rooms[k].id == room_id {
            proof {
                lemma_first_index(rooms.deep_view(), room_with_id(room_id), Some(k as int));
            }
            return Some(k);
        }
        k = k + 1;
    }
    proof {
        lemma_first_index(rooms.deep_view(), room_with_id(room_id), None);
    }
    None
}

/// What a cell of the reservation calendar shows.
#[derive(Debug)]
pub enum CalendarCell {
    /// No reservation holds the room that day: a click opens the form
    Free,
    /// A reservation whose guests have not arrived, with its client's name
    Reserved(String),
    /// A reservation whose guests are in the room, with its client's name
    Occupied(String),
}

pub enum CalendarCellView {
    Free,
    Reserved(Seq<char>),
    Occupied(Seq<char>),
}

impl View for CalendarCell {
    type V = CalendarCellView;

    open spec fn view(&self) -> CalendarCellView {
        match self {
            CalendarCell::Free => CalendarCellView::Free,
            CalendarCell::Reserved(n) => CalendarCellView::Reserved(n@),
            CalendarCell::Occupied(n) => CalendarCellView::Occupied(n@),
        }
    }
}

/// A missing date reads as the first of January of 1970 (the default of a
/// `NaiveDateTime`).
pub open spec fn date_or_epoch(d: Option<CalendarDate>) -> CalendarDate {
    match d {
        Some(x) => x,
        None => CalendarDate { year: 1970, month: 1, day: 1 },
    }
}

/// The reservation holds the room on the night of `day`: from its entry day
/// on, up to the day before its departure (a room can be booked again on the
/// day someone leaves it).
pub open spec fn covers_day(room_id: Option<i32>, day: CalendarDate) -> spec_fn(ReservationView) -> bool {
    |r: ReservationView|
        holds_room(r, room_id) && !day.before(date_or_epoch(r.entry_date)) && day.before(
            date_or_epoch(r.departure_date),
        )
}

/// The cell of the calendar for a room and a day: the first reservation that
/// holds the room that day decides it.
pub open spec fn calendar_cell_of(rs: Seq<ReservationView>, room_id: Option<i32>, day: CalendarDate) -> CalendarCellView {
    match first_index(rs, covers_day(room_id, day)) {
        Some(i) => if rs[i].occupied {
            CalendarCellView::Occupied(rs[i].client_name)
        } else {
            CalendarCellView::Reserved(rs[i].client_name)
        },
        None => CalendarCellView::Free,
    }
}

/// The cell of the reservation calendar for a room and a day.
pub fn calendar_cell(reservations: &Vec<Reservation>, room_id: Option<i32>, day: CalendarDate) -> (c: CalendarCell)
    ensures
        c@ == calendar_cell_of(reservations.deep_view(), room_id, day),
{
    let ghost rs = reservations.deep_view();
    let epoch = CalendarDate { year: 1970, month: 1, day: 1 };
    let mut i: usize = 0;
    while i < reservations.len()
        invariant
            i <= rs.len(),
            rs == reservations.deep_view(),
            epoch == date_or_epoch(None),
            forall|j: int| 0 <= j < i ==> !covers_day(room_id, day)(#[trigger] rs[j]),
        decreases rs.len() - i,
    {
        let r = &reservations[i];
        assert(rs[i as int] == r@);
        let entry = match r.entry_date {
            Some(e) => e,
            None => epoch,
        };
        let departure = match r.departure_date {
            Some(d) => d,
            None => epoch,
        };
        if reservation_holds_room(r, room_id) && !day.is_before(&entry) && day.is_before(&departure) {
            proof {
                lemma_first_index(rs, covers_day(room_id, day), Some(i as int));
            }
            if r.occupied {
                return CalendarCell::Occupied(r.client_name.clone());
            } else {
                return CalendarCell::Reserved(r.client_name.clone());
            }
        }
        i = i + 1;
    }
    proof {
        lemma_first_index(rs, covers_day(room_id, day), None);
    }
    CalendarCell::Free
}

/// The days from `initial` to `last`, both included, one after the other
/// (the columns of the reservation calendar); none when `last` comes before
/// `initial`.
pub fn calendar_days(initial: CalendarDate, last: CalendarDate) -> (r: Vec<CalendarDate>)
    requires
        initial.valid(),
        last.valid(),
        !last.before(initial) ==> next_day(last) is Some,
    ensures
        last.before(initial) ==> r@.len() == 0,
        !last.before(initial) ==> r@.len() > 0 && r@.last() == last,
        forall|k: int| 0 <= k < r@.len() ==> days_after(initial, k as nat) == Some(#[trigger] r@[k]),
{
    let mut r: Vec<CalendarDate> = Vec::new();
    if last.is_before(&initial) {
        return r;
    }
    let mut cur = initial;
    loop
        invariant
            initial.valid(),
            last.valid(),
            cur.valid(),
            !last.before(cur),
            !last.before(initial),
            days_after(initial, r@.len()) == Some(cur),
            forall|k: int| 0 <= k < r@.len() ==> days_after(initial, k as nat) == Some(#[trigger] r@[k]),
        decreases last.year - cur.year, 12 - cur.month, 31 - cur.day,
    {
        let ghost n = r@.len();
        r.push(cur);
        assert(r@[n as int] == cur);
        if cur == last {
            return r;
        }
        proof {
            lemma_next_day_not_past(cur, last);
            assert(days_after(cur, 0) == Some(cur));
            assert(days_after(cur, 1) == next_day(cur));
            let m: nat = n + 1;
            assert((m - 1) as nat == n);
            assert(days_after(initial, m) == next_day(cur));
        }
        match checked_add_days(cur, 1) {
            Some(next) => {
                cur = next;
            },
            None => {
                return r;
            },
        }
    }
}

} // verus!
