//! The records that the screens read and edit, as the database hands them
//! over. A price is held as the bit pattern of the `f32` the database stores
//! (`f32::to_bits`): the screens only carry prices through, they never
//! compute with them.
//!
//! Every record has a view made of sequences and plain values, and a
//! `duplicate` that copies it exactly.

use vstd::prelude::*;
use crate::dates::CalendarDate;

verus! {

/// Records that can be copied exactly.
pub trait Duplicate: DeepView + Sized {
    fn duplicate(&self) -> (r: Self)
        ensures
            r.deep_view() == self.deep_view(),
    ;
}

/// A copy of a vector of records.
pub fn copy_vec<T: Duplicate>(v: &Vec<T>) -> (r: Vec<T>)
    ensures
        r.deep_view() == v.deep_view(),
{
    let mut r: Vec<T> = Vec::new();
    let mut i: usize = 0;
    while i < v.len()
        invariant
            i <= v@.len(),
            r@.len() == i,
            forall|k: int| 0 <= k < i ==> (#[trigger] r@[k]).deep_view() == v@[k].deep_view(),
        decreases v@.len() - i,
    {
        r.push(v[i].duplicate());
        i = i + 1;
    }
    assert(r.deep_view() =~= v.deep_view());
    r
}

/// A copy of an optional record.
pub fn copy_option<T: Duplicate>(v: &Option<T>) -> (r: Option<T>)
    ensures
        r.deep_view() == v.deep_view(),
{
    match v {
        Some(item) => Some(item.duplicate()),
        None => None,
    }
}

/// A copy of a vector of integers.
pub fn copy_ints(v: &Vec<i32>) -> (r: Vec<i32>)
    ensures
        r@ == v@,
{
    let mut r: Vec<i32> = Vec::new();
    let mut i: usize = 0;
    while i < v.len()
        invariant
            i <= v@.len(),
            r@ == v@.take(i as int),
        decreases v@.len() - i,
    {
        r.push(v[i]);
        i = i + 1;
        assert(r@ =~= v@.take(i as int));
    }
    assert(r@ =~= v@);
    r
}

/// A product line of a temporal ticket.
#[derive(Debug)]
pub struct TemporalProduct {
    pub id: Option<i32>,
    pub name: String,
    pub quantity: i32,
    pub price_bits: Option<u32>,
    /// The text of the price field, as the user typed it.
    pub price_input: String,
}

pub struct TemporalProductView {
    pub id: Option<i32>,
    pub name: Seq<char>,
    pub quantity: i32,
    pub price_bits: Option<u32>,
    pub price_input: Seq<char>,
}

impl View for TemporalProduct {
    type V = TemporalProductView;

    open spec fn view(&self) -> TemporalProductView {
        TemporalProductView {
            id: self.id,
            name: self.name@,
            quantity: self.quantity,
            price_bits: self.price_bits,
            price_input: self.price_input@,
        }
    }
}

impl DeepView for TemporalProduct {
    type V = TemporalProductView;

    open spec fn deep_view(&self) -> TemporalProductView {
        self@
    }
}

impl Duplicate for TemporalProduct {
    fn duplicate(&self) -> (r: Self) {
        TemporalProduct {
            id: self.id,
            name: self.name.clone(),
            quantity: self.quantity,
            price_bits: self.price_bits,
            price_input: self.price_input.clone(),
        }
    }
}

/// The open bill of a table.
#[derive(Debug)]
pub struct TemporalTicket {
    pub id: Option<i32>,
    pub table_id: i32,
    pub ticket_location: i32,
    pub ticket_status: i32,
    pub simple_invoice_id: Option<i32>,
    pub products: Vec<TemporalProduct>,
}

pub struct TemporalTicketView {
    pub id: Option<i32>,
    pub table_id: i32,
    pub ticket_location: i32,
    pub ticket_status: i32,
    pub simple_invoice_id: Option<i32>,
    pub products: Seq<TemporalProductView>,
}

impl View for TemporalTicket {
    type V = TemporalTicketView;

    open spec fn view(&self) -> TemporalTicketView {
        TemporalTicketView {
            id: self.id,
            table_id: self.table_id,
            ticket_location: self.ticket_location,
            ticket_status: self.ticket_status,
            simple_invoice_id: self.simple_invoice_id,
            products: self.products.deep_view(),
        }
    }
}

impl DeepView for TemporalTicket {
    type V = TemporalTicketView;

    open spec fn deep_view(&self) -> TemporalTicketView {
        self@
    }
}

impl Duplicate for TemporalTicket {
    fn duplicate(&self) -> (r: Self) {
        TemporalTicket {
            id: self.id,
            table_id: self.table_id,
            ticket_location: self.ticket_location,
            ticket_status: self.ticket_status,
            simple_invoice_id: self.simple_invoice_id,
            products: copy_vec(&self.products),
        }
    }
}

/// A record made of an identifier and a name (product categories, products,
/// payment methods, genders).
pub struct NamedRecordView {
    pub id: Option<i32>,
    pub name: Seq<char>,
}

#[derive(Debug)]
pub struct ProductCategory {
    pub id: Option<i32>,
    pub name: String,
}

impl View for ProductCategory {
    type V = NamedRecordView;

    open spec fn view(&self) -> NamedRecordView {
        NamedRecordView { id: self.id, name: self.name@ }
    }
}

impl DeepView for ProductCategory {
    type V = NamedRecordView;

    open spec fn deep_view(&self) -> NamedRecordView {
        self@
    }
}

impl Duplicate for ProductCategory {
    fn duplicate(&self) -> (r: Self) {
        ProductCategory { id: self.id, name: self.name.clone() }
    }
}

#[derive(Debug)]
pub struct Product {
    pub id: Option<i32>,
    pub name: String,
}

impl View for Product {
    type V = NamedRecordView;

    open spec fn view(&self) -> NamedRecordView {
        NamedRecordView { id: self.id, name: self.name@ }
    }
}

impl DeepView for Product {
    type V = NamedRecordView;

    open spec fn deep_view(&self) -> NamedRecordView {
        self@
    }
}

impl Duplicate for Product {
    fn duplicate(&self) -> (r: Self) {
        Product { id: self.id, name: self.name.clone() }
    }
}

/// A payment method as the database lists it.
#[derive(Debug)]
pub struct PaymentMethodRecord {
    pub id: Option<i32>,
    pub name: String,
}

impl View for PaymentMethodRecord {
    type V = NamedRecordView;

    open spec fn view(&self) -> NamedRecordView {
        NamedRecordView { id: self.id, name: self.name@ }
    }
}

impl DeepView for PaymentMethodRecord {
    type V = NamedRecordView;

    open spec fn deep_view(&self) -> NamedRecordView {
        self@
    }
}

impl Duplicate for PaymentMethodRecord {
    fn duplicate(&self) -> (r: Self) {
        PaymentMethodRecord { id: self.id, name: self.name.clone() }
    }
}

#[derive(Debug)]
pub struct Gender {
    pub id: Option<i32>,
    pub name: String,
}

impl View for Gender {
    type V = NamedRecordView;

    open spec fn view(&self) -> NamedRecordView {
        NamedRecordView { id: self.id, name: self.name@ }
    }
}

impl DeepView for Gender {
    type V = NamedRecordView;

    open spec fn deep_view(&self) -> NamedRecordView {
        self@
    }
}

impl Duplicate for Gender {
    fn duplicate(&self) -> (r: Self) {
        Gender { id: self.id, name: self.name.clone() }
    }
}

/// An identity document type as the database lists it.
#[derive(Debug)]
pub struct IdentityDocumentTypeRecord {
    pub id: Option<i32>,
    pub name: String,
}

impl View for IdentityDocumentTypeRecord {
    type V = NamedRecordView;

    open spec fn view(&self) -> NamedRecordView {
        NamedRecordView { id: self.id, name: self.name@ }
    }
}

impl DeepView for IdentityDocumentTypeRecord {
    type V = NamedRecordView;

    open spec fn deep_view(&self) -> NamedRecordView {
        self@
    }
}

impl Duplicate for IdentityDocumentTypeRecord {
    fn duplicate(&self) -> (r: Self) {
        IdentityDocumentTypeRecord { id: self.id, name: self.name.clone() }
    }
}

/// A printer that tickets can be sent to, known by its name.
#[derive(Debug)]
pub struct AlegriaPrinter {
    pub name: String,
}

impl View for AlegriaPrinter {
    type V = Seq<char>;

    open spec fn view(&self) -> Seq<char> {
        self.name@
    }
}

impl DeepView for AlegriaPrinter {
    type V = Seq<char>;

    open spec fn deep_view(&self) -> Seq<char> {
        self@
    }
}

impl Duplicate for AlegriaPrinter {
    fn duplicate(&self) -> (r: Self) {
        AlegriaPrinter { name: self.name.clone() }
    }
}

/// A message shown to the user for a while: a title and a text.
#[derive(Debug)]
pub struct Toast {
    pub title: String,
    pub body: String,
}

impl View for Toast {
    type V = (Seq<char>, Seq<char>);

    open spec fn view(&self) -> (Seq<char>, Seq<char>) {
        (self.title@, self.body@)
    }
}

impl DeepView for Toast {
    type V = (Seq<char>, Seq<char>);

    open spec fn deep_view(&self) -> (Seq<char>, Seq<char>) {
        self@
    }
}

impl Duplicate for Toast {
    fn duplicate(&self) -> (r: Self) {
        Toast { title: self.title.clone(), body: self.body.clone() }
    }
}

/// The toast that reports an error.
pub open spec fn error_toast_view(message: Seq<char>) -> (Seq<char>, Seq<char>) {
    ("Error"@, message)
}

/// A toast that reports an error with the given text.
pub fn error_toast(message: String) -> (t: Toast)
    ensures
        t@ == error_toast_view(message@),
{
    Toast { title: String::from_str("Error"), body: message }
}

#[derive(Debug)]
pub struct Client {
    pub id: Option<i32>,
    pub identity_document_type_id: Option<i32>,
    /// The name of the identity document type, as the database joins it in
    pub identity_document_type_name: String,
    pub identity_document: String,
    pub identity_document_expedition_date: Option<CalendarDate>,
    pub identity_document_expedition_date_string: String,
    pub identity_document_expiration_date: Option<CalendarDate>,
    pub identity_document_expiration_date_string: String,
    pub name: String,
    pub first_surname: String,
    pub second_surname: String,
    pub gender_id: Option<i32>,
    pub birthdate: Option<CalendarDate>,
    pub birthdate_string: String,
    pub address: String,
    pub postal_code: String,
    pub city: String,
    pub province: String,
    pub country: String,
    pub nationality: String,
    pub phone_number: String,
    pub mobile_phone: String,
    /// The text that the client search looks in.
    pub search_field: String,
}

pub struct ClientView {
    pub id: Option<i32>,
    pub identity_document_type_id: Option<i32>,
    pub identity_document_type_name: Seq<char>,
    pub identity_document: Seq<char>,
    pub identity_document_expedition_date: Option<CalendarDate>,
    pub identity_document_expedition_date_string: Seq<char>,
    pub identity_document_expiration_date: Option<CalendarDate>,
    pub identity_document_expiration_date_string: Seq<char>,
    pub name: Seq<char>,
    pub first_surname: Seq<char>,
    pub second_surname: Seq<char>,
    pub gender_id: Option<i32>,
    pub birthdate: Option<CalendarDate>,
    pub birthdate_string: Seq<char>,
    pub address: Seq<char>,
    pub postal_code: Seq<char>,
    pub city: Seq<char>,
    pub province: Seq<char>,
    pub country: Seq<char>,
    pub nationality: Seq<char>,
    pub phone_number: Seq<char>,
    pub mobile_phone: Seq<char>,
    pub search_field: Seq<char>,
}

impl View for Client {
    type V = ClientView;

    open spec fn view(&self) -> ClientView {
        ClientView {
            id: self.id,
            identity_document_type_id: self.identity_document_type_id,
            identity_document_type_name: self.identity_document_type_name@,
            identity_document: self.identity_document@,
            identity_document_expedition_date: self.identity_document_expedition_date,
            identity_document_expedition_date_string: self.identity_document_expedition_date_string@,
            identity_document_expiration_date: self.identity_document_expiration_date,
            identity_document_expiration_date_string: self.identity_document_expiration_date_string@,
            name: self.name@,
            first_surname: self.first_surname@,
            second_surname: self.second_surname@,
            gender_id: self.gender_id,
            birthdate: self.birthdate,
            birthdate_string: self.birthdate_string@,
            address: self.address@,
            postal_code: self.postal_code@,
            city: self.city@,
            province: self.province@,
            country: self.country@,
            nationality: self.nationality@,
            phone_number: self.phone_number@,
            mobile_phone: self.mobile_phone@,
            search_field: self.search_field@,
        }
    }
}

impl DeepView for Client {
    type V = ClientView;

    open spec fn deep_view(&self) -> ClientView {
        self@
    }
}

/// A client with every field empty.
pub open spec fn empty_client() -> ClientView {
    ClientView {
        id: None,
        identity_document_type_id: None,
        identity_document_type_name: Seq::empty(),
        identity_document: Seq::empty(),
        identity_document_expedition_date: None,
        identity_document_expedition_date_string: Seq::empty(),
        identity_document_expiration_date: None,
        identity_document_expiration_date_string: Seq::empty(),
        name: Seq::empty(),
        first_surname: Seq::empty(),
        second_surname: Seq::empty(),
        gender_id: None,
        birthdate: None,
        birthdate_string: Seq::empty(),
        address: Seq::empty(),
        postal_code: Seq::empty(),
        city: Seq::empty(),
        province: Seq::empty(),
        country: Seq::empty(),
        nationality: Seq::empty(),
        phone_number: Seq::empty(),
        mobile_phone: Seq::empty(),
        search_field: Seq::empty(),
    }
}

impl Client {
    /// A client with every field empty (`Client::default`).
    pub fn empty() -> (c: Client)
        ensures
            c@ == empty_client(),
    {
        Client {
            id: None,
            identity_document_type_id: None,
            identity_document_type_name: String::new(),
            identity_document: String::new(),
            identity_document_expedition_date: None,
            identity_document_expedition_date_string: String::new(),
            identity_document_expiration_date: None,
            identity_document_expiration_date_string: String::new(),
            name: String::new(),
            first_surname: String::new(),
            second_surname: String::new(),
            gender_id: None,
            birthdate: None,
            birthdate_string: String::new(),
            address: String::new(),
            postal_code: String::new(),
            city: String::new(),
            province: String::new(),
            country: String::new(),
            nationality: String::new(),
            phone_number: String::new(),
            mobile_phone: String::new(),
            search_field: String::new(),
        }
    }
}

impl Duplicate for Client {
    fn duplicate(&self) -> (r: Self) {
        Client {
            id: self.id,
            identity_document_type_id: self.identity_document_type_id,
            identity_document_type_name: self.identity_document_type_name.clone(),
            identity_document: self.identity_document.clone(),
            identity_document_expedition_date: self.identity_document_expedition_date,
            identity_document_expedition_date_string: self.identity_document_expedition_date_string.clone(),
            identity_document_expiration_date: self.identity_document_expiration_date,
            identity_document_expiration_date_string: self.identity_document_expiration_date_string.clone(),
            name: self.name.clone(),
            first_surname: self.first_surname.clone(),
            second_surname: self.second_surname.clone(),
            gender_id: self.gender_id,
            birthdate: self.birthdate,
            birthdate_string: self.birthdate_string.clone(),
            address: self.address.clone(),
            postal_code: self.postal_code.clone(),
            city: self.city.clone(),
            province: self.province.clone(),
            country: self.country.clone(),
            nationality: self.nationality.clone(),
            phone_number: self.phone_number.clone(),
            mobile_phone: self.mobile_phone.clone(),
            search_field: self.search_field.clone(),
        }
    }
}

/// A room booked in a reservation.
#[derive(Debug)]
pub struct SoldRoom {
    pub id: Option<i32>,
    pub room_id: Option<i32>,
    pub guests: Vec<i32>,
    pub price_bits: Option<u32>,
    pub invoices: Vec<i32>,
    pub room_name: String,
}

pub struct SoldRoomView {
    pub id: Option<i32>,
    pub room_id: Option<i32>,
    pub guests: Seq<i32>,
    pub price_bits: Option<u32>,
    pub invoices: Seq<i32>,
    pub room_name: Seq<char>,
}

impl View for SoldRoom {
    type V = SoldRoomView;

    open spec fn view(&self) -> SoldRoomView {
        SoldRoomView {
            id: self.id,
            room_id: self.room_id,
            guests: self.guests@,
            price_bits: self.price_bits,
            invoices: self.invoices@,
            room_name: self.room_name@,
        }
    }
}

impl DeepView for SoldRoom {
    type V = SoldRoomView;

    open spec fn deep_view(&self) -> SoldRoomView {
        self@
    }
}

impl Duplicate for SoldRoom {
    fn duplicate(&self) -> (r: Self) {
        SoldRoom {
            id: self.id,
            room_id: self.room_id,
            guests: copy_ints(&self.guests),
            price_bits: self.price_bits,
            invoices: copy_ints(&self.invoices),
            room_name: self.room_name.clone(),
        }
    }
}

/// A reservation; its dates are days (the database keeps them at midnight).
#[derive(Debug)]
pub struct Reservation {
    pub id: Option<i32>,
    pub client_id: Option<i32>,
    pub client_name: String,
    pub entry_date: Option<CalendarDate>,
    pub departure_date: Option<CalendarDate>,
    pub occupied: bool,
    pub rooms: Vec<SoldRoom>,
}

pub struct ReservationView {
    pub id: Option<i32>,
    pub client_id: Option<i32>,
    pub client_name: Seq<char>,
    pub entry_date: Option<CalendarDate>,
    pub departure_date: Option<CalendarDate>,
    pub occupied: bool,
    pub rooms: Seq<SoldRoomView>,
}

impl View for Reservation {
    type V = ReservationView;

    open spec fn view(&self) -> ReservationView {
        ReservationView {
            id: self.id,
            client_id: self.client_id,
            client_name: self.client_name@,
            entry_date: self.entry_date,
            departure_date: self.departure_date,
            occupied: self.occupied,
            rooms: self.rooms.deep_view(),
        }
    }
}

impl DeepView for Reservation {
    type V = ReservationView;

    open spec fn deep_view(&self) -> ReservationView {
        self@
    }
}

impl Duplicate for Reservation {
    fn duplicate(&self) -> (r: Self) {
        Reservation {
            id: self.id,
            client_id: self.client_id,
            client_name: self.client_name.clone(),
            entry_date: self.entry_date,
            departure_date: self.departure_date,
            occupied: self.occupied,
            rooms: copy_vec(&self.rooms),
        }
    }
}

/// A reservation with no client, no dates and no rooms (`Reservation::default`).
pub open spec fn empty_reservation() -> ReservationView {
    ReservationView {
        id: None,
        client_id: None,
        client_name: Seq::empty(),
        entry_date: None,
        departure_date: None,
        occupied: false,
        rooms: Seq::empty(),
    }
}

impl Reservation {
    pub fn empty() -> (r: Reservation)
        ensures
            r@ == empty_reservation(),
    {
        let r = Reservation {
            id: None,
            client_id: None,
            client_name: String::new(),
            entry_date: None,
            departure_date: None,
            occupied: false,
            rooms: Vec::new(),
        };
        assert(r@.rooms =~= Seq::empty());
        r
    }
}

#[derive(Debug)]
pub struct Room {
    pub id: Option<i32>,
    pub name: String,
    pub room_type_id: Option<i32>,
    /// The name of the room type, as the database joins it in
    pub room_type_name: String,
    pub default_room_price_bits: Option<u32>,
}

pub struct RoomView {
    pub id: Option<i32>,
    pub name: Seq<char>,
    pub room_type_id: Option<i32>,
    pub room_type_name: Seq<char>,
    pub default_room_price_bits: Option<u32>,
}

impl View for Room {
    type V = RoomView;

    open spec fn view(&self) -> RoomView {
        RoomView {
            id: self.id,
            name: self.name@,
            room_type_id: self.room_type_id,
            room_type_name: self.room_type_name@,
            default_room_price_bits: self.default_room_price_bits,
        }
    }
}

impl DeepView for Room {
    type V = RoomView;

    open spec fn deep_view(&self) -> RoomView {
        self@
    }
}

impl Duplicate for Room {
    fn duplicate(&self) -> (r: Self) {
        Room {
            id: self.id,
            name: self.name.clone(),
            room_type_id: self.room_type_id,
            room_type_name: self.room_type_name.clone(),
            default_room_price_bits: self.default_room_price_bits,
        }
    }
}

/// A room with no name and no type (`Room::default`).
pub open spec fn empty_room() -> RoomView {
    RoomView {
        id: None,
        name: Seq::empty(),
        room_type_id: None,
        room_type_name: Seq::empty(),
        default_room_price_bits: None,
    }
}

impl Room {
    pub fn empty() -> (r: Room)
        ensures
            r@ == empty_room(),
    {
        Room {
            id: None,
            name: String::new(),
            room_type_id: None,
            room_type_name: String::new(),
            default_room_price_bits: None,
        }
    }
}

#[derive(Debug)]
pub struct RoomType {
    pub id: Option<i32>,
    pub name: String,
    pub price_bits: Option<u32>,
    /// The text of the price field, as the user typed it.
    pub price_input: String,
}

pub struct RoomTypeView {
    pub id: Option<i32>,
    pub name: Seq<char>,
    pub price_bits: Option<u32>,
    pub price_input: Seq<char>,
}

impl View for RoomType {
    type V = RoomTypeView;

    open spec fn view(&self) -> RoomTypeView {
        RoomTypeView {
            id: self.id,
            name: self.name@,
            price_bits: self.price_bits,
            price_input: self.price_input@,
        }
    }
}

impl DeepView for RoomType {
    type V = RoomTypeView;

    open spec fn deep_view(&self) -> RoomTypeView {
        self@
    }
}

impl Duplicate for RoomType {
    fn duplicate(&self) -> (r: Self) {
        RoomType {
            id: self.id,
            name: self.name.clone(),
            price_bits: self.price_bits,
            price_input: self.price_input.clone(),
        }
    }
}

/// A room type with no name and no price (`RoomType::default`).
pub open spec fn empty_room_type() -> RoomTypeView {
    RoomTypeView { id: None, name: Seq::empty(), price_bits: None, price_input: Seq::empty() }
}

impl RoomType {
    pub fn empty() -> (r: RoomType)
        ensures
            r@ == empty_room_type(),
    {
        RoomType { id: None, name: String::new(), price_bits: None, price_input: String::new() }
    }
}

} // verus!
