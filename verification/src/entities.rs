//! The fixed enumerations that the database stores by number: identity
//! document types, payment methods and the status of a temporal ticket.

use vstd::prelude::*;

verus! {

/// The kinds of identity document a client can present.
#[derive(Clone, Copy, Debug, PartialEq, Eq, Structural)]
pub enum IdentityDocumentType {
    Dni,
    Nie,
    Nif,
    Pasaporte,
    CarnetConducir,
}

impl Default for IdentityDocumentType {
    fn default() -> (d: Self)
        ensures
            d == IdentityDocumentType::Dni,
    {
        IdentityDocumentType::Dni
    }
}

impl IdentityDocumentType {
    /// The number that stands for the document type in the database.
    pub open spec fn id_of(self) -> i32 {
        match self {
            IdentityDocumentType::Dni => 1,
            IdentityDocumentType::Nie => 2,
            IdentityDocumentType::Nif => 3,
            IdentityDocumentType::Pasaporte => 4,
            IdentityDocumentType::CarnetConducir => 5,
        }
    }

    /// The document type that a database number stands for.
    pub open spec fn of_id(id: i32) -> Option<Self> {
        if id == 1 {
            Some(IdentityDocumentType::Dni)
        } else if id == 2 {
            Some(IdentityDocumentType::Nie)
        } else if id == 3 {
            Some(IdentityDocumentType::Nif)
        } else if id == 4 {
            Some(IdentityDocumentType::Pasaporte)
        } else if id == 5 {
            Some(IdentityDocumentType::CarnetConducir)
        } else {
            None
        }
    }

    /// The name shown for the document type.
    pub open spec fn label_text(self) -> Seq<char> {
        match self {
            IdentityDocumentType::Dni => "DNI"@,
            IdentityDocumentType::Nie => "NIE"@,
            IdentityDocumentType::Nif => "NIF"@,
            IdentityDocumentType::Pasaporte => "Pasaporte"@,
            IdentityDocumentType::CarnetConducir => "Carnet de Conducir"@,
        }
    }

    /// All document types, in the order of their numbers.
    pub open spec fn all_spec() -> Seq<Self> {
        seq![
            IdentityDocumentType::Dni,
            IdentityDocumentType::Nie,
            IdentityDocumentType::Nif,
            IdentityDocumentType::Pasaporte,
            IdentityDocumentType::CarnetConducir,
        ]
    }

    /// All document types, in the order of their numbers.
    pub fn all() -> (v: Vec<Self>)
        ensures
            v@ == Self::all_spec(),
    {
        let v = vec![
            IdentityDocumentType::Dni,
            IdentityDocumentType::Nie,
            IdentityDocumentType::Nif,
            IdentityDocumentType::Pasaporte,
            IdentityDocumentType::CarnetConducir,
        ];
        assert(v@ =~= Self::all_spec());
        v
    }

    pub fn to_id(self) -> (id: i32)
        ensures
            id == self.id_of(),
    {
        match self {
            IdentityDocumentType::Dni => 1,
            IdentityDocumentType::Nie => 2,
            IdentityDocumentType::Nif => 3,
            IdentityDocumentType::Pasaporte => 4,
            IdentityDocumentType::CarnetConducir => 5,
        }
    }

    pub fn from_id(id: i32) -> (res: Option<Self>)
        ensures
            res == Self::of_id(id),
            res is Some <==> 1 <= id <= 5,
    {
        match id {
            1 => Some(IdentityDocumentType::Dni),
            2 => Some(IdentityDocumentType::Nie),
            3 => Some(IdentityDocumentType::Nif),
            4 => Some(IdentityDocumentType::Pasaporte),
            5 => Some(IdentityDocumentType::CarnetConducir),
            _ => None,
        }
    }

    /// The name shown for the document type (its `Display`).
    pub fn label(self) -> (s: String)
        ensures
            s@ == self.label_text(),
    {
        match self {
            IdentityDocumentType::Dni => String::from_str("DNI"),
            IdentityDocumentType::Nie => String::from_str("NIE"),
            IdentityDocumentType::Nif => String::from_str("NIF"),
            IdentityDocumentType::Pasaporte => String::from_str("Pasaporte"),
            IdentityDocumentType::CarnetConducir => String::from_str("Carnet de Conducir"),
        }
    }
}

/// Reading back the number stored for a document type gives the same type.
pub proof fn identity_document_type_id_round_trip(t: IdentityDocumentType)
    ensures
        IdentityDocumentType::of_id(t.id_of()) == Some(t),
{
}

/// A number that reads as a document type is the number stored for it.
pub proof fn identity_document_type_id_is_stored(id: i32)
    ensures
        IdentityDocumentType::of_id(id) matches Some(t) ==> t.id_of() == id,
{
}

/// `all` lists every document type once, the one with number `i + 1` at `i`.
pub proof fn identity_document_types_all_in_id_order(t: IdentityDocumentType)
    ensures
        IdentityDocumentType::all_spec().len() == 5,
        forall|i: int|
            0 <= i < 5 ==> (#[trigger] IdentityDocumentType::all_spec()[i]).id_of() == i + 1,
        IdentityDocumentType::all_spec()[t.id_of() - 1] == t,
{
}

/// The ways a bill can be paid.
#[derive(Clone, Copy, Debug, PartialEq, Eq, Structural)]
pub enum PaymentMethod {
    Efectivo,
    Tarjeta,
    Adeudo,
}

impl Default for PaymentMethod {
    fn default() -> (d: Self)
        ensures
            d == PaymentMethod::Efectivo,
    {
        PaymentMethod::Efectivo
    }
}

impl PaymentMethod {
    /// The number that stands for the payment method in the database.
    pub open spec fn id_of(self) -> i32 {
        match self {
            PaymentMethod::Efectivo => 1,
            PaymentMethod::Tarjeta => 2,
            PaymentMethod::Adeudo => 3,
        }
    }

    /// The payment method that a database number stands for.
    pub open spec fn of_id(id: i32) -> Option<Self> {
        if id == 1 {
            Some(PaymentMethod::Efectivo)
        } else if id == 2 {
            Some(PaymentMethod::Tarjeta)
        } else if id == 3 {
            Some(PaymentMethod::Adeudo)
        } else {
            None
        }
    }

    /// The name shown for the payment method.
    pub open spec fn label_text(self) -> Seq<char> {
        match self {
            PaymentMethod::Efectivo => "Efectivo"@,
            PaymentMethod::Tarjeta => "Tarjeta"@,
            PaymentMethod::Adeudo => "Adeudo"@,
        }
    }

    pub fn to_id(self) -> (id: i32)
        ensures
            id == self.id_of(),
    {
        match self {
            PaymentMethod::Efectivo => 1,
            PaymentMethod::Tarjeta => 2,
            PaymentMethod::Adeudo => 3,
        }
    }

    pub fn from_id(id: i32) -> (res: Option<Self>)
        ensures
            res == Self::of_id(id),
            res is Some <==> 1 <= id <= 3,
    {
        match id {
            1 => Some(PaymentMethod::Efectivo),
            2 => Some(PaymentMethod::Tarjeta),
            3 => Some(PaymentMethod::Adeudo),
            _ => None,
        }
    }

    /// The name shown for the payment method (its `Display`).
    pub fn label(self) -> (s: String)
        ensures
            s@ == self.label_text(),
    {
        match self {
            PaymentMethod::Efectivo => String::from_str("Efectivo"),
            PaymentMethod::Tarjeta => String::from_str("Tarjeta"),
            PaymentMethod::Adeudo => String::from_str("Adeudo"),
        }
    }
}

/// Reading back the number stored for a payment method gives the same method.
pub proof fn payment_method_id_round_trip(m: PaymentMethod)
    ensures
        PaymentMethod::of_id(m.id_of()) == Some(m),
{
}

/// A number that reads as a payment method is the number stored for it.
pub proof fn payment_method_id_is_stored(id: i32)
    ensures
        PaymentMethod::of_id(id) matches Some(m) ==> m.id_of() == id,
{
}

/// Whether a temporal ticket is still open or has been printed.
#[derive(Clone, Copy, Debug, PartialEq, Eq, Structural)]
pub enum TemporalTicketStatus {
    Pending,
    Printed,
}

impl Default for TemporalTicketStatus {
    fn default() -> (d: Self)
        ensures
            d == TemporalTicketStatus::Pending,
    {
        TemporalTicketStatus::Pending
    }
}

/// The status that a stored number stands for: 1 is printed, every other
/// number pending.
pub open spec fn status_of_number(n: i32) -> TemporalTicketStatus {
    if n == 1 {
        TemporalTicketStatus::Printed
    } else {
        TemporalTicketStatus::Pending
    }
}

pub fn match_number_with_temporal_ticket_status(n: i32) -> (s: TemporalTicketStatus)
    ensures
        s == status_of_number(n),
{
    match n {
        0 => TemporalTicketStatus::Pending,
        1 => TemporalTicketStatus::Printed,
        _ => TemporalTicketStatus::Pending,
    }
}

} // verus!
