use alegria::entities::{
    IdentityDocumentType, PaymentMethod, TemporalTicketStatus,
    match_number_with_temporal_ticket_status,
};
use alegria::numpad::{NumpadKey, numpad_key_at};

#[test]
fn identity_document_types_round_trip_through_their_numbers() {
    for t in IdentityDocumentType::all() {
        assert_eq!(IdentityDocumentType::from_id(t.to_id()), Some(t));
    }
    assert_eq!(IdentityDocumentType::Dni.to_id(), 1);
    assert_eq!(IdentityDocumentType::CarnetConducir.to_id(), 5);
    assert_eq!(IdentityDocumentType::from_id(0), None);
    assert_eq!(IdentityDocumentType::from_id(6), None);
    assert_eq!(IdentityDocumentType::Pasaporte.label(), "Pasaporte");
    assert_eq!(IdentityDocumentType::default(), IdentityDocumentType::Dni);
}

#[test]
fn payment_methods_round_trip_through_their_numbers() {
    for m in [PaymentMethod::Efectivo, PaymentMethod::Tarjeta, PaymentMethod::Adeudo] {
        assert_eq!(PaymentMethod::from_id(m.to_id()), Some(m));
    }
    assert_eq!(PaymentMethod::from_id(0), None);
}

#[test]
fn ticket_status_numbers() {
    assert_eq!(match_number_with_temporal_ticket_status(0), TemporalTicketStatus::Pending);
    assert_eq!(match_number_with_temporal_ticket_status(1), TemporalTicketStatus::Printed);
    assert_eq!(match_number_with_temporal_ticket_status(7), TemporalTicketStatus::Pending);
    assert_eq!(match_number_with_temporal_ticket_status(-1), TemporalTicketStatus::Pending);
}

#[test]
fn numpad_keys() {
    assert_eq!(numpad_key_at(0, 0), Some(NumpadKey::Number(7)));
    assert_eq!(numpad_key_at(0, 2), Some(NumpadKey::Number(9)));
    assert_eq!(numpad_key_at(1, 1), Some(NumpadKey::Number(5)));
    assert_eq!(numpad_key_at(2, 0), Some(NumpadKey::Number(1)));
    assert_eq!(numpad_key_at(3, 0), Some(NumpadKey::Comma));
    assert_eq!(numpad_key_at(3, 1), Some(NumpadKey::Number(0)));
    assert_eq!(numpad_key_at(3, 2), Some(NumpadKey::Back));
    assert_eq!(numpad_key_at(3, 3), None);
    assert_eq!(numpad_key_at(4, 0), None);
}
