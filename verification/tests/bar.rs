use alegria::bar::{
    Bar, BarInstruction, BarScreen, BarTask, ButtonTone, Message, NumPadAction, TableLocation,
    TemporalProductField, match_table_location_with_number,
};
use alegria::models::{PaymentMethodRecord, TemporalProduct, TemporalTicket, Toast};
use alegria::pagination::PaginationAction;

fn line(id: i32, quantity: i32, price_input: &str) -> TemporalProduct {
    TemporalProduct {
        id: Some(id),
        name: String::from("Caña"),
        quantity,
        price_bits: Some(1.5f32.to_bits()),
        price_input: String::from(price_input),
    }
}

fn ticket(id: i32, table: i32, location: i32, status: i32, invoice: Option<i32>, products: Vec<TemporalProduct>) -> TemporalTicket {
    TemporalTicket {
        id: Some(id),
        table_id: table,
        ticket_location: location,
        ticket_status: status,
        simple_invoice_id: invoice,
        products,
    }
}

#[test]
fn opening_the_bar_loads_its_data() {
    let mut bar = Bar::new(true);
    let action = bar.update(Message::InitPage);
    assert_eq!(action.tasks.len(), 4);
    assert!(matches!(action.tasks[0], BarTask::LoadTemporalTickets));
    assert!(matches!(action.tasks[1], BarTask::LoadProductCategories));
    assert!(matches!(action.tasks[2], BarTask::LoadPaymentMethods));
    assert!(matches!(action.tasks[3], BarTask::LoadPrinters));

    let mut offline = Bar::new(false);
    let action = offline.update(Message::InitPage);
    assert_eq!(action.tasks.len(), 1);
    assert!(matches!(action.tasks[0], BarTask::LoadPrinters));
}

#[test]
fn changing_table_refetches_and_forgets_the_focus() {
    let mut bar = Bar::new(true);
    bar.update(Message::FocusProductQuantity(line(1, 2, "1.5")));
    let action = bar.update(Message::OnTableChange(3));
    assert_eq!(bar.currently_selected_pos_state.table_index, 3);
    assert!(bar.active_temporal_product.is_none());
    assert!(bar.active_temporal_product_field.is_none());
    assert_eq!(action.tasks.len(), 1);
    assert!(matches!(action.tasks[0], BarTask::LoadTemporalTickets));
}

#[test]
fn a_locked_ticket_takes_no_products() {
    let mut bar = Bar::new(true);
    bar.update(Message::SetTemporalTickets(vec![ticket(9, 0, 0, 1, Some(5), vec![line(1, 1, "1.5")])]));
    let action = bar.update(Message::OnProductClicked(Some(4)));
    assert!(action.tasks.is_empty());
    let action = bar.update(Message::OnNumpadKeyClicked(NumPadAction::Delete, None));
    assert!(action.tasks.is_empty());
}

#[test]
fn a_product_click_upserts_the_ticket_of_the_table() {
    let mut bar = Bar::new(true);
    bar.update(Message::ChangeCurrentTablesLocation(TableLocation::Garden));
    bar.update(Message::OnTableChange(2));
    let action = bar.update(Message::OnProductClicked(Some(4)));
    assert_eq!(action.tasks.len(), 1);
    match &action.tasks[0] {
        BarTask::UpsertTicketWithProduct(t, product) => {
            assert_eq!(*product, 4);
            assert_eq!(t.table_id, 2);
            assert_eq!(t.ticket_location, match_table_location_with_number(TableLocation::Garden));
            assert_eq!(t.ticket_location, 2);
            assert!(t.id.is_none());
            assert!(t.products.is_empty());
        },
        other => panic!("unexpected task {:?}", other),
    }
}

fn price_bits_of(text: &str) -> Option<u32> {
    text.parse::<f32>().ok().map(|f| f.to_bits())
}

#[test]
fn numpad_digits_are_appended_to_the_focused_field() {
    let mut bar = Bar::new(true);
    bar.update(Message::FocusProductQuantity(line(1, 3, "1.5")));
    assert_eq!(bar.numpad_digit_text(4), Some(String::from("34")));
    let action = bar.update(Message::OnNumpadNumberClicked(4, None));
    assert_eq!(action.tasks.len(), 1);
    match &action.tasks[0] {
        BarTask::EditTemporalProduct(p) => {
            assert_eq!(p.id, Some(1));
            assert_eq!(p.quantity, 34);
        },
        other => panic!("unexpected task {:?}", other),
    }

    bar.update(Message::FocusProductPrice(line(1, 3, "1.5")));
    let text = bar.numpad_digit_text(0).unwrap();
    assert_eq!(text, "1.50");
    let action = bar.update(Message::OnNumpadNumberClicked(0, price_bits_of(&text)));
    match &action.tasks[0] {
        BarTask::EditTemporalProduct(p) => assert_eq!(p.price_bits, Some(1.5f32.to_bits())),
        other => panic!("unexpected task {:?}", other),
    }
    assert_eq!(bar.active_temporal_product.as_ref().unwrap().price_input, "1.50");

    let text = bar.numpad_key_text(NumPadAction::Decimal).unwrap();
    assert_eq!(text, "1.50.");
    assert_eq!(price_bits_of(&text), None);
    assert_eq!(bar.numpad_key_text(NumPadAction::Delete), None);
}

#[test]
fn a_numpad_digit_acts_as_the_typed_text() {
    let mut typed = Bar::new(true);
    typed.update(Message::FocusProductPrice(line(1, 3, "2")));
    let mut pressed = Bar::new(true);
    pressed.update(Message::FocusProductPrice(line(1, 3, "2")));

    let text = pressed.numpad_digit_text(5).unwrap();
    assert_eq!(text, "25");
    let by_key = pressed.update(Message::OnNumpadNumberClicked(5, price_bits_of(&text)));
    let by_text = typed.update(Message::TemporalProductInput(line(1, 3, "2"), text.clone(), price_bits_of(&text)));
    assert_eq!(by_key.tasks.len(), by_text.tasks.len());
    match (&by_key.tasks[0], &by_text.tasks[0]) {
        (BarTask::EditTemporalProduct(a), BarTask::EditTemporalProduct(b)) => {
            assert_eq!(a.price_bits, Some(25.0f32.to_bits()));
            assert_eq!(a.price_bits, b.price_bits);
            assert_eq!(a.quantity, b.quantity);
        },
        other => panic!("unexpected tasks {:?}", other),
    }
    assert_eq!(
        pressed.active_temporal_product.as_ref().unwrap().price_input,
        typed.active_temporal_product.as_ref().unwrap().price_input,
    );
}

#[test]
fn erasing_a_single_digit_quantity_leaves_zero() {
    let mut bar = Bar::new(true);
    bar.update(Message::FocusProductQuantity(line(1, 7, "1.5")));
    assert_eq!(bar.numpad_key_text(NumPadAction::Erase), Some(String::from("0")));
    let action = bar.update(Message::OnNumpadKeyClicked(NumPadAction::Erase, None));
    match &action.tasks[0] {
        BarTask::EditTemporalProduct(p) => assert_eq!(p.quantity, 0),
        other => panic!("unexpected task {:?}", other),
    }
    bar.update(Message::FocusProductQuantity(line(1, 27, "1.5")));
    assert_eq!(bar.numpad_key_text(NumPadAction::Erase), Some(String::from("2")));
    let action = bar.update(Message::OnNumpadKeyClicked(NumPadAction::Erase, None));
    match &action.tasks[0] {
        BarTask::EditTemporalProduct(p) => assert_eq!(p.quantity, 2),
        other => panic!("unexpected task {:?}", other),
    }
    bar.update(Message::FocusProductPrice(line(1, 27, "1.5")));
    let text = bar.numpad_key_text(NumPadAction::Erase).unwrap();
    assert_eq!(text, "1.");
    let action = bar.update(Message::OnNumpadKeyClicked(NumPadAction::Erase, price_bits_of(&text)));
    match &action.tasks[0] {
        BarTask::EditTemporalProduct(p) => assert_eq!(p.price_bits, Some(1.0f32.to_bits())),
        other => panic!("unexpected task {:?}", other),
    }
}

#[test]
fn typed_quantities_and_prices_are_stored() {
    let mut bar = Bar::new(true);
    bar.update(Message::FocusProductQuantity(line(1, 3, "1.5")));
    let action = bar.update(Message::TemporalProductInput(line(1, 3, "1.5"), String::from("12"), None));
    match &action.tasks[0] {
        BarTask::EditTemporalProduct(p) => assert_eq!(p.quantity, 12),
        other => panic!("unexpected task {:?}", other),
    }
    let action = bar.update(Message::TemporalProductInput(line(1, 3, "1.5"), String::from("x"), None));
    match &action.tasks[0] {
        BarTask::EditTemporalProduct(p) => assert_eq!(p.quantity, 3),
        other => panic!("unexpected task {:?}", other),
    }
    let action = bar.update(Message::TemporalProductInput(line(1, 3, "1.5"), String::new(), None));
    match &action.tasks[0] {
        BarTask::EditTemporalProduct(p) => assert_eq!(p.quantity, 0),
        other => panic!("unexpected task {:?}", other),
    }

    bar.update(Message::FocusProductPrice(line(1, 3, "1.25")));
    let bits = 2.75f32.to_bits();
    let action = bar.update(Message::TemporalProductInput(line(1, 3, "1.25"), String::from("2.75"), Some(bits)));
    match &action.tasks[0] {
        BarTask::EditTemporalProduct(p) => assert_eq!(p.price_bits, Some(bits)),
        other => panic!("unexpected task {:?}", other),
    }
    assert_eq!(bar.active_temporal_product.as_ref().unwrap().price_input, "2.75");
}

#[test]
fn a_price_with_two_decimals_takes_no_third() {
    let mut bar = Bar::new(true);
    bar.update(Message::FocusProductPrice(line(1, 3, "1.25")));
    let action = bar.update(Message::TemporalProductInput(
        line(1, 3, "1.25"),
        String::from("1.255"),
        Some(1.255f32.to_bits()),
    ));
    match &action.tasks[0] {
        BarTask::EditTemporalProduct(p) => {
            assert_eq!(p.price_bits, Some(1.5f32.to_bits()));
            assert_eq!(p.price_input, "1.25");
        },
        other => panic!("unexpected task {:?}", other),
    }
}

#[test]
fn deleting_the_only_line_deletes_the_ticket() {
    let mut bar = Bar::new(true);
    bar.update(Message::SetTemporalTickets(vec![ticket(9, 0, 0, 0, None, vec![line(1, 1, "1.5")])]));
    bar.update(Message::FocusProductQuantity(line(1, 1, "1.5")));
    let action = bar.update(Message::OnNumpadKeyClicked(NumPadAction::Delete, None));
    assert_eq!(action.tasks.len(), 2);
    assert!(matches!(action.tasks[0], BarTask::DeleteTemporalProduct(1)));
    assert!(matches!(action.tasks[1], BarTask::DeleteTemporalTicket(9)));
    assert!(bar.active_temporal_product.is_none());

    let mut bar = Bar::new(true);
    bar.update(Message::SetTemporalTickets(vec![ticket(9, 0, 0, 0, None, vec![line(1, 1, "1.5"), line(2, 1, "1.5")])]));
    let action = bar.update(Message::OnNumpadKeyClicked(NumPadAction::Delete, None));
    assert_eq!(action.tasks.len(), 1);
    assert!(matches!(action.tasks[0], BarTask::DeleteTemporalProduct(1)));
}

#[test]
fn refetching_keeps_the_price_being_typed() {
    let mut bar = Bar::new(true);
    bar.update(Message::FocusProductPrice(line(1, 1, "2.")));
    bar.update(Message::SetTemporalTickets(vec![ticket(9, 0, 0, 0, None, vec![line(1, 1, "2")])]));
    assert_eq!(bar.active_temporal_product.as_ref().unwrap().price_input, "2.");
    assert_eq!(bar.temporal_tickets_model[0].products[0].price_input, "2.");
    assert_eq!(bar.active_temporal_product_field, Some(TemporalProductField::Price));
}

#[test]
fn back_closes_the_pay_screen_first() {
    let mut bar = Bar::new(true);
    let action = bar.update(Message::OpenPayScreen);
    assert!(action.tasks.is_empty());
    assert_eq!(bar.bar_screen, BarScreen::Home);
    bar.update(Message::SetTemporalTickets(vec![ticket(9, 0, 0, 0, None, vec![line(1, 1, "1.5")])]));
    bar.update(Message::OpenPayScreen);
    assert_eq!(bar.bar_screen, BarScreen::Pay);
    let action = bar.update(Message::Back);
    assert!(action.instructions.is_empty());
    assert_eq!(bar.bar_screen, BarScreen::Home);
    let action = bar.update(Message::Back);
    assert_eq!(action.instructions.len(), 1);
    assert_eq!(action.instructions[0], BarInstruction::Back);
}

#[test]
fn table_buttons_show_the_state_of_their_tickets() {
    let mut bar = Bar::new(true);
    bar.update(Message::SetTemporalTickets(vec![
        ticket(1, 1, 0, 0, None, vec![]),
        ticket(2, 2, 0, 1, Some(3), vec![]),
        ticket(3, 3, 1, 1, None, vec![]),
    ]));
    assert_eq!(bar.table_button_tone(0), ButtonTone::Primary);
    assert_eq!(bar.table_button_tone(1), ButtonTone::Danger);
    assert_eq!(bar.table_button_tone(2), ButtonTone::Success);
    assert_eq!(bar.table_button_tone(3), ButtonTone::Secondary);
    assert_eq!(bar.location_button_tone(TableLocation::Bar), ButtonTone::Primary);
    assert_eq!(bar.location_button_tone(TableLocation::Garden), ButtonTone::Secondary);
    assert_eq!(bar.category_button_tone(None), ButtonTone::Primary);
    assert_eq!(bar.category_button_tone(Some(2)), ButtonTone::Secondary);
}

#[test]
fn toasts_are_added_and_closed() {
    let mut bar = Bar::new(false);
    bar.update(Message::AddToast(Toast { title: String::from("a"), body: String::from("b") }));
    bar.update(Message::PrintJobCompleted(Err(String::from("no paper"))));
    assert_eq!(bar.toasts.len(), 2);
    assert_eq!(bar.toasts[1].title, "Error");
    assert_eq!(bar.toasts[1].body, "no paper");
    bar.update(Message::CloseToast(0));
    assert_eq!(bar.toasts.len(), 1);
    assert_eq!(bar.toasts[0].body, "no paper");
}

#[test]
fn category_pages_move_within_the_list() {
    let mut bar = Bar::new(false);
    bar.update(Message::ProductCategoriesPaginationAction(PaginationAction::Down));
    assert_eq!(bar.product_categories_pagination_state.current_page(), 0);
    bar.update(Message::ProductCategoriesPaginationAction(PaginationAction::Up));
    assert_eq!(bar.product_categories_pagination_state.current_page(), 0);
}

#[test]
fn the_first_payment_method_is_selected() {
    let mut bar = Bar::new(true);
    bar.update(Message::SetPaymentMethods(vec![
        PaymentMethodRecord { id: Some(1), name: String::from("Efectivo") },
        PaymentMethodRecord { id: Some(2), name: String::from("Tarjeta") },
    ]));
    assert_eq!(bar.pay_screen.selected_payment_method.as_ref().unwrap().id, Some(1));
    assert_eq!(bar.payment_method_tone(Some(1)), ButtonTone::Success);
    assert_eq!(bar.payment_method_tone(Some(2)), ButtonTone::Secondary);
    bar.update(Message::ChangeSelectedPaymentMethod(PaymentMethodRecord { id: Some(2), name: String::from("Tarjeta") }));
    assert_eq!(bar.payment_method_tone(Some(2)), ButtonTone::Success);
    bar.update(Message::SetTemporalTickets(vec![ticket(9, 0, 0, 0, None, vec![line(1, 1, "1.5")])]));
    let action = bar.update(Message::PayTemporalTicket(9));
    assert!(matches!(action.tasks[0], BarTask::PayTicket(9, 2)));
}

#[test]
fn only_prices_take_a_decimal_point() {
    let mut bar = Bar::new(true);
    bar.update(Message::FocusProductQuantity(line(1, 3, "1.5")));
    let action = bar.update(Message::OnNumpadKeyClicked(NumPadAction::Decimal, None));
    assert!(action.tasks.is_empty());
    assert!(action.instructions.is_empty());
}

#[test]
fn the_pay_screen_keeps_a_method_once_it_has_methods() {
    let mut bar = Bar::new(true);
    bar.update(Message::SetPaymentMethods(vec![]));
    assert!(bar.pay_screen.payment_methods.is_empty());
    assert!(bar.pay_screen.selected_payment_method.is_none());
    bar.update(Message::SetPaymentMethods(vec![PaymentMethodRecord { id: Some(3), name: String::from("Bizum") }]));
    assert_eq!(bar.pay_screen.selected_payment_method.as_ref().unwrap().id, Some(3));
    bar.update(Message::Back);
    bar.update(Message::FetchTemporalTickets);
    assert!(bar.pay_screen.selected_payment_method.is_some());
}

#[test]
fn pages_never_go_below_the_first() {
    let mut bar = Bar::new(false);
    for _ in 0..3 {
        bar.update(Message::ProductCategoriesPaginationAction(PaginationAction::Up));
        bar.update(Message::ProductCategoryProductsPaginationAction(PaginationAction::Up));
    }
    assert_eq!(bar.product_categories_pagination_state.current_page(), 0);
    assert_eq!(bar.product_category_products_pagination_state.current_page(), 0);
}
