//! What the bar screen keeps, whatever the state.

use vstd::prelude::*;
use crate::action::{instructions_only, no_action, tasks_only};
use crate::models::{TemporalProduct, TemporalProductView, TemporalTicketView};
use crate::text::decimal_int;
use super::{
    PrintTicketModalActions, TicketType, location_number,
    BarInstruction, BarScreen, BarTaskView, BarView, Message, NumPadAction, TemporalProductField,
    bar_message_allowed, bar_step, current_ticket_locked, current_ticket_view, delete_line_tasks, digit_text, key_text,
    product_input_step,
    product_position, set_tickets_step,
};

verus! {

/// `Back` on the pay screen returns to the home screen of the bar, and on the
/// home screen asks the parent to go back; nothing else changes.
pub proof fn bar_back_leaves_pay_screen_first(s: BarView)
    ensures
        s.bar_screen == BarScreen::Pay ==> bar_step(s, Message::Back) == (
            BarView { bar_screen: BarScreen::Home, ..s },
            no_action::<BarInstruction, BarTaskView>(),
        ),
        s.bar_screen == BarScreen::Home ==> bar_step(s, Message::Back) == (
            s,
            instructions_only::<BarInstruction, BarTaskView>(seq![BarInstruction::Back]),
        ),
{
}

/// A ticket that has an invoice takes no input: a click on a product or on a
/// numpad key other than a digit changes nothing and asks for nothing.
pub proof fn bar_locked_ticket_takes_no_input(
    s: BarView,
    product_id: Option<i32>,
    key: NumPadAction,
    parsed: Option<u32>,
)
    requires
        current_ticket_locked(s),
    ensures
        bar_step(s, Message::OnProductClicked(product_id)) == (s, no_action::<BarInstruction, BarTaskView>()),
        bar_step(s, Message::OnNumpadKeyClicked(key, parsed)) == (s, no_action::<BarInstruction, BarTaskView>()),
{
}

/// Only a price can be decimal: the decimal key does nothing while the
/// quantity of a line is focused.
pub proof fn bar_quantity_takes_no_decimal(s: BarView, parsed: Option<u32>)
    requires
        s.active_field == Some(TemporalProductField::Quantity),
    ensures
        bar_step(s, Message::OnNumpadKeyClicked(NumPadAction::Decimal, parsed)) == (
            s,
            no_action::<BarInstruction, BarTaskView>(),
        ),
{
}

/// A numpad digit acts as the text it makes typed into the focused field:
/// the same state and the same work as that text input.
pub proof fn bar_numpad_digit_acts_as_typing(
    s: BarView,
    num: u8,
    parsed: Option<u32>,
    line: TemporalProduct,
    text: String,
)
    requires
        digit_text(s, num) == Some((line@, text@)),
    ensures
        bar_step(s, Message::OnNumpadNumberClicked(num, parsed)) == bar_step(
            s,
            Message::TemporalProductInput(line, text, parsed),
        ),
{
}

/// On a ticket without an invoice, the erase and decimal keys act as the
/// text they make typed into the focused field: the same state and the same
/// work as that text input.
pub proof fn bar_numpad_key_acts_as_typing(
    s: BarView,
    key: NumPadAction,
    parsed: Option<u32>,
    line: TemporalProduct,
    text: String,
)
    requires
        !current_ticket_locked(s),
        key_text(s, key) == Some((line@, text@)),
    ensures
        bar_step(s, Message::OnNumpadKeyClicked(key, parsed)) == bar_step(
            s,
            Message::TemporalProductInput(line, text, parsed),
        ),
{
}

/// Erasing the last digit of a one-digit quantity stores `0` as the
/// quantity of the line.
pub proof fn bar_erase_single_digit_quantity_leaves_zero(s: BarView, p: TemporalProductView, parsed: Option<u32>)
    requires
        !current_ticket_locked(s),
        s.active_product == Some(p),
        s.active_field == Some(TemporalProductField::Quantity),
        0 <= p.quantity <= 9,
    ensures
        bar_step(s, Message::OnNumpadKeyClicked(NumPadAction::Erase, parsed)) == (
            s,
            if s.has_database {
                tasks_only::<BarInstruction, BarTaskView>(
                    seq![BarTaskView::EditTemporalProduct(TemporalProductView { quantity: 0, ..p })],
                )
            } else {
                no_action::<BarInstruction, BarTaskView>()
            },
        ),
{
    assert(decimal_int(p.quantity as int).len() == 1) by {
        reveal_with_fuel(crate::text::decimal_nat, 2);
    }
    let zero = seq!['0'];
    assert(crate::text::digits_value(zero) == 0) by {
        reveal_with_fuel(crate::text::digits_value, 2);
    }
    crate::text::lemma_parse_digits(zero);
}

/// Deleting the only line of a ticket deletes the ticket too; deleting one
/// of several lines keeps it.
pub proof fn bar_deleting_last_line_deletes_ticket(s: BarView, line_id: Option<i32>)
    requires
        current_ticket_view(s) is Some,
    ensures
        current_ticket_view(s)->0.products.len() == 1 ==> delete_line_tasks(
            line_id,
            current_ticket_view(s),
        ).len() == 2 && delete_line_tasks(line_id, current_ticket_view(s))[1]
            == BarTaskView::DeleteTemporalTicket(current_ticket_view(s)->0.id.unwrap_or(0)),
        current_ticket_view(s)->0.products.len() != 1 ==> delete_line_tasks(
            line_id,
            current_ticket_view(s),
        ) == seq![BarTaskView::DeleteTemporalProduct(line_id.unwrap_or(0))],
{
}

/// When the tickets are fetched again while a price is being typed, the line
/// being edited keeps the text typed so far (so a trailing `.` is not lost).
pub proof fn bar_refetch_keeps_typed_price(s: BarView, tickets: Seq<crate::models::TemporalTicketView>)
    requires
        s.active_product is Some,
        s.active_field == Some(TemporalProductField::Price),
        product_position(tickets, s.active_product->0.id) is Some,
    ensures
        set_tickets_step(s, tickets).active_product is Some,
        set_tickets_step(s, tickets).active_product->0.price_input == s.active_product->0.price_input,
        set_tickets_step(s, tickets).active_product->0.id == s.active_product->0.id,
{
    let (t, p) = product_position(tickets, s.active_product->0.id)->0;
    crate::lists::lemma_first_index(
        tickets,
        super::ticket_with_product(s.active_product->0.id),
        crate::lists::first_index(tickets, super::ticket_with_product(s.active_product->0.id)),
    );
    crate::lists::lemma_first_index(
        tickets[t].products,
        super::product_with_id(s.active_product->0.id),
        crate::lists::first_index(tickets[t].products, super::product_with_id(s.active_product->0.id)),
    );
}

/// A price that already has two decimals takes no longer text: the line is
/// stored unchanged.
pub proof fn bar_price_keeps_two_decimals(
    s: BarView,
    product: TemporalProductView,
    new_value: Seq<char>,
    parsed: Option<u32>,
)
    requires
        s.active_field == Some(TemporalProductField::Price),
        crate::text::price_input_full(product.price_input, new_value),
    ensures
        product_input_step(s, product, new_value, parsed).0 == s,
        s.has_database ==> product_input_step(s, product, new_value, parsed).1 == tasks_only::<
            BarInstruction,
            BarTaskView,
        >(seq![BarTaskView::EditTemporalProduct(product)]),
{
}

/// Every edit of a focused ticket line is handed to the database at once
/// (when there is one), whatever the text typed.
pub proof fn bar_edits_are_stored_at_once(
    s: BarView,
    product: TemporalProductView,
    new_value: Seq<char>,
    parsed: Option<u32>,
)
    requires
        s.has_database,
        s.active_field is Some,
    ensures
        product_input_step(s, product, new_value, parsed).1.tasks.len() == 1,
        product_input_step(s, product, new_value, parsed).1.tasks[0] is EditTemporalProduct,
        product_input_step(s, product, new_value, parsed).1.instructions.len() == 0,
{
}

/// The page indices of the two lists never go negative: after any message
/// the bar takes, each list still shows its first page or a later one.
pub proof fn bar_pages_stay_non_negative(s: BarView, m: Message)
    requires
        bar_message_allowed(s, m),
        s.categories_page.current_page >= 0,
        s.products_page.current_page >= 0,
    ensures
        bar_step(s, m).0.categories_page.current_page >= 0,
        bar_step(s, m).0.products_page.current_page >= 0,
{
}

/// The pay screen always has a method selected once it has methods: every
/// message keeps that so.
pub proof fn bar_pay_screen_keeps_a_selected_method(s: BarView, m: Message)
    requires
        s.pay_screen.payment_methods.len() == 0 || s.pay_screen.selected_payment_method is Some,
    ensures
        bar_step(s, m).0.pay_screen.payment_methods.len() == 0
            || bar_step(s, m).0.pay_screen.selected_payment_method is Some,
{
}

/// A ticket is invoiced at most once: printing the ticket of the selected
/// table fetches the invoice it has, and creates one only for a ticket
/// that has none; the screen does not change.
pub proof fn bar_print_invoices_a_ticket_once(s: BarView, t: TemporalTicketView)
    requires
        current_ticket_view(s) == Some(t),
        s.has_database,
    ensures
        ({
            let (s2, a) = bar_step(s, Message::PrintModalAction(PrintTicketModalActions::PrintTicket));
            &&& s2 == s
            &&& a.instructions.len() == 0
            &&& t.simple_invoice_id matches Some(invoice) ==> a.tasks == seq![BarTaskView::GetInvoice(invoice)]
            &&& t.simple_invoice_id is None ==> a.tasks == seq![BarTaskView::CreateInvoice(t)]
            &&& forall|k: int| 0 <= k < a.tasks.len() && (#[trigger] a.tasks[k] is CreateInvoice)
                ==> t.simple_invoice_id is None
        }),
{
}

/// Once a ticket is paid the bar shows its home screen again and fetches
/// the tickets anew (when there is a database).
pub proof fn bar_paid_ticket_returns_home(s: BarView, u: ())
    ensures
        bar_step(s, Message::PaidTemporalTicket(Ok(u))).0.bar_screen == BarScreen::Home,
        bar_step(s, Message::PaidTemporalTicket(Ok(u))).0.tickets == s.tickets,
        s.has_database ==> bar_step(s, Message::PaidTemporalTicket(Ok(u))).1.tasks == seq![
            BarTaskView::LoadTemporalTickets,
        ],
{
}

/// Choosing a table selects it (at the same location), forgets the focused
/// line, keeps the tickets and fetches them anew.
pub proof fn bar_table_change_selects_and_refetches(s: BarView, i: usize)
    ensures
        ({
            let (s2, a) = bar_step(s, Message::OnTableChange(i));
            &&& s2.pos.table_index == i
            &&& s2.pos.location == s.pos.location
            &&& s2.active_product is None
            &&& s2.active_field is None
            &&& s2.tickets == s.tickets
            &&& s2.bar_screen == s.bar_screen
            &&& a.instructions.len() == 0
            &&& s.has_database ==> a.tasks == seq![BarTaskView::LoadTemporalTickets]
            &&& !s.has_database ==> a.tasks.len() == 0
        }),
{
}

/// A product clicked on a ticket without an invoice is added to the ticket
/// of the selected table: one upsert of a ticket for that table and
/// location (new, without lines or invoice) with that product.
pub proof fn bar_product_click_adds_to_selected_table(s: BarView, id: i32)
    requires
        !current_ticket_locked(s),
        s.has_database,
    ensures
        ({
            let (s2, a) = bar_step(s, Message::OnProductClicked(Some(id)));
            &&& a.instructions.len() == 0
            &&& a.tasks.len() == 1
            &&& a.tasks[0] matches BarTaskView::UpsertTicketWithProduct(t, product) && {
                &&& product == id
                &&& t.table_id == s.pos.table_index as i32
                &&& t.ticket_location == location_number(s.pos.location)
                &&& t.id is None
                &&& t.simple_invoice_id is None
                &&& t.products.len() == 0
            }
            &&& s2.active_product is None
            &&& s2.tickets == s.tickets
            &&& s2.pos == s.pos
        }),
{
}

/// The pay screen opens only for a table that has a ticket.
pub proof fn bar_pay_screen_needs_a_ticket(s: BarView)
    ensures
        current_ticket_view(s) is Some ==> bar_step(s, Message::OpenPayScreen).0.bar_screen == BarScreen::Pay,
        current_ticket_view(s) is None ==> bar_step(s, Message::OpenPayScreen) == (
            s,
            no_action::<BarInstruction, BarTaskView>(),
        ),
        bar_step(s, Message::OpenPayScreen).1.tasks.len() == 0,
{
}

/// Paying charges the given ticket with the selected payment method, and
/// changes nothing on the screen until the payment is answered; without a
/// selected method nothing is paid.
pub proof fn bar_pay_uses_the_selected_method(s: BarView, id: i32)
    ensures
        bar_step(s, Message::PayTemporalTicket(id)).0 == s,
        s.pay_screen.selected_payment_method matches Some(m) ==> (s.has_database ==> bar_step(
            s,
            Message::PayTemporalTicket(id),
        ).1.tasks == seq![BarTaskView::PayTicket(id, m.id.unwrap_or(0))]),
        s.pay_screen.selected_payment_method is None ==> bar_step(s, Message::PayTemporalTicket(id)).1
            == no_action::<BarInstruction, BarTaskView>(),
{
}

/// Printing goes to the selected printer, as the chosen kind of ticket;
/// without a selected printer nothing is printed.
pub proof fn bar_print_goes_to_the_selected_printer(s: BarView)
    ensures
        bar_step(s, Message::PrintTicket).0 == s,
        s.print_modal.selected_printer matches Some(p) ==> bar_step(s, Message::PrintTicket).1.tasks
            == seq![BarTaskView::PrintInvoice(p, s.print_modal.ticket_type)],
        s.print_modal.selected_printer is None ==> bar_step(s, Message::PrintTicket).1.tasks.len() == 0,
{
}

/// After a print job the focus is forgotten, the kind of ticket goes back
/// to a receipt and the tickets are fetched anew; a failed job is reported
/// in a toast, a finished one adds none.
pub proof fn bar_print_job_completed_resets(s: BarView, r: Result<(), String>)
    ensures
        ({
            let (s2, a) = bar_step(s, Message::PrintJobCompleted(r));
            &&& s2.active_product is None
            &&& s2.active_field is None
            &&& s2.print_modal.ticket_type == TicketType::Receipt
            &&& s2.print_modal.selected_printer == s.print_modal.selected_printer
            &&& s2.tickets == s.tickets
            &&& (r is Ok ==> s2.toasts == s.toasts)
            &&& (r matches Err(e) ==> s2.toasts == s.toasts.push(crate::models::error_toast_view(e@)))
            &&& s.has_database ==> a.tasks == seq![BarTaskView::LoadTemporalTickets]
        }),
{
}

/// New payment methods select the first of them; an empty list keeps the
/// selection there was.
pub proof fn bar_new_payment_methods_select_the_first(s: BarView, methods: Vec<crate::models::PaymentMethodRecord>)
    ensures
        methods@.len() > 0 ==> bar_step(s, Message::SetPaymentMethods(methods)).0.pay_screen.selected_payment_method
            == Some(methods@[0]@),
        methods@.len() == 0 ==> bar_step(s, Message::SetPaymentMethods(methods)).0.pay_screen.selected_payment_method
            == s.pay_screen.selected_payment_method,
        bar_step(s, Message::SetPaymentMethods(methods)).0.pay_screen.payment_methods == methods.deep_view(),
{
}

/// A payment that failed keeps the pay screen open and reports the error in
/// a toast, asking for nothing.
pub proof fn bar_failed_payment_is_reported(s: BarView, e: String)
    ensures
        bar_step(s, Message::PaidTemporalTicket(Err(e))).0.bar_screen == s.bar_screen,
        bar_step(s, Message::PaidTemporalTicket(Err(e))).0.toasts == s.toasts.push(
            crate::models::error_toast_view(e@),
        ),
        bar_step(s, Message::PaidTemporalTicket(Err(e))).1 == no_action::<BarInstruction, BarTaskView>(),
{
}

/// Opening the bar asks for its tickets, product categories, payment methods
/// and printers; without a database only for the printers.
pub proof fn bar_opening_loads_its_data(s: BarView)
    ensures
        bar_step(s, Message::InitPage).0 == s,
        s.has_database ==> bar_step(s, Message::InitPage).1.tasks == seq![
            BarTaskView::LoadTemporalTickets,
            BarTaskView::LoadProductCategories,
            BarTaskView::LoadPaymentMethods,
            BarTaskView::LoadPrinters,
        ],
        !s.has_database ==> bar_step(s, Message::InitPage).1.tasks == seq![BarTaskView::LoadPrinters],
{
}

} // verus!
