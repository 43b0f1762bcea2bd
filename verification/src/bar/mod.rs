//! The bar till: tables in three locations, each with at most one open
//! temporal ticket, products added from a paged list of categories, a numpad
//! to edit the quantity and the price of a product line, printing and paying.
//!
//! Everything the user does is saved to the database at once and the tickets
//! are then fetched again, so that nothing is lost on a power cut: the state
//! machine below hands that work back as `BarTask`s.

pub mod update;
pub mod laws;

use vstd::prelude::*;
use crate::action::{ActionView, instructions_only, no_action, tasks_only};
use crate::entities::{TemporalTicketStatus, status_of_number};
use crate::lists::first_index;
use crate::models::{
    AlegriaPrinter, NamedRecordView, PaymentMethodRecord, Product, ProductCategory,
    TemporalProduct, TemporalProductView, TemporalTicket, TemporalTicketView, Toast,
    error_toast_view,
};
use crate::pagination::{PaginationAction, PaginationConfig};
use crate::text::{byte_len, decimal_int, parse_i32_spec, price_input_full};

verus! {

/// Defines the different locations in which a table can be located at.
#[derive(Clone, Copy, Debug, PartialEq, Eq, Structural)]
pub enum TableLocation {
    Bar,
    Resturant,
    Garden,
}

impl Default for TableLocation {
    fn default() -> (l: Self)
        ensures
            l == TableLocation::Bar,
    {
        TableLocation::Bar
    }
}

/// The number that stands for a table location in the database.
pub open spec fn location_number(l: TableLocation) -> i32 {
    match l {
        TableLocation::Bar => 0,
        TableLocation::Resturant => 1,
        TableLocation::Garden => 2,
    }
}

pub fn match_table_location_with_number(location: TableLocation) -> (n: i32)
    ensures
        n == location_number(location),
{
    match location {
        TableLocation::Bar => 0,
        TableLocation::Resturant => 1,
        TableLocation::Garden => 2,
    }
}

/// We can identify a table using the table index and its location.
#[derive(Clone, Copy, Debug, PartialEq, Eq, Structural)]
pub struct CurrentPositionState {
    /// Currently selected table location
    pub location: TableLocation,
    /// Currently selected table index
    pub table_index: usize,
}

/// What field of a TemporalProduct are we currently focusing on?
#[derive(Clone, Copy, Debug, PartialEq, Eq, Structural)]
pub enum TemporalProductField {
    Quantity,
    Price,
}

/// Identifies an action of the numpad.
#[derive(Clone, Copy, Debug, PartialEq, Eq, Structural)]
pub enum NumPadAction {
    Delete,
    Erase,
    Decimal,
}

/// Identifies a modal action (the only modal is the print ticket one).
#[derive(Clone, Copy, Debug, PartialEq, Eq, Structural)]
pub enum PrintTicketModalActions {
    ShowModal,
    HideModal,
    PrintTicket,
}

/// The kind of ticket to print.
#[derive(Clone, Copy, Debug, PartialEq, Eq, Structural)]
pub enum TicketType {
    Invoice,
    Receipt,
}

impl Default for TicketType {
    fn default() -> (t: Self)
        ensures
            t == TicketType::Receipt,
    {
        TicketType::Receipt
    }
}

/// Holds the state of the print ticket modal.
#[derive(Debug)]
pub struct PrintTicketModalState {
    pub show_modal: bool,
    /// The kind of ticket we want to print
    pub ticket_type: TicketType,
    /// Printer selected on the selector
    pub selected_printer: Option<AlegriaPrinter>,
    pub all_printers: Vec<AlegriaPrinter>,
    pub default_printer: Option<AlegriaPrinter>,
}

pub struct PrintTicketModalView {
    pub show_modal: bool,
    pub ticket_type: TicketType,
    pub selected_printer: Option<Seq<char>>,
    pub all_printers: Seq<Seq<char>>,
    pub default_printer: Option<Seq<char>>,
}

impl View for PrintTicketModalState {
    type V = PrintTicketModalView;

    open spec fn view(&self) -> PrintTicketModalView {
        PrintTicketModalView {
            show_modal: self.show_modal,
            ticket_type: self.ticket_type,
            selected_printer: self.selected_printer.deep_view(),
            all_printers: self.all_printers.deep_view(),
            default_printer: self.default_printer.deep_view(),
        }
    }
}

/// Represents a page of the bar screen.
#[derive(Clone, Copy, Debug, PartialEq, Eq, Structural)]
pub enum BarScreen {
    Home,
    Pay,
}

/// Holds the state of the pay screen inputs.
#[derive(Debug)]
pub struct PayScreenState {
    pub payment_methods: Vec<PaymentMethodRecord>,
    pub selected_payment_method: Option<PaymentMethodRecord>,
}

pub struct PayScreenView {
    pub payment_methods: Seq<NamedRecordView>,
    pub selected_payment_method: Option<NamedRecordView>,
}

impl View for PayScreenState {
    type V = PayScreenView;

    open spec fn view(&self) -> PayScreenView {
        PayScreenView {
            payment_methods: self.payment_methods.deep_view(),
            selected_payment_method: self.selected_payment_method.deep_view(),
        }
    }
}

/// The state of the bar screen.
#[derive(Debug)]
pub struct Bar {
    /// Whether the application has a database to work with
    pub has_database: bool,
    /// Page toasts
    pub toasts: Vec<Toast>,
    /// Determines which is the current bar screen
    pub bar_screen: BarScreen,
    /// Product categories (for listing and then selecting products)
    pub product_categories: Vec<ProductCategory>,
    /// Selected product category products
    pub product_category_products: Option<Vec<Product>>,
    /// Currently selected product category id
    pub currently_selected_product_category: Option<i32>,
    /// Currently selected table
    pub currently_selected_pos_state: CurrentPositionState,
    /// The open tickets of all tables
    pub temporal_tickets_model: Vec<TemporalTicket>,
    /// The product line that the numpad edits
    pub active_temporal_product: Option<TemporalProduct>,
    /// The field of that product line that the numpad edits
    pub active_temporal_product_field: Option<TemporalProductField>,
    /// Pagination of the product categories list
    pub product_categories_pagination_state: PaginationConfig,
    /// Pagination of the product category products list
    pub product_category_products_pagination_state: PaginationConfig,
    /// The printing modal state
    pub print_modal: PrintTicketModalState,
    /// The pay screen inputs
    pub pay_screen: PayScreenState,
}

pub struct BarView {
    pub has_database: bool,
    pub toasts: Seq<(Seq<char>, Seq<char>)>,
    pub bar_screen: BarScreen,
    pub product_categories: Seq<NamedRecordView>,
    pub product_category_products: Option<Seq<NamedRecordView>>,
    pub currently_selected_product_category: Option<i32>,
    pub pos: CurrentPositionState,
    pub tickets: Seq<TemporalTicketView>,
    pub active_product: Option<TemporalProductView>,
    pub active_field: Option<TemporalProductField>,
    pub categories_page: PaginationConfig,
    pub products_page: PaginationConfig,
    pub print_modal: PrintTicketModalView,
    pub pay_screen: PayScreenView,
}

impl View for Bar {
    type V = BarView;

    open spec fn view(&self) -> BarView {
        BarView {
            has_database: self.has_database,
            toasts: self.toasts.deep_view(),
            bar_screen: self.bar_screen,
            product_categories: self.product_categories.deep_view(),
            product_category_products: self.product_category_products.deep_view(),
            currently_selected_product_category: self.currently_selected_product_category,
            pos: self.currently_selected_pos_state,
            tickets: self.temporal_tickets_model.deep_view(),
            active_product: self.active_temporal_product.deep_view(),
            active_field: self.active_temporal_product_field,
            categories_page: self.product_categories_pagination_state,
            products_page: self.product_category_products_pagination_state,
            print_modal: self.print_modal@,
            pay_screen: self.pay_screen@,
        }
    }
}

/// The messages of the bar screen.
#[derive(Debug)]
pub enum Message {
    /// Asks the parent to go back (or the pay screen to close)
    Back,
    /// Adds the given toast to the state to be shown on screen
    AddToast(Toast),
    /// Callback after clicking the close button of a toast
    CloseToast(usize),
    /// Asks for the data of the page when it opens
    InitPage,
    /// Fetches all the current temporal tickets
    FetchTemporalTickets,
    /// Sets the temporal tickets
    SetTemporalTickets(Vec<TemporalTicket>),
    /// Sets the product categories
    SetProductCategories(Vec<ProductCategory>),
    /// Sets the default printer and all printers
    SetPrinters(Option<AlegriaPrinter>, Vec<AlegriaPrinter>),
    /// Sets the payment methods
    SetPaymentMethods(Vec<PaymentMethodRecord>),
    /// Fetches the products of a product category
    FetchProductCategoryProducts(Option<i32>),
    /// Sets the products of the selected category
    SetProductCategoryProducts(Option<Vec<Product>>),
    /// A table has been clicked
    OnTableChange(usize),
    /// Another table location has been chosen
    ChangeCurrentTablesLocation(TableLocation),
    /// A product of the product list has been clicked
    OnProductClicked(Option<i32>),
    /// A numpad number has been clicked; the last value is the bit pattern
    /// of the text the digit makes of the focused price (`Bar::numpad_digit_text`),
    /// read as an `f32`, when it reads as one
    OnNumpadNumberClicked(u8, Option<u32>),
    /// A numpad key (not a number) has been clicked; the last value is the
    /// bit pattern of the text the key makes of the focused price
    /// (`Bar::numpad_key_text`), read as an `f32`, when it reads as one
    OnNumpadKeyClicked(NumPadAction, Option<u32>),
    /// The quantity field of a product line got the focus
    FocusProductQuantity(TemporalProduct),
    /// The price field of a product line got the focus
    FocusProductPrice(TemporalProduct),
    /// New text for the focused field of a product line; the last value is
    /// the bit pattern of the text read as an `f32` price, when it reads as one
    TemporalProductInput(TemporalProduct, String, Option<u32>),
    /// Go up or down a page of the product categories
    ProductCategoriesPaginationAction(PaginationAction),
    /// Go up or down a page of the products of the selected category
    ProductCategoryProductsPaginationAction(PaginationAction),
    /// An action of the print ticket modal
    PrintModalAction(PrintTicketModalActions),
    /// Updates the selected printer
    UpdateSelectedPrinter(AlegriaPrinter),
    /// Updates the selected ticket type
    UpdateSelectedTicketType(TicketType),
    /// The invoice of the current ticket is ready to be printed
    PrintTicket,
    /// The print job is completed
    PrintJobCompleted(Result<(), String>),
    /// Asks to unlock (delete the invoice of) a locked ticket
    UnlockTicket(TemporalTicket),
    /// Tries to open the pay screen for the current ticket
    OpenPayScreen,
    /// Changes the selected payment method
    ChangeSelectedPaymentMethod(PaymentMethodRecord),
    /// Tries to pay the ticket with the given id
    PayTemporalTicket(i32),
    /// The pay transaction is over
    PaidTemporalTicket(Result<(), String>),
}

/// Messages/Tasks that need to modify state on the main screen.
#[derive(Clone, Copy, Debug, PartialEq, Eq, Structural)]
pub enum BarInstruction {
    Back,
}

impl DeepView for BarInstruction {
    type V = BarInstruction;

    open spec fn deep_view(&self) -> BarInstruction {
        *self
    }
}

/// The outside work the bar screen asks for.
#[derive(Debug)]
pub enum BarTask {
    /// Load the temporal tickets, answered by `SetTemporalTickets`
    LoadTemporalTickets,
    /// Load the product categories, answered by `SetProductCategories`
    LoadProductCategories,
    /// Load the payment methods, answered by `SetPaymentMethods`
    LoadPaymentMethods,
    /// Look for printers, answered by `SetPrinters`
    LoadPrinters,
    /// Load the products of a category, answered by `SetProductCategoryProducts`
    LoadCategoryProducts(i32),
    /// Add a product to the ticket of a table, creating the ticket if needed
    UpsertTicketWithProduct(TemporalTicket, i32),
    /// Delete a product line
    DeleteTemporalProduct(i32),
    /// Delete a ticket
    DeleteTemporalTicket(i32),
    /// Store an edited product line
    EditTemporalProduct(TemporalProduct),
    /// Move the keyboard focus to the next widget
    FocusNext,
    /// Fetch the invoice of a locked ticket to print it
    GetInvoice(i32),
    /// Create the invoice of a ticket to print it
    CreateInvoice(TemporalTicket),
    /// Print the invoice at hand on a printer
    PrintInvoice(AlegriaPrinter, TicketType),
    /// Delete the invoice of a locked ticket
    UnlockTicket(TemporalTicket),
    /// Pay a ticket (ticket id, payment method id)
    PayTicket(i32, i32),
}

pub enum BarTaskView {
    LoadTemporalTickets,
    LoadProductCategories,
    LoadPaymentMethods,
    LoadPrinters,
    LoadCategoryProducts(i32),
    UpsertTicketWithProduct(TemporalTicketView, i32),
    DeleteTemporalProduct(i32),
    DeleteTemporalTicket(i32),
    EditTemporalProduct(TemporalProductView),
    FocusNext,
    GetInvoice(i32),
    CreateInvoice(TemporalTicketView),
    PrintInvoice(Seq<char>, TicketType),
    UnlockTicket(TemporalTicketView),
    PayTicket(i32, i32),
}

impl DeepView for BarTask {
    type V = BarTaskView;

    open spec fn deep_view(&self) -> BarTaskView {
        match self {
            BarTask::LoadTemporalTickets => BarTaskView::LoadTemporalTickets,
            BarTask::LoadProductCategories => BarTaskView::LoadProductCategories,
            BarTask::LoadPaymentMethods => BarTaskView::LoadPaymentMethods,
            BarTask::LoadPrinters => BarTaskView::LoadPrinters,
            BarTask::LoadCategoryProducts(id) => BarTaskView::LoadCategoryProducts(*id),
            BarTask::UpsertTicketWithProduct(t, id) => BarTaskView::UpsertTicketWithProduct(t@, *id),
            BarTask::DeleteTemporalProduct(id) => BarTaskView::DeleteTemporalProduct(*id),
            BarTask::DeleteTemporalTicket(id) => BarTaskView::DeleteTemporalTicket(*id),
            BarTask::EditTemporalProduct(p) => BarTaskView::EditTemporalProduct(p@),
            BarTask::FocusNext => BarTaskView::FocusNext,
            BarTask::GetInvoice(id) => BarTaskView::GetInvoice(*id),
            BarTask::CreateInvoice(t) => BarTaskView::CreateInvoice(t@),
            BarTask::PrintInvoice(p, t) => BarTaskView::PrintInvoice(p@, *t),
            BarTask::UnlockTicket(t) => BarTaskView::UnlockTicket(t@),
            BarTask::PayTicket(t, p) => BarTaskView::PayTicket(*t, *p),
        }
    }
}

pub type BarAction = crate::action::AlegriaAction<BarInstruction, BarTask>;

pub type BarActionView = ActionView<BarInstruction, BarTaskView>;

// ---------------------------------------------------------------------------
// What each message does, over the views
// ---------------------------------------------------------------------------

/// The ticket belongs to the table at `pos`.
pub open spec fn ticket_at(pos: CurrentPositionState) -> spec_fn(TemporalTicketView) -> bool {
    |t: TemporalTicketView|
        t.table_id == pos.table_index as i32 && t.ticket_location == location_number(pos.location)
}

/// The index of the ticket of the selected table.
pub open spec fn current_ticket(s: BarView) -> Option<int> {
    first_index(s.tickets, ticket_at(s.pos))
}

/// The ticket of the selected table has an invoice, so it takes no input.
pub open spec fn current_ticket_locked(s: BarView) -> bool {
    match current_ticket(s) {
        Some(i) => s.tickets[i].simple_invoice_id is Some,
        None => false,
    }
}

/// The tasks that fetch the temporal tickets again.
pub open spec fn fetch_tickets_tasks(s: BarView) -> Seq<BarTaskView> {
    if s.has_database {
        seq![BarTaskView::LoadTemporalTickets]
    } else {
        Seq::empty()
    }
}

/// The product line has the id `id`.
pub open spec fn product_with_id(id: Option<i32>) -> spec_fn(TemporalProductView) -> bool {
    |p: TemporalProductView| p.id == id
}

/// The ticket holds a product line with the id `id`.
pub open spec fn ticket_with_product(id: Option<i32>) -> spec_fn(TemporalTicketView) -> bool {
    |t: TemporalTicketView| first_index(t.products, product_with_id(id)) is Some
}

/// Where the first product line with the id `id` stands, going through the
/// tickets in order and through the lines of each ticket in order.
pub open spec fn product_position(tickets: Seq<TemporalTicketView>, id: Option<i32>) -> Option<
    (int, int),
> {
    match first_index(tickets, ticket_with_product(id)) {
        Some(t) => Some((t, first_index(tickets[t].products, product_with_id(id))->0)),
        None => None,
    }
}

/// `SetTemporalTickets`: the new tickets replace the old ones; the active
/// product line is looked up again by its id, and while its price is being
/// typed the price text keeps what the user typed so far.
pub open spec fn set_tickets_step(s: BarView, tickets: Seq<TemporalTicketView>) -> BarView {
    let s1 = BarView { tickets, ..s };
    match s.active_product {
        None => s1,
        Some(active) => match product_position(tickets, active.id) {
            None => s1,
            Some((t, p)) => {
                let line = tickets[t].products[p];
                let line2 = if s.active_field == Some(TemporalProductField::Price) {
                    TemporalProductView { price_input: active.price_input, ..line }
                } else {
                    line
                };
                let ticket2 = TemporalTicketView {
                    products: tickets[t].products.update(p, line2),
                    ..tickets[t]
                };
                BarView { tickets: tickets.update(t, ticket2), active_product: Some(line2), ..s }
            },
        },
    }
}

/// `TemporalProductInput`: the focused field of the line takes the new text;
/// a quantity must read as an `i32` (an empty text is 0), a price as an `f32`
/// (an empty text is 0.0). The line is stored whenever a field is focused.
pub open spec fn product_input_step(
    s: BarView,
    product: TemporalProductView,
    new_value: Seq<char>,
    parsed_price: Option<u32>,
) -> (BarView, BarActionView) {
    match s.active_field {
        None => (s, no_action()),
        Some(field) => {
            let (line, s2) = match field {
                TemporalProductField::Quantity => {
                    let line = match parse_i32_spec(new_value) {
                        Some(n) => TemporalProductView { quantity: n, ..product },
                        None => if new_value.len() == 0 {
                            TemporalProductView { quantity: 0, ..product }
                        } else {
                            product
                        },
                    };
                    (line, s)
                },
                TemporalProductField::Price => {
                    let keep_text = match s.active_product {
                        Some(a) => BarView {
                            active_product: Some(TemporalProductView { price_input: new_value, ..a }),
                            ..s
                        },
                        None => s,
                    };
                    if price_input_full(product.price_input, new_value) {
                        (product, s)
                    } else {
                        match parsed_price {
                            Some(bits) => (
                                TemporalProductView { price_bits: Some(bits), ..product },
                                keep_text,
                            ),
                            None => if new_value.len() == 0 {
                                (TemporalProductView { price_bits: Some(0), ..product }, keep_text)
                            } else {
                                (product, s)
                            },
                        }
                    }
                },
            };
            (
                s2,
                if s.has_database {
                    tasks_only(seq![BarTaskView::EditTemporalProduct(line)])
                } else {
                    no_action()
                },
            )
        },
    }
}

/// The focused line and the text a numpad digit makes of its focused field:
/// the digit appended to the quantity (as written) or to the price text.
pub open spec fn digit_text(s: BarView, num: u8) -> Option<(TemporalProductView, Seq<char>)> {
    match (s.active_product, s.active_field) {
        (Some(p), Some(TemporalProductField::Quantity)) => Some(
            (p, decimal_int(p.quantity as int) + decimal_int(num as int)),
        ),
        (Some(p), Some(TemporalProductField::Price)) => Some(
            (p, p.price_input + decimal_int(num as int)),
        ),
        _ => None,
    }
}

/// The focused line and the text the erase or decimal key makes of its
/// focused field: erase drops the last character (a one-digit quantity
/// becomes `0`, a one-byte price text becomes empty); the decimal key
/// appends a `.` to a price, and does nothing to a quantity.
pub open spec fn key_text(s: BarView, key: NumPadAction) -> Option<(TemporalProductView, Seq<char>)> {
    match key {
        NumPadAction::Delete => None,
        NumPadAction::Erase => match (s.active_product, s.active_field) {
            (Some(p), Some(TemporalProductField::Quantity)) => {
                let text = decimal_int(p.quantity as int);
                Some(
                    (
                        p,
                        if text.len() > 1 {
                            text.drop_last()
                        } else {
                            seq!['0']
                        },
                    ),
                )
            },
            (Some(p), Some(TemporalProductField::Price)) => Some(
                (
                    p,
                    if byte_len(p.price_input) > 1 {
                        p.price_input.drop_last()
                    } else {
                        Seq::empty()
                    },
                ),
            ),
            _ => None,
        },
        NumPadAction::Decimal => match (s.active_product, s.active_field) {
            (Some(p), Some(TemporalProductField::Price)) => Some((p, p.price_input.push('.'))),
            _ => None,
        },
    }
}

/// `OnNumpadNumberClicked`: the digit acts as the text it makes, typed into
/// the focused field of the line.
pub open spec fn numpad_number_step(s: BarView, num: u8, parsed: Option<u32>) -> (BarView, BarActionView) {
    match digit_text(s, num) {
        Some((p, text)) => product_input_step(s, p, text, parsed),
        None => (s, no_action()),
    }
}

/// The tasks that delete the line `line_id` of the ticket `ticket`, and the
/// ticket too when that was its only line.
pub open spec fn delete_line_tasks(line_id: Option<i32>, ticket: Option<TemporalTicketView>) -> Seq<
    BarTaskView,
> {
    let delete_line = seq![BarTaskView::DeleteTemporalProduct(line_id.unwrap_or(0))];
    match ticket {
        Some(t) => if t.products.len() == 1 {
            delete_line.push(BarTaskView::DeleteTemporalTicket(t.id.unwrap_or(0)))
        } else {
            delete_line
        },
        None => delete_line,
    }
}

/// The ticket of the selected table, if there is one.
pub open spec fn current_ticket_view(s: BarView) -> Option<TemporalTicketView> {
    match current_ticket(s) {
        Some(i) => Some(s.tickets[i]),
        None => None,
    }
}

/// `OnNumpadKeyClicked`: nothing happens on a ticket with an invoice;
/// otherwise delete removes the active line (or the first line of the ticket),
/// and erase and the decimal key act as the text they make (`key_text`),
/// typed into the focused field of the line.
pub open spec fn numpad_key_step(s: BarView, key: NumPadAction, parsed: Option<u32>) -> (BarView, BarActionView) {
    if current_ticket_locked(s) {
        (s, no_action())
    } else {
        match key {
            NumPadAction::Delete => match s.active_product {
                Some(a) => if s.has_database {
                    (
                        BarView { active_product: None, active_field: None, ..s },
                        tasks_only(delete_line_tasks(a.id, current_ticket_view(s))),
                    )
                } else {
                    (s, no_action())
                },
                None => match current_ticket_view(s) {
                    Some(t) => if t.products.len() > 0 && s.has_database {
                        (s, tasks_only(delete_line_tasks(t.products[0].id, Some(t))))
                    } else {
                        (s, no_action())
                    },
                    None => (s, no_action()),
                },
            },
            _ => match key_text(s, key) {
                Some((p, text)) => product_input_step(s, p, text, parsed),
                None => (s, no_action()),
            },
        }
    }
}

/// The numpad can erase the last character of the focused price: a price
/// text of more than one byte ends with a one-byte character. (Cutting the
/// last byte of a longer character would panic.)
pub open spec fn numpad_erase_allowed(s: BarView) -> bool {
    match (s.active_product, s.active_field) {
        (Some(p), Some(TemporalProductField::Price)) => byte_len(p.price_input) > 1
            ==> (p.price_input.last() as u32) < 0x80,
        _ => true,
    }
}

/// The new ticket that a product click upserts for the selected table.
pub open spec fn new_ticket_for(pos: CurrentPositionState) -> TemporalTicketView {
    TemporalTicketView {
        id: None,
        table_id: pos.table_index as i32,
        ticket_location: location_number(pos.location),
        ticket_status: 0,
        simple_invoice_id: None,
        products: Seq::empty(),
    }
}

/// The number of products of the selected category.
pub open spec fn category_products_len(s: BarView) -> nat {
    match s.product_category_products {
        Some(p) => p.len(),
        None => 0,
    }
}

/// What a message does to the bar screen, and the work it asks for.
pub open spec fn bar_step(s: BarView, m: Message) -> (BarView, BarActionView) {
    match m {
        Message::Back => match s.bar_screen {
            BarScreen::Home => (s, instructions_only(seq![BarInstruction::Back])),
            BarScreen::Pay => (BarView { bar_screen: BarScreen::Home, ..s }, no_action()),
        },
        Message::AddToast(t) => (BarView { toasts: s.toasts.push(t@), ..s }, no_action()),
        Message::CloseToast(i) => (BarView { toasts: s.toasts.remove(i as int), ..s }, no_action()),
        Message::InitPage => (
            s,
            tasks_only(
                if s.has_database {
                    seq![
                        BarTaskView::LoadTemporalTickets,
                        BarTaskView::LoadProductCategories,
                        BarTaskView::LoadPaymentMethods,
                        BarTaskView::LoadPrinters,
                    ]
                } else {
                    seq![BarTaskView::LoadPrinters]
                },
            ),
        ),
        Message::FetchTemporalTickets => (s, tasks_only(fetch_tickets_tasks(s))),
        Message::SetTemporalTickets(t) => (set_tickets_step(s, t.deep_view()), no_action()),
        Message::SetProductCategories(items) => (
            BarView {
                currently_selected_product_category: None,
                product_category_products: None,
                product_categories: items.deep_view(),
                ..s
            },
            no_action(),
        ),
        Message::SetPrinters(default_printer, all) => (
            BarView {
                print_modal: PrintTicketModalView {
                    selected_printer: default_printer.deep_view(),
                    default_printer: default_printer.deep_view(),
                    all_printers: all.deep_view(),
                    ..s.print_modal
                },
                ..s
            },
            no_action(),
        ),
        Message::SetPaymentMethods(methods) => (
            BarView {
                pay_screen: PayScreenView {
                    payment_methods: methods.deep_view(),
                    selected_payment_method: if methods@.len() > 0 {
                        Some(methods@[0]@)
                    } else {
                        s.pay_screen.selected_payment_method
                    },
                },
                ..s
            },
            no_action(),
        ),
        Message::FetchProductCategoryProducts(id) => if s.has_database {
            (
                BarView { currently_selected_product_category: id, ..s },
                tasks_only(seq![BarTaskView::LoadCategoryProducts(id.unwrap_or(0))]),
            )
        } else {
            (s, no_action())
        },
        Message::SetProductCategoryProducts(items) => (
            BarView { product_category_products: items.deep_view(), ..s },
            no_action(),
        ),
        Message::OnTableChange(i) => {
            let s2 = BarView {
                pos: CurrentPositionState { table_index: i, ..s.pos },
                active_product: None,
                active_field: None,
                ..s
            };
            (s2, tasks_only(fetch_tickets_tasks(s2)))
        },
        Message::ChangeCurrentTablesLocation(l) => (
            BarView { pos: CurrentPositionState { location: l, ..s.pos }, ..s },
            no_action(),
        ),
        Message::OnProductClicked(product_id) => if current_ticket_locked(s) {
            (s, no_action())
        } else {
            match product_id {
                Some(id) => if s.has_database {
                    (
                        BarView { active_product: None, ..s },
                        tasks_only(
                            seq![BarTaskView::UpsertTicketWithProduct(new_ticket_for(s.pos), id)],
                        ),
                    )
                } else {
                    (s, no_action())
                },
                None => (s, no_action()),
            }
        },
        Message::OnNumpadNumberClicked(num, parsed) => numpad_number_step(s, num, parsed),
        Message::OnNumpadKeyClicked(key, parsed) => numpad_key_step(s, key, parsed),
        Message::FocusProductQuantity(p) => (
            BarView {
                active_product: Some(p@),
                active_field: Some(TemporalProductField::Quantity),
                ..s
            },
            no_action(),
        ),
        Message::FocusProductPrice(p) => (
            BarView {
                active_product: Some(p@),
                active_field: Some(TemporalProductField::Price),
                ..s
            },
            no_action(),
        ),
        Message::TemporalProductInput(p, value, parsed) => product_input_step(
            s,
            p@,
            value@,
            parsed,
        ),
        Message::ProductCategoriesPaginationAction(a) => (
            BarView {
                categories_page: s.categories_page.after(a, s.product_categories.len()),
                ..s
            },
            no_action(),
        ),
        Message::ProductCategoryProductsPaginationAction(a) => (
            BarView { products_page: s.products_page.after(a, category_products_len(s)), ..s },
            no_action(),
        ),
        Message::PrintModalAction(a) => match a {
            PrintTicketModalActions::ShowModal => (
                BarView {
                    print_modal: PrintTicketModalView { show_modal: true, ..s.print_modal },
                    ..s
                },
                tasks_only(seq![BarTaskView::FocusNext]),
            ),
            PrintTicketModalActions::HideModal => (
                BarView {
                    print_modal: PrintTicketModalView { show_modal: false, ..s.print_modal },
                    ..s
                },
                no_action(),
            ),
            PrintTicketModalActions::PrintTicket => match current_ticket_view(s) {
                Some(t) => if s.has_database {
                    match t.simple_invoice_id {
                        Some(invoice) => (s, tasks_only(seq![BarTaskView::GetInvoice(invoice)])),
                        None => (s, tasks_only(seq![BarTaskView::CreateInvoice(t)])),
                    }
                } else {
                    (s, no_action())
                },
                None => (s, no_action()),
            },
        },
        Message::UpdateSelectedPrinter(p) => (
            BarView {
                print_modal: PrintTicketModalView { selected_printer: Some(p@), ..s.print_modal },
                ..s
            },
            no_action(),
        ),
        Message::UpdateSelectedTicketType(t) => (
            BarView {
                print_modal: PrintTicketModalView { ticket_type: t, ..s.print_modal },
                ..s
            },
            no_action(),
        ),
        Message::PrintTicket => match s.print_modal.selected_printer {
            Some(p) => (
                s,
                tasks_only(seq![BarTaskView::PrintInvoice(p, s.print_modal.ticket_type)]),
            ),
            None => (s, no_action()),
        },
        Message::PrintJobCompleted(result) => {
            let toasts = match result {
                Ok(_) => s.toasts,
                Err(e) => s.toasts.push(error_toast_view(e@)),
            };
            let s2 = BarView {
                toasts,
                active_product: None,
                active_field: None,
                print_modal: PrintTicketModalView {
                    ticket_type: TicketType::Receipt,
                    ..s.print_modal
                },
                ..s
            };
            (s2, tasks_only(fetch_tickets_tasks(s2)))
        },
        Message::UnlockTicket(t) => if s.has_database {
            (s, tasks_only(seq![BarTaskView::UnlockTicket(t@)]))
        } else {
            (s, no_action())
        },
        Message::OpenPayScreen => if current_ticket(s) is Some {
            (BarView { bar_screen: BarScreen::Pay, ..s }, no_action())
        } else {
            (s, no_action())
        },
        Message::ChangeSelectedPaymentMethod(p) => (
            BarView {
                pay_screen: PayScreenView { selected_payment_method: Some(p@), ..s.pay_screen },
                ..s
            },
            no_action(),
        ),
        Message::PayTemporalTicket(id) => match s.pay_screen.selected_payment_method {
            Some(method) => if s.has_database {
                (s, tasks_only(seq![BarTaskView::PayTicket(id, method.id.unwrap_or(0))]))
            } else {
                (s, no_action())
            },
            None => (s, no_action()),
        },
        Message::PaidTemporalTicket(result) => match result {
            Ok(_) => {
                let s2 = BarView { bar_screen: BarScreen::Home, ..s };
                (s2, tasks_only(fetch_tickets_tasks(s2)))
            },
            Err(e) => (BarView { toasts: s.toasts.push(error_toast_view(e@)), ..s }, no_action()),
        },
    }
}

/// The inputs on which a message would panic are left out: closing a toast
/// that is not there, erasing half a character, or a page step whose
/// arithmetic overflows `i32`.
pub open spec fn bar_message_allowed(s: BarView, m: Message) -> bool {
    match m {
        Message::CloseToast(i) => i < s.toasts.len(),
        Message::OnNumpadKeyClicked(NumPadAction::Erase, _) => current_ticket_locked(s)
            || numpad_erase_allowed(s),
        Message::ProductCategoriesPaginationAction(a) => a.goes_forward()
            ==> s.categories_page.can_step_forward(),
        Message::ProductCategoryProductsPaginationAction(a) => a.goes_forward()
            ==> s.products_page.can_step_forward(),
        _ => true,
    }
}

/// The tone a button of the bar screen is drawn in (the theme picks the
/// colors; hovering only brightens it).
#[derive(Clone, Copy, Debug, PartialEq, Eq, Structural)]
pub enum ButtonTone {
    /// What is selected
    Primary,
    /// What is free or not selected
    Secondary,
    /// A table with a ticket still open
    Danger,
    /// A table whose ticket is printed
    Success,
}

/// The tone of the button of the table `t_id`: the selected table stands
/// out; another table shows whether its ticket (the first one for it in the
/// selected location) is pending or printed, or that it has none.
pub open spec fn table_tone(s: BarView, t_id: usize) -> ButtonTone {
    if s.pos.table_index as i32 == t_id as i32 {
        ButtonTone::Primary
    } else {
        match first_index(
            s.tickets,
            ticket_at(CurrentPositionState { location: s.pos.location, table_index: t_id }),
        ) {
            None => ButtonTone::Secondary,
            Some(i) => match status_of_number(s.tickets[i].ticket_status) {
                TemporalTicketStatus::Pending => ButtonTone::Danger,
                TemporalTicketStatus::Printed => ButtonTone::Success,
            },
        }
    }
}

} // verus!
