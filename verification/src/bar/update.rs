//! The bar screen's state machine.

use vstd::prelude::*;
use crate::action::AlegriaAction;
use crate::lists::{first_index, lemma_first_index};
use crate::models::{
    AlegriaPrinter, Duplicate, PaymentMethodRecord, Product, ProductCategory, TemporalProduct,
    TemporalTicket, Toast, copy_option, copy_vec, error_toast,
};
use crate::pagination::PaginationConfig;
use crate::text::{chars_of, decimal_string, parse_i32_range, price_text_full, push_char, string_of};
use crate::entities::{TemporalTicketStatus, match_number_with_temporal_ticket_status};
use super::{
    Bar, ButtonTone, BarAction, BarInstruction, BarScreen, BarTask, BarView, CurrentPositionState, Message,
    NumPadAction, PayScreenState, PrintTicketModalActions, PrintTicketModalState, TableLocation,
    TemporalProductField, TicketType, bar_message_allowed, bar_step, current_ticket, table_tone,
    match_table_location_with_number, numpad_key_step, numpad_number_step, digit_text, key_text,
    product_input_step, product_position, product_with_id, set_tickets_step, ticket_at,
    ticket_with_product,
};

verus! {

/// The bar screen as it opens: no tickets, no categories, the first table of
/// the bar selected.
pub open spec fn initial_bar(has_database: bool) -> BarView {
    BarView {
        has_database,
        toasts: Seq::empty(),
        bar_screen: BarScreen::Home,
        product_categories: Seq::empty(),
        product_category_products: None,
        currently_selected_product_category: None,
        pos: CurrentPositionState { location: TableLocation::Bar, table_index: 0 },
        tickets: Seq::empty(),
        active_product: None,
        active_field: None,
        categories_page: PaginationConfig { items_per_page: 13, current_page: 0 },
        products_page: PaginationConfig { items_per_page: 13, current_page: 0 },
        print_modal: super::PrintTicketModalView {
            show_modal: false,
            ticket_type: TicketType::Receipt,
            selected_printer: None,
            all_printers: Seq::empty(),
            default_printer: None,
        },
        pay_screen: super::PayScreenView { payment_methods: Seq::empty(), selected_payment_method: None },
    }
}

/// The index of the first product line with the id `id`.
fn find_line(products: &Vec<TemporalProduct>, id: Option<i32>) -> (r: Option<usize>)
    ensures
        r matches Some(k) ==> k < products@.len() && first_index(
            products.deep_view(),
            product_with_id(id),
        ) == Some(k as int),
        r is None ==> first_index(products.deep_view(), product_with_id(id)) is None,
{
    let mut k: usize = 0;
    while k < products.len()
        invariant
            k <= products@.len(),
            forall|j: int| 0 <= j < k ==> !product_with_id(id)(#[trigger] products.deep_view()[j]),
        decreases products@.len() - k,
    {
        if products[k].id == id {
            proof {
                lemma_first_index(products.deep_view(), product_with_id(id), Some(k as int));
            }
            return Some(k);
        }
        k = k + 1;
    }
    proof {
        lemma_first_index(products.deep_view(), product_with_id(id), None);
    }
    None
}

impl Bar {
    /// The bar screen as it opens (`Bar::default`), with or without a database.
    pub fn new(has_database: bool) -> (b: Bar)
        ensures
            b@ == initial_bar(has_database),
    {
        let b = Bar {
            has_database,
            toasts: Vec::new(),
            bar_screen: BarScreen::Home,
            product_categories: Vec::new(),
            product_category_products: None,
            currently_selected_product_category: None,
            currently_selected_pos_state: CurrentPositionState {
                location: TableLocation::Bar,
                table_index: 0,
            },
            temporal_tickets_model: Vec::new(),
            active_temporal_product: None,
            active_temporal_product_field: None,
            product_categories_pagination_state: PaginationConfig::default(),
            product_category_products_pagination_state: PaginationConfig::default(),
            print_modal: PrintTicketModalState {
                show_modal: false,
                ticket_type: TicketType::Receipt,
                selected_printer: None,
                all_printers: Vec::new(),
                default_printer: None,
            },
            pay_screen: PayScreenState { payment_methods: Vec::new(), selected_payment_method: None },
        };
        assert(b@.toasts =~= Seq::empty());
        assert(b@.product_categories =~= Seq::empty());
        assert(b@.tickets =~= Seq::empty());
        assert(b@.print_modal.all_printers =~= Seq::empty());
        assert(b@.pay_screen.payment_methods =~= Seq::empty());
        b
    }

    /// The index of the first ticket of the table at `pos`.
    pub fn find_ticket_at(&self, pos: CurrentPositionState) -> (r: Option<usize>)
        ensures
            r matches Some(i) ==> i < self@.tickets.len() && first_index(self@.tickets, ticket_at(pos))
                == Some(i as int),
            r is None ==> first_index(self@.tickets, ticket_at(pos)) is None,
    {
        #[verifier::truncate]
        let table = pos.table_index as i32;
        let location = match_table_location_with_number(pos.location);
        let ghost p = ticket_at(pos);
        let ghost tickets = self.temporal_tickets_model.deep_view();
        let mut i: usize = 0;
        while i < self.temporal_tickets_model.len()
            invariant
                i <= tickets.len(),
                tickets == self.temporal_tickets_model.deep_view(),
                p == ticket_at(pos),
                table == pos.table_index as i32,
                location == super::location_number(pos.location),
                forall|j: int| 0 <= j < i ==> !p(#[trigger] tickets[j]),
            decreases tickets.len() - i,
        {
            let t = &self.temporal_tickets_model[i];
            assert(tickets[i as int] == t@);
            if t.table_id == table && t.ticket_location == location {
                proof {
                    lemma_first_index(tickets, p, Some(i as int));
                }
                return Some(i);
            }
            i = i + 1;
        }
        proof {
            lemma_first_index(tickets, p, None);
        }
        None
    }

    /// The index of the ticket of the selected table.
    pub fn find_current_ticket(&self) -> (r: Option<usize>)
        ensures
            r matches Some(i) ==> i < self@.tickets.len() && current_ticket(self@) == Some(
                i as int,
            ),
            r is None ==> current_ticket(self@) is None,
    {
        self.find_ticket_at(self.currently_selected_pos_state)
    }

    /// The tone of the button of the table `t_id` in the grid.
    pub fn table_button_tone(&self, t_id: usize) -> (tone: ButtonTone)
        ensures
            tone == table_tone(self@, t_id),
    {
        #[verifier::truncate]
        let selected = self.currently_selected_pos_state.table_index as i32;
        #[verifier::truncate]
        let table = t_id as i32;
        if selected == table {
            return ButtonTone::Primary;
        }
        let pos = CurrentPositionState { location: self.currently_selected_pos_state.location, table_index: t_id };
        match self.find_ticket_at(pos) {
            None => ButtonTone::Secondary,
            Some(i) => match match_number_with_temporal_ticket_status(self.temporal_tickets_model[i].ticket_status) {
                TemporalTicketStatus::Pending => ButtonTone::Danger,
                TemporalTicketStatus::Printed => ButtonTone::Success,
            },
        }
    }

    /// The tone of the button of a table location.
    pub fn location_button_tone(&self, location: TableLocation) -> (tone: ButtonTone)
        ensures
            tone == (if location == self@.pos.location {
                ButtonTone::Primary
            } else {
                ButtonTone::Secondary
            }),
    {
        if location == self.currently_selected_pos_state.location {
            ButtonTone::Primary
        } else {
            ButtonTone::Secondary
        }
    }

    /// The tone of the button of a payment method on the pay screen: the
    /// selected method stands out. (The pay screen is only shown with a
    /// method selected.)
    pub fn payment_method_tone(&self, method_id: Option<i32>) -> (tone: ButtonTone)
        requires
            self@.pay_screen.selected_payment_method is Some,
        ensures
            tone == (if method_id == self@.pay_screen.selected_payment_method->0.id {
                ButtonTone::Success
            } else {
                ButtonTone::Secondary
            }),
    {
        match &self.pay_screen.selected_payment_method {
            Some(selected) => {
                if selected.id == method_id {
                    ButtonTone::Success
                } else {
                    ButtonTone::Secondary
                }
            },
            None => ButtonTone::Secondary,
        }
    }

    /// The tone of the button of a product category.
    pub fn category_button_tone(&self, category_id: Option<i32>) -> (tone: ButtonTone)
        ensures
            tone == (if category_id == self@.currently_selected_product_category {
                ButtonTone::Primary
            } else {
                ButtonTone::Secondary
            }),
    {
        if self.currently_selected_product_category == category_id {
            ButtonTone::Primary
        } else {
            ButtonTone::Secondary
        }
    }

    /// Where the first product line with the id `id` stands.
    fn find_product(&self, id: Option<i32>) -> (r: Option<(usize, usize)>)
        ensures
            r matches Some((t, p)) ==> t < self@.tickets.len() && p
                < self@.tickets[t as int].products.len() && product_position(self@.tickets, id)
                == Some((t as int, p as int)),
            r is None ==> product_position(self@.tickets, id) is None,
    {
        let ghost tickets = self.temporal_tickets_model.deep_view();
        let ghost p = ticket_with_product(id);
        let mut i: usize = 0;
        while i < self.temporal_tickets_model.len()
            invariant
                i <= tickets.len(),
                tickets == self.temporal_tickets_model.deep_view(),
                p == ticket_with_product(id),
                forall|j: int| 0 <= j < i ==> !p(#[trigger] tickets[j]),
            decreases tickets.len() - i,
        {
            assert(tickets[i as int] == self.temporal_tickets_model@[i as int]@);
            match find_line(&self.temporal_tickets_model[i].products, id) {
                Some(k) => {
                    proof {
                        lemma_first_index(tickets, p, Some(i as int));
                    }
                    return Some((i, k));
                },
                None => {},
            }
            i = i + 1;
        }
        proof {
            lemma_first_index(tickets, p, None);
        }
        None
    }

    fn set_temporal_tickets(&mut self, tickets: Vec<TemporalTicket>)
        ensures
            final(self)@ == set_tickets_step(old(self)@, tickets.deep_view()),
    {
        let previous = match &self.active_temporal_product {
            Some(a) => Some((a.id, a.price_input.clone())),
            None => None,
        };
        let typing_price = match self.active_temporal_product_field {
            Some(TemporalProductField::Price) => true,
            _ => false,
        };
        self.temporal_tickets_model = tickets;
        match previous {
            None => {},
            Some((id, old_input)) => {
                match self.find_product(id) {
                    None => {},
                    Some((t, p)) => {
                        let ghost tv0 = self.temporal_tickets_model.deep_view();
                        let ghost line0 = tv0[t as int].products[p as int];
                        let ghost line2 = if typing_price {
                            super::TemporalProductView { price_input: old_input@, ..line0 }
                        } else {
                            line0
                        };
                        let ghost ticket2 = super::TemporalTicketView {
                            products: tv0[t as int].products.update(p as int, line2),
                            ..tv0[t as int]
                        };
                        if typing_price {
                            self.temporal_tickets_model[t].products[p].price_input = old_input;
                        }
                        assert(self.temporal_tickets_model@[t as int].products.deep_view()
                            =~= tv0[t as int].products.update(p as int, line2));
                        assert(self.temporal_tickets_model.deep_view() =~= tv0.update(
                            t as int,
                            ticket2,
                        ));
                        let line = self.temporal_tickets_model[t].products[p].duplicate();
                        self.active_temporal_product = Some(line);
                    },
                }
            },
        }
        proof {
            let s = old(self)@;
            let tv = tickets.deep_view();
            match s.active_product {
                None => {},
                Some(a) => {
                    match product_position(tv, a.id) {
                        Some((t, p)) => {
                            assert(self@.tickets == set_tickets_step(s, tv).tickets);
                        },
                        None => {},
                    }
                },
            }
        }
    }

    /// The text a numpad digit makes of the focused field of the line (what
    /// the numpad types), when a field is focused.
    pub fn numpad_digit_text(&self, num: u8) -> (r: Option<String>)
        ensures
            (r is Some) == (digit_text(self@, num) is Some),
            r matches Some(t) ==> t@ == digit_text(self@, num).unwrap().1,
    {
        match (&self.active_temporal_product, self.active_temporal_product_field) {
            (Some(product), Some(TemporalProductField::Quantity)) => {
                let mut value = decimal_string(product.quantity as i64);
                let digit = decimal_string(num as i64);
                value.append(digit.as_str());
                Some(value)
            },
            (Some(product), Some(TemporalProductField::Price)) => {
                let mut value = product.price_input.clone();
                let digit = decimal_string(num as i64);
                value.append(digit.as_str());
                Some(value)
            },
            _ => None,
        }
    }

    /// The text the erase or decimal key makes of the focused field of the
    /// line (what the numpad types), when it makes one.
    pub fn numpad_key_text(&self, key: NumPadAction) -> (r: Option<String>)
        ensures
            (r is Some) == (key_text(self@, key) is Some),
            r matches Some(t) ==> t@ == key_text(self@, key).unwrap().1,
    {
        match key {
            NumPadAction::Delete => None,
            NumPadAction::Erase => {
                match (&self.active_temporal_product, self.active_temporal_product_field) {
                    (Some(product), Some(TemporalProductField::Quantity)) => {
                        let text = decimal_string(product.quantity as i64);
                        let chars = chars_of(text.as_str());
                        let value = if chars.len() > 1 {
                            string_of(&chars, 0, chars.len() - 1)
                        } else {
                            let mut zero = String::new();
                            push_char(&mut zero, '0');
                            zero
                        };
                        proof {
                            if chars@.len() > 1 {
                                assert(value@ =~= text@.drop_last());
                            } else {
                                assert(value@ =~= seq!['0']);
                            }
                        }
                        Some(value)
                    },
                    (Some(product), Some(TemporalProductField::Price)) => {
                        let chars = chars_of(product.price_input.as_str());
                        let value = if product.price_input.as_str().len() > 1 {
                            proof {
                                if chars@.len() == 0 {
                                    assert(chars@ =~= Seq::<char>::empty());
                                    assert(vstd::utf8::encode_utf8(Seq::<char>::empty()).len() == 0);
                                }
                            }
                            string_of(&chars, 0, chars.len() - 1)
                        } else {
                            String::new()
                        };
                        proof {
                            if crate::text::byte_len(product.price_input@) > 1 {
                                assert(value@ =~= product.price_input@.drop_last());
                            }
                        }
                        Some(value)
                    },
                    _ => None,
                }
            },
            NumPadAction::Decimal => {
                match (&self.active_temporal_product, self.active_temporal_product_field) {
                    (Some(product), Some(TemporalProductField::Price)) => {
                        let mut value = product.price_input.clone();
                        push_char(&mut value, '.');
                        Some(value)
                    },
                    _ => None,
                }
            },
        }
    }

    /// The focused line typed into with `text`.
    fn type_into_active(&mut self, text: String, parsed: Option<u32>) -> (action: BarAction)
        requires
            old(self)@.active_product is Some,
        ensures
            (final(self)@, action@) == product_input_step(
                old(self)@,
                old(self)@.active_product->0,
                text@,
                parsed,
            ),
    {
        let product = match &self.active_temporal_product {
            Some(p) => p.duplicate(),
            None => {
                return AlegriaAction::new();
            },
        };
        self.product_input(product, text, parsed)
    }

    fn numpad_number(&mut self, num: u8, parsed: Option<u32>) -> (action: BarAction)
        ensures
            (final(self)@, action@) == numpad_number_step(old(self)@, num, parsed),
    {
        match self.numpad_digit_text(num) {
            Some(text) => self.type_into_active(text, parsed),
            None => AlegriaAction::new(),
        }
    }

    fn numpad_key(&mut self, key: NumPadAction, parsed: Option<u32>) -> (action: BarAction)
        ensures
            (final(self)@, action@) == numpad_key_step(old(self)@, key, parsed),
    {
        let mut action = AlegriaAction::new();
        let current = self.find_current_ticket();
        let locked = match current {
            Some(i) => self.temporal_tickets_model[i].simple_invoice_id.is_some(),
            None => false,
        };
        if locked {
            return action;
        }
        match key {
            NumPadAction::Delete => {
                match &self.active_temporal_product {
                    Some(active) => {
                        if self.has_database {
                            action.add_task(BarTask::DeleteTemporalProduct(active.id.unwrap_or(0)));
                            match current {
                                Some(i) => {
                                    let ticket = &self.temporal_tickets_model[i];
                                    if ticket.products.len() == 1 {
                                        action.add_task(
                                            BarTask::DeleteTemporalTicket(ticket.id.unwrap_or(0)),
                                        );
                                    }
                                },
                                None => {},
                            }
                            self.active_temporal_product = None;
                            self.active_temporal_product_field = None;
                        }
                    },
                    None => {
                        match current {
                            Some(i) => {
                                let ticket = &self.temporal_tickets_model[i];
                                if ticket.products.len() > 0 && self.has_database {
                                    action.add_task(
                                        BarTask::DeleteTemporalProduct(
                                            ticket.products[0].id.unwrap_or(0),
                                        ),
                                    );
                                    if ticket.products.len() == 1 {
                                        action.add_task(
                                            BarTask::DeleteTemporalTicket(ticket.id.unwrap_or(0)),
                                        );
                                    }
                                }
                            },
                            None => {},
                        }
                    },
                }
            },
            _ => {
                match self.numpad_key_text(key) {
                    Some(text) => {
                        return self.type_into_active(text, parsed);
                    },
                    None => {},
                }
            },
        }
        action
    }

    fn product_input(&mut self, product: TemporalProduct, new_value: String, parsed: Option<u32>) -> (action: BarAction)
        ensures
            (final(self)@, action@) == product_input_step(old(self)@, product@, new_value@, parsed),
    {
        let mut action = AlegriaAction::new();
        let field = match self.active_temporal_product_field {
            Some(f) => f,
            None => {
                return action;
            },
        };
        let mut line = product;
        match field {
            TemporalProductField::Quantity => {
                let chars = chars_of(new_value.as_str());
                assert(chars@.subrange(0, chars@.len() as int) =~= chars@);
                match parse_i32_range(&chars, 0, chars.len()) {
                    Some(n) => {
                        line.quantity = n;
                    },
                    None => {
                        if new_value.as_str().is_empty() {
                            line.quantity = 0;
                        }
                    },
                }
            },
            TemporalProductField::Price => {
                if !price_text_full(&line.price_input, &new_value) {
                    match parsed {
                        Some(bits) => {
                            line.price_bits = Some(bits);
                            match &mut self.active_temporal_product {
                                Some(active) => {
                                    active.price_input = new_value;
                                },
                                None => {},
                            }
                        },
                        None => {
                            if new_value.as_str().is_empty() {
                                line.price_bits = Some(0);
                                match &mut self.active_temporal_product {
                                    Some(active) => {
                                        active.price_input = new_value;
                                    },
                                    None => {},
                                }
                            }
                        },
                    }
                }
            },
        }
        if self.has_database {
            action.add_task(BarTask::EditTemporalProduct(line));
        }
        action
    }

    /// Back, toasts, opening the page and choosing a table.
    fn update_navigation(&mut self, message: Message) -> (action: BarAction)
        requires
            message is Back || message is AddToast || message is CloseToast || message is InitPage
                || message is FetchTemporalTickets || message is OnTableChange
                || message is ChangeCurrentTablesLocation,
            bar_message_allowed(old(self)@, message),
        ensures
            (final(self)@, action@) == bar_step(old(self)@, message),
    {
        let ghost m = message;
        let mut action = AlegriaAction::new();
        match message {
            Message::Back => match self.bar_screen {
                BarScreen::Home => action.add_instruction(BarInstruction::Back),
                BarScreen::Pay => {
                    self.bar_screen = BarScreen::Home;
                },
            },
            Message::AddToast(toast) => {
                self.toasts.push(toast);
            },
            Message::CloseToast(index) => {
                self.toasts.remove(index);
            },
            Message::InitPage => {
                if self.has_database {
                    action.add_task(BarTask::LoadTemporalTickets);
                    action.add_task(BarTask::LoadProductCategories);
                    action.add_task(BarTask::LoadPaymentMethods);
                }
                action.add_task(BarTask::LoadPrinters);
            },
            Message::FetchTemporalTickets => {
                if self.has_database {
                    action.add_task(BarTask::LoadTemporalTickets);
                }
            },
            Message::OnTableChange(index) => {
                self.currently_selected_pos_state.table_index = index;
                self.active_temporal_product = None;
                self.active_temporal_product_field = None;
                if self.has_database {
                    action.add_task(BarTask::LoadTemporalTickets);
                }
            },
            Message::ChangeCurrentTablesLocation(location) => {
                self.currently_selected_pos_state.location = location;
            },
            _ => {},
        }
        proof {
            let (ns, na) = bar_step(old(self)@, m);
            assert(action@.tasks =~= na.tasks);
            assert(action@.instructions =~= na.instructions);
            assert(self@.toasts =~= ns.toasts);
        }
        action
    }

    /// The data that arrives from the database and the printers.
    fn update_data(&mut self, message: Message) -> (action: BarAction)
        requires
            message is SetTemporalTickets || message is SetProductCategories
                || message is SetPrinters || message is SetPaymentMethods
                || message is FetchProductCategoryProducts || message is SetProductCategoryProducts,
        ensures
            (final(self)@, action@) == bar_step(old(self)@, message),
    {
        let ghost m = message;
        let mut action = AlegriaAction::new();
        match message {
            Message::SetTemporalTickets(tickets) => {
                self.set_temporal_tickets(tickets);
            },
            Message::SetProductCategories(items) => {
                self.currently_selected_product_category = None;
                self.product_category_products = None;
                self.product_categories = items;
            },
            Message::SetPrinters(default_printer, all_printers) => {
                self.print_modal.default_printer = copy_option(&default_printer);
                self.print_modal.selected_printer = default_printer;
                self.print_modal.all_printers = all_printers;
            },
            Message::SetPaymentMethods(methods) => {
                if methods.len() > 0 {
                    self.pay_screen.selected_payment_method = Some(methods[0].duplicate());
                }
                self.pay_screen.payment_methods = methods;
            },
            Message::FetchProductCategoryProducts(id) => {
                if self.has_database {
                    self.currently_selected_product_category = id;
                    action.add_task(BarTask::LoadCategoryProducts(id.unwrap_or(0)));
                }
            },
            Message::SetProductCategoryProducts(items) => {
                self.product_category_products = items;
            },
            _ => {},
        }
        proof {
            let (ns, na) = bar_step(old(self)@, m);
            assert(action@.tasks =~= na.tasks);
            assert(action@.instructions =~= na.instructions);
        }
        action
    }

    /// Adding products to the ticket and editing its lines.
    fn update_ticket_editing(&mut self, message: Message) -> (action: BarAction)
        requires
            message is OnProductClicked || message is OnNumpadNumberClicked
                || message is OnNumpadKeyClicked || message is FocusProductQuantity
                || message is FocusProductPrice || message is TemporalProductInput,
            bar_message_allowed(old(self)@, message),
        ensures
            (final(self)@, action@) == bar_step(old(self)@, message),
    {
        let ghost m = message;
        let mut action = AlegriaAction::new();
        match message {
            Message::OnProductClicked(product_id) => {
                let current = self.find_current_ticket();
                let locked = match current {
                    Some(i) => self.temporal_tickets_model[i].simple_invoice_id.is_some(),
                    None => false,
                };
                if !locked {
                    match product_id {
                        Some(id) => {
                            if self.has_database {
                                self.active_temporal_product = None;
                                #[verifier::truncate]
                                let table_id = self.currently_selected_pos_state.table_index as i32;
                                let ticket = TemporalTicket {
                                    id: None,
                                    table_id,
                                    ticket_location: match_table_location_with_number(
                                        self.currently_selected_pos_state.location,
                                    ),
                                    ticket_status: 0,
                                    simple_invoice_id: None,
                                    products: Vec::new(),
                                };
                                assert(ticket@.products =~= Seq::empty());
                                action.add_task(BarTask::UpsertTicketWithProduct(ticket, id));
                            }
                        },
                        None => {},
                    }
                }
            },
            Message::OnNumpadNumberClicked(num, parsed) => {
                action = self.numpad_number(num, parsed);
            },
            Message::OnNumpadKeyClicked(key, parsed) => {
                action = self.numpad_key(key, parsed);
            },
            Message::FocusProductQuantity(product) => {
                self.active_temporal_product = Some(product);
                self.active_temporal_product_field = Some(TemporalProductField::Quantity);
            },
            Message::FocusProductPrice(product) => {
                self.active_temporal_product = Some(product);
                self.active_temporal_product_field = Some(TemporalProductField::Price);
            },
            Message::TemporalProductInput(product, new_value, parsed) => {
                action = self.product_input(product, new_value, parsed);
            },
            _ => {},
        }
        proof {
            let (ns, na) = bar_step(old(self)@, m);
            assert(action@.tasks =~= na.tasks);
            assert(action@.instructions =~= na.instructions);
        }
        action
    }

    /// Paging the lists, and printing.
    fn update_paging_and_printing(&mut self, message: Message) -> (action: BarAction)
        requires
            message is ProductCategoriesPaginationAction
                || message is ProductCategoryProductsPaginationAction
                || message is PrintModalAction || message is UpdateSelectedPrinter
                || message is UpdateSelectedTicketType || message is PrintTicket
                || message is PrintJobCompleted || message is UnlockTicket,
            bar_message_allowed(old(self)@, message),
        ensures
            (final(self)@, action@) == bar_step(old(self)@, message),
    {
        let ghost m = message;
        let mut action = AlegriaAction::new();
        match message {
            Message::ProductCategoriesPaginationAction(page_action) => {
                let len = self.product_categories.len();
                self.product_categories_pagination_state.apply(page_action, len);
            },
            Message::ProductCategoryProductsPaginationAction(page_action) => {
                let len = match &self.product_category_products {
                    Some(products) => products.len(),
                    None => 0,
                };
                self.product_category_products_pagination_state.apply(page_action, len);
            },
            Message::PrintModalAction(modal_action) => match modal_action {
                PrintTicketModalActions::ShowModal => {
                    self.print_modal.show_modal = true;
                    action.add_task(BarTask::FocusNext);
                },
                PrintTicketModalActions::HideModal => {
                    self.print_modal.show_modal = false;
                },
                PrintTicketModalActions::PrintTicket => {
                    match self.find_current_ticket() {
                        Some(i) => {
                            if self.has_database {
                                let ticket = &self.temporal_tickets_model[i];
                                match ticket.simple_invoice_id {
                                    Some(invoice_id) => {
                                        action.add_task(BarTask::GetInvoice(invoice_id));
                                    },
                                    None => {
                                        action.add_task(BarTask::CreateInvoice(ticket.duplicate()));
                                    },
                                }
                            }
                        },
                        None => {},
                    }
                },
            },
            Message::UpdateSelectedPrinter(printer) => {
                self.print_modal.selected_printer = Some(printer);
            },
            Message::UpdateSelectedTicketType(ticket_type) => {
                self.print_modal.ticket_type = ticket_type;
            },
            Message::PrintTicket => {
                match &self.print_modal.selected_printer {
                    Some(printer) => {
                        action.add_task(
                            BarTask::PrintInvoice(printer.duplicate(), self.print_modal.ticket_type),
                        );
                    },
                    None => {},
                }
            },
            Message::PrintJobCompleted(result) => {
                match result {
                    Ok(_) => {},
                    Err(e) => {
                        self.toasts.push(error_toast(e));
                    },
                }
                self.active_temporal_product = None;
                self.active_temporal_product_field = None;
                self.print_modal.ticket_type = TicketType::Receipt;
                if self.has_database {
                    action.add_task(BarTask::LoadTemporalTickets);
                }
            },
            Message::UnlockTicket(ticket) => {
                if self.has_database {
                    action.add_task(BarTask::UnlockTicket(ticket));
                }
            },
            _ => {},
        }
        proof {
            let (ns, na) = bar_step(old(self)@, m);
            assert(action@.tasks =~= na.tasks);
            assert(action@.instructions =~= na.instructions);
            assert(self@.toasts =~= ns.toasts);
        }
        action
    }

    /// The pay screen.
    fn update_paying(&mut self, message: Message) -> (action: BarAction)
        requires
            message is OpenPayScreen || message is ChangeSelectedPaymentMethod
                || message is PayTemporalTicket || message is PaidTemporalTicket,
        ensures
            (final(self)@, action@) == bar_step(old(self)@, message),
    {
        let ghost m = message;
        let mut action = AlegriaAction::new();
        match message {
            Message::OpenPayScreen => {
                if self.find_current_ticket().is_some() {
                    self.bar_screen = BarScreen::Pay;
                }
            },
            Message::ChangeSelectedPaymentMethod(method) => {
                self.pay_screen.selected_payment_method = Some(method);
            },
            Message::PayTemporalTicket(id) => {
                match &self.pay_screen.selected_payment_method {
                    Some(method) => {
                        if self.has_database {
                            action.add_task(BarTask::PayTicket(id, method.id.unwrap_or(0)));
                        }
                    },
                    None => {},
                }
            },
            Message::PaidTemporalTicket(result) => match result {
                Ok(_) => {
                    self.bar_screen = BarScreen::Home;
                    if self.has_database {
                        action.add_task(BarTask::LoadTemporalTickets);
                    }
                },
                Err(e) => {
                    self.toasts.push(error_toast(e));
                },
            },
            _ => {},
        }
        proof {
            let (ns, na) = bar_step(old(self)@, m);
            assert(action@.tasks =~= na.tasks);
            assert(action@.instructions =~= na.instructions);
            assert(self@.toasts =~= ns.toasts);
        }
        action
    }

    /// Handles messages emitted by the application and its widgets.
    pub fn update(&mut self, message: Message) -> (action: BarAction)
        requires
            bar_message_allowed(old(self)@, message),
        ensures
            (final(self)@, action@) == bar_step(old(self)@, message),
    {
        match message {
            Message::Back | Message::AddToast(_) | Message::CloseToast(_) | Message::InitPage
            | Message::FetchTemporalTickets | Message::OnTableChange(_)
            | Message::ChangeCurrentTablesLocation(_) => self.update_navigation(message),
            Message::SetTemporalTickets(_) | Message::SetProductCategories(_)
            | Message::SetPrinters(_, _) | Message::SetPaymentMethods(_)
            | Message::FetchProductCategoryProducts(_) | Message::SetProductCategoryProducts(
                _,
            ) => self.update_data(message),
            Message::OnProductClicked(_) | Message::OnNumpadNumberClicked(_, _)
            | Message::OnNumpadKeyClicked(_, _) | Message::FocusProductQuantity(_)
            | Message::FocusProductPrice(_) | Message::TemporalProductInput(_, _, _) => self.update_ticket_editing(message),
            Message::ProductCategoriesPaginationAction(_)
            | Message::ProductCategoryProductsPaginationAction(_) | Message::PrintModalAction(_)
            | Message::UpdateSelectedPrinter(_) | Message::UpdateSelectedTicketType(_)
            | Message::PrintTicket | Message::PrintJobCompleted(_) | Message::UnlockTicket(_) => self.update_paging_and_printing(message),
            Message::OpenPayScreen | Message::ChangeSelectedPaymentMethod(_)
            | Message::PayTemporalTicket(_) | Message::PaidTemporalTicket(_) => self.update_paying(message),
        }
    }
}

impl Default for Bar {
    /// The bar screen as it opens, with no database.
    fn default() -> (b: Self)
        ensures
            b@ == initial_bar(false),
    {
        Bar::new(false)
    }
}

} // verus!
