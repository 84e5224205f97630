//! The decisions of the order-management screen: which tab is active, what
//! the add-order form holds, and which orders are listed. Storage is left to
//! the caller, who carries out the effect that each event asks for.
use crate::form::{
    all_errors_shown, empty_form, first_error, order_of_form, set_field_text, FormField, OrderForm,
};
use crate::order::{NewOrder, Order};
use vstd::prelude::*;

verus! {

/// Used to represent the tab that the screen shows.
#[derive(Clone, Copy, Debug, PartialEq, Eq, Structural)]
pub enum TabId {
    Orders,
    AddOrder,
    Raffle,
}

/// Something the user did on the screen.
#[derive(Debug)]
pub enum Event {
    TabSelected(TabId),
    CustomerNameChanged(String),
    ReceiptNumberChanged(String),
    ItemHiredChanged(String),
    HowManyChanged(String),
    HiredOnChanged(String),
    ReturnOnChanged(String),
    AddOrder,
    DeleteOrder(i32),
}

/// What the caller is to do with storage after an event.
#[derive(Debug)]
pub enum Effect {
    Nothing,
    /// Store this order, then hand the stored order to `order_stored`.
    StoreOrder(NewOrder),
    /// Delete the order with this id, then hand the remaining orders to
    /// `orders_loaded`.
    DeleteOrder(i32),
}

/// The field that an event edits, and its new text.
pub open spec fn edit_of(event: Event) -> Option<(FormField, Seq<char>)> {
    match event {
        Event::CustomerNameChanged(s) => Some((FormField::CustomerName, s@)),
        Event::ReceiptNumberChanged(s) => Some((FormField::ReceiptNumber, s@)),
        Event::ItemHiredChanged(s) => Some((FormField::ItemHired, s@)),
        Event::HowManyChanged(s) => Some((FormField::HowMany, s@)),
        Event::HiredOnChanged(s) => Some((FormField::HiredOn, s@)),
        Event::ReturnOnChanged(s) => Some((FormField::ReturnOn, s@)),
        _ => None,
    }
}

/// Stores the state of the screen.
pub struct AppState {
    pub active_tab: TabId,
    pub orders: Vec<Order>,
    pub order_form: OrderForm,
}

impl AppState {
    /// The screen on the orders tab, listing `orders`, with an empty form.
    pub fn new(orders: Vec<Order>) -> (r: AppState)
        ensures
            r.active_tab == TabId::Orders,
            r.orders == orders,
            r.order_form@ == empty_form(),
    {
        AppState { active_tab: TabId::Orders, orders, order_form: OrderForm::default() }
    }

    /// Responds to an event, and says what storage is to do.
    pub fn update(&mut self, event: Event) -> (r: Effect)
        ensures
            event matches Event::TabSelected(tab) ==> {
                &&& r is Nothing
                &&& final(self).active_tab == tab
                &&& final(self).order_form@ == empty_form()
                &&& final(self).orders == old(self).orders
            },
            edit_of(event) matches Some((field, text)) ==> {
                &&& r is Nothing
                &&& final(self).active_tab == old(self).active_tab
                &&& final(self).order_form@ == set_field_text(old(self).order_form@, field, text)
                &&& final(self).orders == old(self).orders
            },
            event is AddOrder ==> {
                &&& final(self).active_tab == old(self).active_tab
                &&& final(self).orders == old(self).orders
                &&& if first_error(old(self).order_form@) is None {
                    &&& r matches Effect::StoreOrder(o) && order_of_form(o, old(self).order_form@)
                    &&& final(self).order_form@ == old(self).order_form@
                } else {
                    &&& r is Nothing
                    &&& final(self).order_form@ == all_errors_shown(old(self).order_form@)
                }
            },
            event matches Event::DeleteOrder(id) ==> {
                &&& r == Effect::DeleteOrder(id)
                &&& final(self).active_tab == old(self).active_tab
                &&& final(self).order_form@ == old(self).order_form@
                &&& final(self).orders == old(self).orders
            },
    {
        match event {
            Event::TabSelected(tab) => {
                self.active_tab = tab;
                self.order_form = OrderForm::default();
                Effect::Nothing
            },
            Event::CustomerNameChanged(text) => {
                self.order_form.set_field(FormField::CustomerName, text);
                Effect::Nothing
            },
            Event::ReceiptNumberChanged(text) => {
                self.order_form.set_field(FormField::ReceiptNumber, text);
                Effect::Nothing
            },
            Event::ItemHiredChanged(text) => {
                self.order_form.set_field(FormField::ItemHired, text);
                Effect::Nothing
            },
            Event::HowManyChanged(text) => {
                self.order_form.set_field(FormField::HowMany, text);
                Effect::Nothing
            },
            Event::HiredOnChanged(text) => {
                self.order_form.set_field(FormField::HiredOn, text);
                Effect::Nothing
            },
            Event::ReturnOnChanged(text) => {
                self.order_form.set_field(FormField::ReturnOn, text);
                Effect::Nothing
            },
            Event::AddOrder => match self.order_form.create_order() {
                Ok(order) => Effect::StoreOrder(order),
                Err(_) => {
                    self.order_form.show_all_errors();
                    Effect::Nothing
                },
            },
            Event::DeleteOrder(id) => Effect::DeleteOrder(id),
        }
    }

    /// Lists an order that storage now holds, and goes back to the orders tab.
    pub fn order_stored(&mut self, order: Order)
        ensures
            final(self).orders@ == old(self).orders@.push(order),
            final(self).active_tab == TabId::Orders,
            final(self).order_form@ == old(self).order_form@,
    {
        self.orders.push(order);
        self.active_tab = TabId::Orders;
    }

    /// Lists the orders that storage holds, in place of those listed before.
    pub fn orders_loaded(&mut self, orders: Vec<Order>)
        ensures
            final(self).orders == orders,
            final(self).active_tab == old(self).active_tab,
            final(self).order_form@ == old(self).order_form@,
    {
        self.orders = orders;
    }
}

} // verus!
