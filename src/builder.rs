//! The order builder: the fields of an order as typed in, checked the same
//! way as those of the order form.
use crate::date::Date;
use crate::form::{
    customer_name_outcome, empty_form, err_view, field_error, first_error, hired_on_outcome,
    how_many_outcome, item_hired_outcome, opt_view, order_from_fields, order_of_form,
    receipt_number_outcome, return_on_outcome, shows_error, text_view, valid_customer_name,
    valid_hired_on, valid_how_many, valid_item_hired, valid_receipt_number, valid_return_on,
    visible_error, FormField, FormFields,
};
use crate::order::NewOrder;
use vstd::prelude::*;

verus! {

/// Collects the fields of an order as typed in, before they are checked.
pub struct OrderBuilder {
    pub customer_name: String,
    pub customer_name_show_error: bool,
    pub receipt_number: String,
    pub receipt_number_show_error: bool,
    pub item_hired: String,
    pub item_hired_show_error: bool,
    pub how_many: String,
    pub how_many_show_error: bool,
    pub hired_on: String,
    pub hired_on_show_error: bool,
    pub return_on: String,
    pub return_on_show_error: bool,
}

impl View for OrderBuilder {
    type V = FormFields;

    open spec fn view(&self) -> FormFields {
        FormFields {
            customer_name: self.customer_name@,
            customer_name_show_error: self.customer_name_show_error,
            receipt_number: self.receipt_number@,
            receipt_number_show_error: self.receipt_number_show_error,
            item_hired: self.item_hired@,
            item_hired_show_error: self.item_hired_show_error,
            how_many: self.how_many@,
            how_many_show_error: self.how_many_show_error,
            hired_on: self.hired_on@,
            hired_on_show_error: self.hired_on_show_error,
            return_on: self.return_on@,
            return_on_show_error: self.return_on_show_error,
        }
    }
}

impl Default for OrderBuilder {
    fn default() -> (r: OrderBuilder)
        ensures
            r@ == empty_form(),
    {
        OrderBuilder {
            customer_name: String::new(),
            customer_name_show_error: false,
            receipt_number: String::new(),
            receipt_number_show_error: false,
            item_hired: String::new(),
            item_hired_show_error: false,
            how_many: String::new(),
            how_many_show_error: false,
            hired_on: String::new(),
            hired_on_show_error: false,
            return_on: String::new(),
            return_on_show_error: false,
        }
    }
}

impl OrderBuilder {
    /// Gets the customer name, or the error that makes it invalid.
    pub fn get_valid_customer_name(&self) -> (r: Result<String, String>)
        ensures
            text_view(r) == customer_name_outcome(self@.customer_name),
    {
        valid_customer_name(&self.customer_name)
    }

    /// Gets the receipt number as an integer, or the error that makes it invalid.
    pub fn get_valid_receipt_number(&self) -> (r: Result<i64, String>)
        ensures
            err_view(r) == receipt_number_outcome(self@.receipt_number),
    {
        valid_receipt_number(&self.receipt_number)
    }

    /// Gets the item hired, or the error that makes it invalid.
    pub fn get_valid_item_hired(&self) -> (r: Result<String, String>)
        ensures
            text_view(r) == item_hired_outcome(self@.item_hired),
    {
        valid_item_hired(&self.item_hired)
    }

    /// Gets how many items are hired, or the error that makes it invalid.
    pub fn get_valid_how_many(&self) -> (r: Result<i32, String>)
        ensures
            err_view(r) == how_many_outcome(self@.how_many),
    {
        valid_how_many(&self.how_many)
    }

    /// Gets the hire date, or the error that makes it invalid.
    pub fn get_valid_hired_on(&self) -> (r: Result<Date, String>)
        ensures
            err_view(r) == hired_on_outcome(self@.hired_on),
            r matches Ok(d) ==> d.wf(),
    {
        valid_hired_on(&self.hired_on)
    }

    /// Gets the return date, or the error that makes it invalid.
    pub fn get_valid_return_on(&self) -> (r: Result<Date, String>)
        ensures
            err_view(r) == return_on_outcome(self@.return_on),
            r matches Ok(d) ==> d.wf(),
    {
        valid_return_on(&self.return_on)
    }

    /// The error of a field, if it has one and its error is to be shown.
    pub fn field_error(&self, field: FormField) -> (r: Option<String>)
        ensures
            opt_view(r) == (if shows_error(self@, field) {
                field_error(self@, field)
            } else {
                None
            }),
    {
        let (shown, outcome) = match field {
            FormField::CustomerName => (
                self.customer_name_show_error,
                self.get_valid_customer_name().err(),
            ),
            FormField::ReceiptNumber => (
                self.receipt_number_show_error,
                self.get_valid_receipt_number().err(),
            ),
            FormField::ItemHired => (self.item_hired_show_error, self.get_valid_item_hired().err()),
            FormField::HowMany => (self.how_many_show_error, self.get_valid_how_many().err()),
            FormField::HiredOn => (self.hired_on_show_error, self.get_valid_hired_on().err()),
            FormField::ReturnOn => (self.return_on_show_error, self.get_valid_return_on().err()),
        };
        if shown {
            outcome
        } else {
            None
        }
    }

    /// Gets the error for the field named `field` if its error is to be shown.
    /// Each field goes by its own flag: the error of `return_on` is shown when
    /// `return_on_show_error` is set, not when `hired_on_show_error` is.
    pub fn get_visible_field_error(&self, field: &str) -> (r: Option<String>)
        ensures
            opt_view(r) == visible_error(self@, field@),
    {
        match FormField::from_name(field) {
            Some(f) => self.field_error(f),
            None => None,
        }
    }

    /// Makes an order from the form if all its fields are valid; otherwise
    /// gives the error of the first invalid field.
    pub fn create_order(&self) -> (r: Result<NewOrder, String>)
        ensures
            r matches Ok(o) ==> first_error(self@) is None && order_of_form(o, self@),
            r matches Err(e) ==> first_error(self@) == Some(e@),
    {
        order_from_fields(
            self.get_valid_customer_name(),
            self.get_valid_receipt_number(),
            self.get_valid_item_hired(),
            self.get_valid_how_many(),
            self.get_valid_hired_on(),
            self.get_valid_return_on(),
        )
    }
}

} // verus!
