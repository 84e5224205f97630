//! Validation of the free-text fields of the order form.
use crate::date::{iso_date_of, parse_iso_date, Date};
use crate::order::{NewOrder, RAFFLE_MAX, RAFFLE_MIN};
use crate::text::{integer_in, parse_integer, same_text};
use vstd::prelude::*;

verus! {

/// The fewest characters that a name may have.
pub const MIN_NAME_LEN: usize = 3;

/// The most characters that a name may have.
pub const MAX_NAME_LEN: usize = 30;

/// The fewest items that one order may hire.
pub const MIN_HOW_MANY: i32 = 1;

/// The most items that one order may hire.
pub const MAX_HOW_MANY: i32 = 500;

/// One of the six input fields of the order form.
#[derive(Clone, Copy, Debug, PartialEq, Eq, Structural)]
pub enum FormField {
    CustomerName,
    ReceiptNumber,
    ItemHired,
    HowMany,
    HiredOn,
    ReturnOn,
}

/// The field that a name such as `customer_name` stands for.
pub open spec fn field_named(name: Seq<char>) -> Option<FormField> {
    if name == "customer_name"@ {
        Some(FormField::CustomerName)
    } else if name == "receipt_number"@ {
        Some(FormField::ReceiptNumber)
    } else if name == "item_hired"@ {
        Some(FormField::ItemHired)
    } else if name == "how_many"@ {
        Some(FormField::HowMany)
    } else if name == "hired_on"@ {
        Some(FormField::HiredOn)
    } else if name == "return_on"@ {
        Some(FormField::ReturnOn)
    } else {
        None
    }
}

impl FormField {
    /// The field that `name` stands for, if any.
    pub fn from_name(name: &str) -> (r: Option<FormField>)
        ensures
            r == field_named(name@),
    {
        if same_text(name, "customer_name") {
            Some(FormField::CustomerName)
        } else if same_text(name, "receipt_number") {
            Some(FormField::ReceiptNumber)
        } else if same_text(name, "item_hired") {
            Some(FormField::ItemHired)
        } else if same_text(name, "how_many") {
            Some(FormField::HowMany)
        } else if same_text(name, "hired_on") {
            Some(FormField::HiredOn)
        } else if same_text(name, "return_on") {
            Some(FormField::ReturnOn)
        } else {
            None
        }
    }
}

/// The contents of a form: the text of each field, and whether its error is
/// to be shown.
pub struct FormFields {
    pub customer_name: Seq<char>,
    pub customer_name_show_error: bool,
    pub receipt_number: Seq<char>,
    pub receipt_number_show_error: bool,
    pub item_hired: Seq<char>,
    pub item_hired_show_error: bool,
    pub how_many: Seq<char>,
    pub how_many_show_error: bool,
    pub hired_on: Seq<char>,
    pub hired_on_show_error: bool,
    pub return_on: Seq<char>,
    pub return_on_show_error: bool,
}

/// A result with its error text as characters.
pub open spec fn err_view<T>(r: Result<T, String>) -> Result<T, Seq<char>> {
    match r {
        Ok(v) => Ok(v),
        Err(e) => Err(e@),
    }
}

/// A text result with both sides as characters.
pub open spec fn text_view(r: Result<String, String>) -> Result<Seq<char>, Seq<char>> {
    match r {
        Ok(v) => Ok(v@),
        Err(e) => Err(e@),
    }
}

/// A required text of 3 to 30 characters.
pub open spec fn length_outcome(
    s: Seq<char>,
    required: Seq<char>,
    too_long: Seq<char>,
    too_short: Seq<char>,
) -> Result<Seq<char>, Seq<char>> {
    if s.len() == 0 {
        Err(required)
    } else if s.len() > MAX_NAME_LEN {
        Err(too_long)
    } else if s.len() < MIN_NAME_LEN {
        Err(too_short)
    } else {
        Ok(s)
    }
}

pub open spec fn customer_name_outcome(s: Seq<char>) -> Result<Seq<char>, Seq<char>> {
    length_outcome(
        s,
        "Customer name is required"@,
        "Customer name must be less than 30 characters"@,
        "Customer name must be at least 3 characters"@,
    )
}

pub open spec fn item_hired_outcome(s: Seq<char>) -> Result<Seq<char>, Seq<char>> {
    length_outcome(
        s,
        "Item hired is required"@,
        "Item hired must be less than 30 characters"@,
        "Item hired must be at least 3 characters"@,
    )
}

/// A required 64-bit integer.
pub open spec fn receipt_number_outcome(s: Seq<char>) -> Result<i64, Seq<char>> {
    if s.len() == 0 {
        Err("Receipt number is required"@)
    } else {
        match integer_in(s, i64::MIN as int, i64::MAX as int) {
            Some(v) => Ok(v as i64),
            None => Err("Receipt number must be a 64-bit integer"@),
        }
    }
}

/// A required 32-bit integer from 1 to 500.
pub open spec fn how_many_outcome(s: Seq<char>) -> Result<i32, Seq<char>> {
    if s.len() == 0 {
        Err("How many is required"@)
    } else {
        match integer_in(s, i32::MIN as int, i32::MAX as int) {
            Some(v) => if v < MIN_HOW_MANY {
                Err("How many must be at least 1"@)
            } else if v > MAX_HOW_MANY {
                Err("How many must not be more than 500"@)
            } else {
                Ok(v as i32)
            },
            None => Err("How many must be an integer"@),
        }
    }
}

/// The date that year, month and day give.
pub open spec fn date_of(ymd: (int, int, int)) -> Date {
    Date { year: ymd.0 as i32, month: ymd.1 as u32, day: ymd.2 as u32 }
}

/// A required date, given what reading the text as a date gave.
pub open spec fn date_outcome(
    s: Seq<char>,
    parsed: Option<Date>,
    required: Seq<char>,
    malformed: Seq<char>,
) -> Result<Date, Seq<char>> {
    if s.len() == 0 {
        Err(required)
    } else {
        match parsed {
            Some(d) => Ok(d),
            None => Err(malformed),
        }
    }
}

/// What reading a text as a `YYYY-MM-DD` date gives.
pub open spec fn iso_date(s: Seq<char>) -> Option<Date> {
    match iso_date_of(s) {
        Some(ymd) => Some(date_of(ymd)),
        None => None,
    }
}

pub open spec fn hired_on_outcome(s: Seq<char>) -> Result<Date, Seq<char>> {
    date_outcome(
        s,
        iso_date(s),
        "Hired on date is required"@,
        "Hired on date must be formatted as YYYY-MM-DD e.g. 2025-03-18"@,
    )
}

pub open spec fn return_on_outcome(s: Seq<char>) -> Result<Date, Seq<char>> {
    date_outcome(
        s,
        iso_date(s),
        "Return on date is required"@,
        "Return on date must be formatted as YYYY-MM-DD e.g. 2025-03-18"@,
    )
}

/// The error of an outcome, if it has one.
pub open spec fn error_of<T>(r: Result<T, Seq<char>>) -> Option<Seq<char>> {
    match r {
        Ok(_) => None,
        Err(e) => Some(e),
    }
}

/// The error of a field's text, whether shown or not.
pub open spec fn field_error(f: FormFields, field: FormField) -> Option<Seq<char>> {
    match field {
        FormField::CustomerName => error_of(customer_name_outcome(f.customer_name)),
        FormField::ReceiptNumber => error_of(receipt_number_outcome(f.receipt_number)),
        FormField::ItemHired => error_of(item_hired_outcome(f.item_hired)),
        FormField::HowMany => error_of(how_many_outcome(f.how_many)),
        FormField::HiredOn => error_of(hired_on_outcome(f.hired_on)),
        FormField::ReturnOn => error_of(return_on_outcome(f.return_on)),
    }
}

/// Whether the error of a field is to be shown.
pub open spec fn shows_error(f: FormFields, field: FormField) -> bool {
    match field {
        FormField::CustomerName => f.customer_name_show_error,
        FormField::ReceiptNumber => f.receipt_number_show_error,
        FormField::ItemHired => f.item_hired_show_error,
        FormField::HowMany => f.how_many_show_error,
        FormField::HiredOn => f.hired_on_show_error,
        FormField::ReturnOn => f.return_on_show_error,
    }
}

/// The error that the form shows beside the field named `name`.
pub open spec fn visible_error(f: FormFields, name: Seq<char>) -> Option<Seq<char>> {
    match field_named(name) {
        Some(field) => if shows_error(f, field) {
            field_error(f, field)
        } else {
            None
        },
        None => None,
    }
}

/// The first error of the form, taking the fields in order.
pub open spec fn first_error(f: FormFields) -> Option<Seq<char>> {
    if field_error(f, FormField::CustomerName) is Some {
        field_error(f, FormField::CustomerName)
    } else if field_error(f, FormField::ReceiptNumber) is Some {
        field_error(f, FormField::ReceiptNumber)
    } else if field_error(f, FormField::ItemHired) is Some {
        field_error(f, FormField::ItemHired)
    } else if field_error(f, FormField::HowMany) is Some {
        field_error(f, FormField::HowMany)
    } else if field_error(f, FormField::HiredOn) is Some {
        field_error(f, FormField::HiredOn)
    } else {
        field_error(f, FormField::ReturnOn)
    }
}

/// Whether `o` holds the values of the valid form `f`, whatever its raffle number.
pub open spec fn order_of_form(o: NewOrder, f: FormFields) -> bool {
    &&& customer_name_outcome(f.customer_name) == Ok::<Seq<char>, Seq<char>>(o.customer_name@)
    &&& receipt_number_outcome(f.receipt_number) == Ok::<i64, Seq<char>>(o.receipt_number)
    &&& item_hired_outcome(f.item_hired) == Ok::<Seq<char>, Seq<char>>(o.item_hired@)
    &&& how_many_outcome(f.how_many) == Ok::<i32, Seq<char>>(o.how_many)
    &&& hired_on_outcome(f.hired_on) == Ok::<Date, Seq<char>>(o.hired_on)
    &&& return_on_outcome(f.return_on) == Ok::<Date, Seq<char>>(o.return_on)
    &&& o.boxes_needed == crate::order::boxes_for(o.how_many as int)
    &&& RAFFLE_MIN <= o.raffle_number <= RAFFLE_MAX
    &&& o.hired_on.wf()
    &&& o.return_on.wf()
}

fn owned(s: &str) -> (r: String)
    ensures
        r@ == s@,
{
    s.to_string()
}

/// Checks a required text of 3 to 30 characters, with the given error texts.
pub fn check_length(text: &String, required: &str, too_long: &str, too_short: &str) -> (r: Result<
    String,
    String,
>)
    ensures
        text_view(r) == length_outcome(text@, required@, too_long@, too_short@),
{
    let len = text.as_str().unicode_len();
    if text.as_str().is_empty() {
        Err(owned(required))
    } else if len > MAX_NAME_LEN {
        Err(owned(too_long))
    } else if len < MIN_NAME_LEN {
        Err(owned(too_short))
    } else {
        Ok(text.clone())
    }
}

/// Gets a customer name, or the error that makes it invalid.
pub fn valid_customer_name(text: &String) -> (r: Result<String, String>)
    ensures
        text_view(r) == customer_name_outcome(text@),
{
    check_length(
        text,
        "Customer name is required",
        "Customer name must be less than 30 characters",
        "Customer name must be at least 3 characters",
    )
}

/// Gets an item description, or the error that makes it invalid.
pub fn valid_item_hired(text: &String) -> (r: Result<String, String>)
    ensures
        text_view(r) == item_hired_outcome(text@),
{
    check_length(
        text,
        "Item hired is required",
        "Item hired must be less than 30 characters",
        "Item hired must be at least 3 characters",
    )
}

/// Gets a receipt number as an integer, or the error that makes it invalid.
pub fn valid_receipt_number(text: &String) -> (r: Result<i64, String>)
    ensures
        err_view(r) == receipt_number_outcome(text@),
{
    if text.as_str().is_empty() {
        Err(owned("Receipt number is required"))
    } else {
        match parse_integer(text.as_str(), i64::MIN, i64::MAX) {
            Some(v) => Ok(v),
            None => Err(owned("Receipt number must be a 64-bit integer")),
        }
    }
}

/// Gets how many items are hired, or the error that makes the text invalid.
pub fn valid_how_many(text: &String) -> (r: Result<i32, String>)
    ensures
        err_view(r) == how_many_outcome(text@),
{
    if text.as_str().is_empty() {
        Err(owned("How many is required"))
    } else {
        match parse_integer(text.as_str(), i32::MIN as i64, i32::MAX as i64) {
            Some(v) => {
                if v < MIN_HOW_MANY as i64 {
                    Err(owned("How many must be at least 1"))
                } else if v > MAX_HOW_MANY as i64 {
                    Err(owned("How many must not be more than 500"))
                } else {
                    Ok(v as i32)
                }
            },
            None => Err(owned("How many must be an integer")),
        }
    }
}

/// Decides a required date field from its text and what reading that text
/// as a date gave.
pub fn decide_date(text: &String, parsed: Option<Date>, required: &str, malformed: &str) -> (r:
    Result<Date, String>)
    ensures
        err_view(r) == date_outcome(text@, parsed, required@, malformed@),
{
    if text.as_str().is_empty() {
        Err(owned(required))
    } else {
        match parsed {
            Some(d) => Ok(d),
            None => Err(owned(malformed)),
        }
    }
}

/// Reads a `YYYY-MM-DD` date from a text.
pub fn read_iso_date(text: &String) -> (r: Option<Date>)
    ensures
        r == iso_date(text@),
        r matches Some(d) ==> d.wf(),
{
    parse_iso_date(text.as_str())
}

/// Gets a hire date, or the error that makes the text invalid.
pub fn valid_hired_on(text: &String) -> (r: Result<Date, String>)
    ensures
        err_view(r) == hired_on_outcome(text@),
        r matches Ok(d) ==> d.wf(),
{
    decide_date(
        text,
        read_iso_date(text),
        "Hired on date is required",
        "Hired on date must be formatted as YYYY-MM-DD e.g. 2025-03-18",
    )
}

/// Gets a return date, or the error that makes the text invalid.
pub fn valid_return_on(text: &String) -> (r: Result<Date, String>)
    ensures
        err_view(r) == return_on_outcome(text@),
        r matches Ok(d) ==> d.wf(),
{
    decide_date(
        text,
        read_iso_date(text),
        "Return on date is required",
        "Return on date must be formatted as YYYY-MM-DD e.g. 2025-03-18",
    )
}

/// An error, if any, as characters.
pub open spec fn opt_view(r: Option<String>) -> Option<Seq<char>> {
    match r {
        Some(e) => Some(e@),
        None => None,
    }
}

/// The form with every field empty and no error shown.
pub open spec fn empty_form() -> FormFields {
    FormFields {
        customer_name: Seq::empty(),
        customer_name_show_error: false,
        receipt_number: Seq::empty(),
        receipt_number_show_error: false,
        item_hired: Seq::empty(),
        item_hired_show_error: false,
        how_many: Seq::empty(),
        how_many_show_error: false,
        hired_on: Seq::empty(),
        hired_on_show_error: false,
        return_on: Seq::empty(),
        return_on_show_error: false,
    }
}

/// The form `f` with every error shown.
pub open spec fn all_errors_shown(f: FormFields) -> FormFields {
    FormFields {
        customer_name_show_error: true,
        receipt_number_show_error: true,
        item_hired_show_error: true,
        how_many_show_error: true,
        hired_on_show_error: true,
        return_on_show_error: true,
        ..f
    }
}

/// Makes the order of a form whose fields have been checked one by one, or
/// gives the first error met.
pub fn order_from_fields(
    customer_name: Result<String, String>,
    receipt_number: Result<i64, String>,
    item_hired: Result<String, String>,
    how_many: Result<i32, String>,
    hired_on: Result<Date, String>,
    return_on: Result<Date, String>,
) -> (r: Result<NewOrder, String>)
    ensures
        r matches Err(e) ==> {
            ||| customer_name == Err::<String, String>(e)
            ||| customer_name is Ok && receipt_number == Err::<i64, String>(e)
            ||| customer_name is Ok && receipt_number is Ok && item_hired == Err::<String, String>(e)
            ||| customer_name is Ok && receipt_number is Ok && item_hired is Ok
                && how_many == Err::<i32, String>(e)
            ||| customer_name is Ok && receipt_number is Ok && item_hired is Ok && how_many is Ok
                && hired_on == Err::<Date, String>(e)
            ||| customer_name is Ok && receipt_number is Ok && item_hired is Ok && how_many is Ok
                && hired_on is Ok && return_on == Err::<Date, String>(e)
        },
        r is Ok <==> (customer_name is Ok && receipt_number is Ok && item_hired is Ok
            && how_many is Ok && hired_on is Ok && return_on is Ok),
        r matches Ok(o) ==> {
            &&& customer_name == Ok::<String, String>(o.customer_name)
            &&& receipt_number == Ok::<i64, String>(o.receipt_number)
            &&& item_hired == Ok::<String, String>(o.item_hired)
            &&& how_many == Ok::<i32, String>(o.how_many)
            &&& hired_on == Ok::<Date, String>(o.hired_on)
            &&& return_on == Ok::<Date, String>(o.return_on)
            &&& o.boxes_needed == crate::order::boxes_for(o.how_many as int)
            &&& RAFFLE_MIN <= o.raffle_number <= RAFFLE_MAX
        },
{
    let customer_name = match customer_name {
        Ok(v) => v,
        Err(e) => return Err(e),
    };
    let receipt_number = match receipt_number {
        Ok(v) => v,
        Err(e) => return Err(e),
    };
    let item_hired = match item_hired {
        Ok(v) => v,
        Err(e) => return Err(e),
    };
    let how_many = match how_many {
        Ok(v) => v,
        Err(e) => return Err(e),
    };
    let hired_on = match hired_on {
        Ok(v) => v,
        Err(e) => return Err(e),
    };
    let return_on = match return_on {
        Ok(v) => v,
        Err(e) => return Err(e),
    };
    Ok(NewOrder::new(customer_name, receipt_number, item_hired, how_many, hired_on, return_on))
}

/// Represents a form to create an order.
pub struct OrderForm {
    pub customer_name: String,
    pub customer_name_show_error: bool,
    pub receipt_number: String,
    pub receipt_number_show_error: bool,
    pub item_hired: String,
    pub item_hired_show_error: bool,
    pub how_many: String,
    pub how_many_show_error: bool,
    pub hired_on: String,
    pub hired_on_show_error: bool,
    pub return_on: String,
    pub return_on_show_error: bool,
}

impl View for OrderForm {
    type V = FormFields;

    open spec fn view(&self) -> FormFields {
        FormFields {
            customer_name: self.customer_name@,
            customer_name_show_error: self.customer_name_show_error,
            receipt_number: self.receipt_number@,
            receipt_number_show_error: self.receipt_number_show_error,
            item_hired: self.item_hired@,
            item_hired_show_error: self.item_hired_show_error,
            how_many: self.how_many@,
            how_many_show_error: self.how_many_show_error,
            hired_on: self.hired_on@,
            hired_on_show_error: self.hired_on_show_error,
            return_on: self.return_on@,
            return_on_show_error: self.return_on_show_error,
        }
    }
}

impl Default for OrderForm {
    fn default() -> (r: OrderForm)
        ensures
            r@ == empty_form(),
    {
        OrderForm {
            customer_name: String::new(),
            customer_name_show_error: false,
            receipt_number: String::new(),
            receipt_number_show_error: false,
            item_hired: String::new(),
            item_hired_show_error: false,
            how_many: String::new(),
            how_many_show_error: false,
            hired_on: String::new(),
            hired_on_show_error: false,
            return_on: String::new(),
            return_on_show_error: false,
        }
    }
}

impl OrderForm {
    /// Gets the customer name, or the error that makes it invalid.
    pub fn get_valid_customer_name(&self) -> (r: Result<String, String>)
        ensures
            text_view(r) == customer_name_outcome(self@.customer_name),
    {
        valid_customer_name(&self.customer_name)
    }

    /// Gets the receipt number as an integer, or the error that makes it invalid.
    pub fn get_valid_receipt_number(&self) -> (r: Result<i64, String>)
        ensures
            err_view(r) == receipt_number_outcome(self@.receipt_number),
    {
        valid_receipt_number(&self.receipt_number)
    }

    /// Gets the item hired, or the error that makes it invalid.
    pub fn get_valid_item_hired(&self) -> (r: Result<String, String>)
        ensures
            text_view(r) == item_hired_outcome(self@.item_hired),
    {
        valid_item_hired(&self.item_hired)
    }

    /// Gets how many items are hired, or the error that makes it invalid.
    pub fn get_valid_how_many(&self) -> (r: Result<i32, String>)
        ensures
            err_view(r) == how_many_outcome(self@.how_many),
    {
        valid_how_many(&self.how_many)
    }

    /// Gets the hire date, or the error that makes it invalid.
    pub fn get_valid_hired_on(&self) -> (r: Result<Date, String>)
        ensures
            err_view(r) == hired_on_outcome(self@.hired_on),
            r matches Ok(d) ==> d.wf(),
    {
        valid_hired_on(&self.hired_on)
    }

    /// Gets the return date, or the error that makes it invalid.
    pub fn get_valid_return_on(&self) -> (r: Result<Date, String>)
        ensures
            err_view(r) == return_on_outcome(self@.return_on),
            r matches Ok(d) ==> d.wf(),
    {
        valid_return_on(&self.return_on)
    }

    /// The error of a field, if it has one and its error is to be shown.
    pub fn field_error(&self, field: FormField) -> (r: Option<String>)
        ensures
            opt_view(r) == (if shows_error(self@, field) {
                field_error(self@, field)
            } else {
                None
            }),
    {
        let (shown, outcome) = match field {
            FormField::CustomerName => (
                self.customer_name_show_error,
                self.get_valid_customer_name().err(),
            ),
            FormField::ReceiptNumber => (
                self.receipt_number_show_error,
                self.get_valid_receipt_number().err(),
            ),
            FormField::ItemHired => (self.item_hired_show_error, self.get_valid_item_hired().err()),
            FormField::HowMany => (self.how_many_show_error, self.get_valid_how_many().err()),
            FormField::HiredOn => (self.hired_on_show_error, self.get_valid_hired_on().err()),
            FormField::ReturnOn => (self.return_on_show_error, self.get_valid_return_on().err()),
        };
        if shown {
            outcome
        } else {
            None
        }
    }

    /// Gets the error for the field named `field` if its error is to be shown.
    pub fn get_visible_field_error(&self, field: &str) -> (r: Option<String>)
        ensures
            opt_view(r) == visible_error(self@, field@),
    {
        match FormField::from_name(field) {
            Some(f) => self.field_error(f),
            None => None,
        }
    }

    /// Makes an order from the form if all its fields are valid; otherwise
    /// gives the error of the first invalid field.
    pub fn create_order(&self) -> (r: Result<NewOrder, String>)
        ensures
            r matches Ok(o) ==> first_error(self@) is None && order_of_form(o, self@),
            r matches Err(e) ==> first_error(self@) == Some(e@),
    {
        order_from_fields(
            self.get_valid_customer_name(),
            self.get_valid_receipt_number(),
            self.get_valid_item_hired(),
            self.get_valid_how_many(),
            self.get_valid_hired_on(),
            self.get_valid_return_on(),
        )
    }

    /// Sets the text of a field and has its error shown from now on.
    pub fn set_field(&mut self, field: FormField, text: String)
        ensures
            final(self)@ == set_field_text(old(self)@, field, text@),
    {
        match field {
            FormField::CustomerName => {
                self.customer_name = text;
                self.customer_name_show_error = true;
            },
            FormField::ReceiptNumber => {
                self.receipt_number = text;
                self.receipt_number_show_error = true;
            },
            FormField::ItemHired => {
                self.item_hired = text;
                self.item_hired_show_error = true;
            },
            FormField::HowMany => {
                self.how_many = text;
                self.how_many_show_error = true;
            },
            FormField::HiredOn => {
                self.hired_on = text;
                self.hired_on_show_error = true;
            },
            FormField::ReturnOn => {
                self.return_on = text;
                self.return_on_show_error = true;
            },
        }
    }

    /// Has the error of every field shown.
    pub fn show_all_errors(&mut self)
        ensures
            final(self)@ == all_errors_shown(old(self)@),
    {
        self.customer_name_show_error = true;
        self.receipt_number_show_error = true;
        self.item_hired_show_error = true;
        self.how_many_show_error = true;
        self.hired_on_show_error = true;
        self.return_on_show_error = true;
    }
}

/// The form `f` with `text` in `field`, whose error is shown from now on.
pub open spec fn set_field_text(f: FormFields, field: FormField, text: Seq<char>) -> FormFields {
    match field {
        FormField::CustomerName => FormFields { customer_name: text, customer_name_show_error: true, ..f },
        FormField::ReceiptNumber => FormFields { receipt_number: text, receipt_number_show_error: true, ..f },
        FormField::ItemHired => FormFields { item_hired: text, item_hired_show_error: true, ..f },
        FormField::HowMany => FormFields { how_many: text, how_many_show_error: true, ..f },
        FormField::HiredOn => FormFields { hired_on: text, hired_on_show_error: true, ..f },
        FormField::ReturnOn => FormFields { return_on: text, return_on_show_error: true, ..f },
    }
}

} // verus!
