//! Order records: the derived quantities of a new order, and orders read
//! back from storage.
use crate::date::{iso_date_of, parse_iso_date, Date};
use rand::Rng;
use vstd::prelude::*;

verus! {

/// How many items one box holds.
pub const ITEMS_PER_BOX: i32 = 25;

/// The lowest raffle number that an order can draw.
pub const RAFFLE_MIN: i32 = 0;

/// The highest raffle number that an order can draw.
pub const RAFFLE_MAX: i32 = 1000;

/// The boxes that `items` items fill: `items / 25`, rounded up.
pub open spec fn boxes_for(items: int) -> int {
    if items % 25 == 0 {
        items / 25
    } else {
        items / 25 + 1
    }
}

/// Gets how many boxes are needed to store the given number of items.
pub fn boxes_needed(items: i32) -> (r: i32)
    ensures
        r == boxes_for(items as int),
{
    if items >= 0 {
        let whole = items / ITEMS_PER_BOX;
        if items % ITEMS_PER_BOX == 0 {
            whole
        } else {
            whole + 1
        }
    } else {
        let m: i64 = -(items as i64);
        let whole = m / 25;
        proof {
            let x = items as int;
            assert(m == -x);
            if m % 25 == 0 {
                assert(x == -(25 * whole)) by (nonlinear_arith)
                    requires
                        m == -x,
                        m == 25 * whole + m % 25,
                        m % 25 == 0,
                ;
                assert(x % 25 == 0 && x / 25 == -whole) by (nonlinear_arith)
                    requires
                        x == -(25 * whole),
                ;
            } else {
                assert(x == 25 * (-whole - 1) + (25 - m % 25)) by (nonlinear_arith)
                    requires
                        m == -x,
                        m == 25 * whole + m % 25,
                ;
                assert(x / 25 == -whole - 1 && x % 25 == 25 - m % 25) by (nonlinear_arith)
                    requires
                        x == 25 * (-whole - 1) + (25 - m % 25),
                        0 < m % 25 < 25,
                ;
            }
        }
        -(whole as i32)
    }
}

/// Relies on rand's `Rng::random_range` over `lo..=hi` with the thread-local
/// generator of `rand::rng`: the number drawn lies in that range, which must
/// not be empty.
#[verifier::external_body]
fn random_in(lo: i32, hi: i32) -> (r: i32)
    requires
        lo <= hi,
    ensures
        lo <= r <= hi,
{
    rand::rng().random_range(lo..=hi)
}

/// An order that has passed validation and is ready to be stored.
#[derive(Clone, Debug, PartialEq, Eq)]
pub struct NewOrder {
    pub customer_name: String,
    pub receipt_number: i64,
    pub item_hired: String,
    pub how_many: i32,
    pub hired_on: Date,
    pub return_on: Date,
    pub boxes_needed: i32,
    pub raffle_number: i32,
}

impl NewOrder {
    /// Makes the order with the given raffle number; its boxes are computed
    /// from `how_many`.
    pub fn with_raffle_number(
        customer_name: String,
        receipt_number: i64,
        item_hired: String,
        how_many: i32,
        hired_on: Date,
        return_on: Date,
        raffle_number: i32,
    ) -> (r: NewOrder)
        ensures
            r.customer_name == customer_name,
            r.receipt_number == receipt_number,
            r.item_hired == item_hired,
            r.how_many == how_many,
            r.hired_on == hired_on,
            r.return_on == return_on,
            r.boxes_needed == boxes_for(how_many as int),
            r.raffle_number == raffle_number,
    {
        NewOrder {
            customer_name,
            receipt_number,
            item_hired,
            how_many,
            hired_on,
            return_on,
            boxes_needed: boxes_needed(how_many),
            raffle_number,
        }
    }

    /// Makes the order and draws its raffle number, uniformly from `0..=1000`.
    pub fn new(
        customer_name: String,
        receipt_number: i64,
        item_hired: String,
        how_many: i32,
        hired_on: Date,
        return_on: Date,
    ) -> (r: NewOrder)
        ensures
            r.customer_name == customer_name,
            r.receipt_number == receipt_number,
            r.item_hired == item_hired,
            r.how_many == how_many,
            r.hired_on == hired_on,
            r.return_on == return_on,
            r.boxes_needed == boxes_for(how_many as int),
            RAFFLE_MIN <= r.raffle_number <= RAFFLE_MAX,
    {
        let raffle_number = random_in(RAFFLE_MIN, RAFFLE_MAX);
        NewOrder::with_raffle_number(
            customer_name,
            receipt_number,
            item_hired,
            how_many,
            hired_on,
            return_on,
            raffle_number,
        )
    }
}

/// An order row as storage holds it, dates as text.
#[derive(Clone, Debug, PartialEq, Eq)]
pub struct OrderRow {
    pub id: i32,
    pub customer_name: String,
    pub receipt_number: i64,
    pub item_hired: String,
    pub how_many: i32,
    pub hired_on: String,
    pub return_on: String,
    pub boxes_needed: i32,
    pub raffle_number: i32,
}

/// Represents an order that has been stored.
#[derive(Clone, Debug, PartialEq, Eq, PartialOrd, Ord)]
pub struct Order {
    pub id: i32,
    pub customer_name: String,
    pub receipt_number: i64,
    pub item_hired: String,
    pub how_many: i32,
    pub hired_on: Date,
    pub return_on: Date,
    pub boxes_needed: i32,
    pub raffle_number: i32,
}

impl Order {
    /// Whether `o` is `row` with the dates `hired_on` and `return_on`.
    pub open spec fn holds_row(o: Order, row: OrderRow, hired_on: Date, return_on: Date) -> bool {
        &&& o.id == row.id
        &&& o.customer_name == row.customer_name
        &&& o.receipt_number == row.receipt_number
        &&& o.item_hired == row.item_hired
        &&& o.how_many == row.how_many
        &&& o.hired_on == hired_on
        &&& o.return_on == return_on
        &&& o.boxes_needed == row.boxes_needed
        &&& o.raffle_number == row.raffle_number
    }

    /// Builds the order of a stored row from the dates read from its two date
    /// texts; without both dates there is no order.
    pub fn from_parsed_row(row: OrderRow, hired_on: Option<Date>, return_on: Option<Date>) -> (r:
        Option<Order>)
        ensures
            r is Some <==> (hired_on is Some && return_on is Some),
            r matches Some(o) ==> Order::holds_row(o, row, hired_on->0, return_on->0),
    {
        match (hired_on, return_on) {
            (Some(h), Some(t)) => Some(
                Order {
                    id: row.id,
                    customer_name: row.customer_name,
                    receipt_number: row.receipt_number,
                    item_hired: row.item_hired,
                    how_many: row.how_many,
                    hired_on: h,
                    return_on: t,
                    boxes_needed: row.boxes_needed,
                    raffle_number: row.raffle_number,
                },
            ),
            _ => None,
        }
    }

    /// Builds the order of a stored row, reading its dates as `YYYY-MM-DD`;
    /// a row whose dates do not read gives none.
    pub fn from_row(row: OrderRow) -> (r: Option<Order>)
        ensures
            r is Some <==> (iso_date_of(row.hired_on@) is Some && iso_date_of(row.return_on@) is Some),
            r matches Some(o) ==> {
                &&& Order::holds_row(o, row, o.hired_on, o.return_on)
                &&& iso_date_of(row.hired_on@) == Some(o.hired_on@)
                &&& iso_date_of(row.return_on@) == Some(o.return_on@)
                &&& o.hired_on.wf()
                &&& o.return_on.wf()
            },
    {
        let hired_on = parse_iso_date(row.hired_on.as_str());
        let return_on = parse_iso_date(row.return_on.as_str());
        Order::from_parsed_row(row, hired_on, return_on)
    }
}

} // verus!
