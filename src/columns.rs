//! The columns of the order tables.
use vstd::prelude::*;

verus! {

/// What a column of an order table shows.
#[derive(Clone, Copy, Debug, PartialEq, Eq, Structural)]
pub enum OrderColumnKind {
    CustomerName,
    RecieptNumber,
    ItemHired,
    HowMany,
    HiredOn,
    ReturnOn,
    BoxesNeeded,
    RaffleNumber,
    Delete,
}

/// The heading of a column of the kind `kind`.
pub open spec fn header_of(kind: OrderColumnKind) -> Seq<char> {
    match kind {
        OrderColumnKind::CustomerName => "Customer Name"@,
        OrderColumnKind::RecieptNumber => "Reciept No."@,
        OrderColumnKind::ItemHired => "Item Hired"@,
        OrderColumnKind::HowMany => "How Many"@,
        OrderColumnKind::HiredOn => "Hired On"@,
        OrderColumnKind::ReturnOn => "Return On"@,
        OrderColumnKind::BoxesNeeded => "Boxes"@,
        OrderColumnKind::RaffleNumber => "Raffle No."@,
        OrderColumnKind::Delete => ""@,
    }
}

impl OrderColumnKind {
    /// The heading of a column of this kind.
    pub fn header_text(&self) -> (r: String)
        ensures
            r@ == header_of(*self),
    {
        let text = match self {
            OrderColumnKind::CustomerName => "Customer Name",
            OrderColumnKind::RecieptNumber => "Reciept No.",
            OrderColumnKind::ItemHired => "Item Hired",
            OrderColumnKind::HowMany => "How Many",
            OrderColumnKind::HiredOn => "Hired On",
            OrderColumnKind::ReturnOn => "Return On",
            OrderColumnKind::BoxesNeeded => "Boxes",
            OrderColumnKind::RaffleNumber => "Raffle No.",
            OrderColumnKind::Delete => "",
        };
        text.to_string()
    }
}

} // verus!
