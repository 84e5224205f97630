//! Equipment-rental orders: form validation, order records and the
//! decisions of the order-management screen.
pub mod text;
pub mod date;
pub mod order;
pub mod form;
pub mod builder;
pub mod screen;
pub mod columns;

pub use builder::OrderBuilder;
pub use columns::OrderColumnKind;
pub use date::Date;
pub use form::{FormField, OrderForm};
pub use order::{boxes_needed, NewOrder, Order, OrderRow};
pub use screen::{AppState, Effect, Event, TabId};
