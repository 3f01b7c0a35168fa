//! A small ledger of accounts held in different currencies, every balance
//! read and written in one reference unit, together with two generic
//! containers: a vector that keeps its items in order and a singly linked
//! stack.
//!
//! - [`money`]: currencies with fixed exchange rates, and holdings of them.
//!   Money is counted in whole reference units, and a balance in a currency's
//!   own unit is an exact fraction ([`ratio`]): nothing is rounded.
//! - [`account`]: a named, identified holding in one currency.
//! - [`bank`]: accounts of any currency under their identifiers ([`ident`]),
//!   and the error for an identifier that names none.
//! - [`ordered_vec`], [`linked_list`]: the two containers.

pub mod account;
pub mod bank;
pub mod ident;
pub mod linked_list;
pub mod money;
pub mod ordered_vec;
pub mod ratio;
