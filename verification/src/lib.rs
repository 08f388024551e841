//! Business rules of a property marketplace.
//!
//! A property is an asset with one owner. It changes hands in one of three
//! ways: a direct sale at a listed price, an English auction, or a sale
//! through an escrow that buyer and seller fund and release. Every operation
//! validates first, then changes the records it was handed and names the
//! transfers of value and of the asset token that have to accompany that
//! change. A rejected operation changes nothing.
//!
//! Three choices run through the rules:
//!
//! - The library moves no value itself. An accepted operation returns a
//!   [`transfers::Settlement`], and whoever hosts the library carries it out
//!   together with storing the records, or does neither.
//! - A bid that is outbid is returned at once, as part of the settlement of
//!   the bid that replaces it.
//! - Deposits into an escrow are not capped at the agreed amount, and a
//!   release always moves everything that was deposited.
//!
//! All arithmetic is checked: a counter, a time or an amount that would
//! leave 64 bits rejects the operation.

pub mod constants;
pub mod errors;
pub mod fees;
pub mod states;
pub mod transfers;
pub mod text;
pub mod instructions;
pub mod laws;
