//! The shared shape of a cursor-driven scanner: a forward-only cursor over
//! an indexed sequence of items, with bounded lookahead and an explicit
//! end-of-input test.
use vstd::prelude::*;

verus! {

/// A cursor over an indexed sequence of items.  Implementations report
/// out-of-range accesses through their own error type rather than panic.
pub trait Scanner {
    /// What the cursor yields.
    type Item: core::fmt::Debug;

    /// How an out-of-range access is reported.
    type Error: core::fmt::Debug;

    /// Steps the cursor forward and yields the item stepped over.
    fn advance(&mut self) -> Result<Self::Item, Self::Error>;

    /// The item at the cursor, without moving it.
    fn peek(&self) -> Result<Self::Item, Self::Error>;

    /// The item one past the cursor.
    fn peek_next(&self) -> Result<Self::Item, Self::Error>;

    /// The item one before the cursor.
    fn peek_previous(&self) -> Result<Self::Item, Self::Error>;

    /// The item at an absolute position.
    fn item_at(&self, index: usize) -> Result<Self::Item, Self::Error>;

    /// Whether the cursor has consumed the whole sequence.
    fn is_at_end(&self) -> bool;
}

} // verus!
