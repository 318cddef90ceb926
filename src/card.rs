//! Cards and the errors of the card store.

use vstd::prelude::*;

use crate::text::push_char;

verus! {

/// A study card: a title and a body, under the identity the store gave it.
#[derive(Debug, Clone)]
pub struct FlashCard {
    pub id: i64,
    pub title: String,
    pub body: String,
}

/// What went wrong in the card store.
#[derive(Debug, Clone, Copy, PartialEq, Eq, Structural)]
pub enum CardError {
    /// The store could not read or write.
    Store,
    /// The store answered against its own contract (more than one card at one
    /// offset).
    Consistency,
}

/// The text shown for a card: its title, a line break, its body.
pub open spec fn card_text(title: Seq<char>, body: Seq<char>) -> Seq<char> {
    title.push('\n') + body
}

impl FlashCard {
    pub fn display_text(&self) -> (r: String)
        ensures
            r@ == card_text(self.title@, self.body@),
    {
        let mut r = self.title.clone();
        push_char(&mut r, '\n');
        r.append(self.body.as_str());
        r
    }
}

} // verus!
