//! What each command leaves behind for the chat: one message text.
use vstd::prelude::*;

verus! {

/// A finished command that has a reply for the operator.
pub trait QbCommandAction {
    /// The reply, as characters.
    spec fn result_text(&self) -> Seq<char>;

    /// Prepares the result for the chat message.
    fn action_result_to_string(&self) -> (r: String)
        ensures
            r@ == self.result_text(),
    ;
}

} // verus!
