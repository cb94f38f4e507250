//! What a caller supplies to the tool.

use vstd::prelude::*;

verus! {

/// Input of the `create_thread` tool.
///
/// An absent title is valid and differs from an empty one. No length or
/// content rule applies to a title.
#[derive(Debug)]
pub struct CreateThreadToolInput {
    /// Optional title for the new thread. If omitted, the thread keeps its
    /// default title.
    pub title: Option<String>,
}

impl View for CreateThreadToolInput {
    type V = Option<Seq<char>>;

    /// The title as a sequence of characters, where there is one.
    open spec fn view(&self) -> Option<Seq<char>> {
        match self.title {
            Some(title) => Some(title@),
            None => None,
        }
    }
}

} // verus!
