//! Conversation items as they are stored: input items and output items.

use vstd::prelude::*;

use crate::input::InputItem;
use crate::output::OutputItem;

verus! {

/// Item kind (input vs output) for storage and retrieval.
#[derive(Debug, Clone, Copy, PartialEq, Eq, Structural)]
pub enum ItemKind {
    Input,
    Output,
}

/// Union type for conversation items (input or output).
#[derive(Debug)]
pub enum InOutItem {
    Input(InputItem),
    Output(OutputItem),
}

/// The input items of a history, in order.
pub open spec fn inputs_of(history: Seq<InOutItem>) -> Seq<InputItem>
    decreases history.len(),
{
    if history.len() == 0 {
        Seq::empty()
    } else {
        let rest = inputs_of(history.drop_last());
        match history.last() {
            InOutItem::Input(item) => rest.push(item),
            InOutItem::Output(_) => rest,
        }
    }
}

impl From<InputItem> for InOutItem {
    /// The stored form of an input item.
    fn from(item: InputItem) -> (r: Self) {
        InOutItem::Input(item)
    }
}

impl vstd::std_specs::convert::FromSpecImpl<InputItem> for InOutItem {
    open spec fn obeys_from_spec() -> bool {
        true
    }

    open spec fn from_spec(v: InputItem) -> Self {
        InOutItem::Input(v)
    }
}

impl From<OutputItem> for InOutItem {
    /// The stored form of an output item.
    fn from(item: OutputItem) -> (r: Self) {
        InOutItem::Output(item)
    }
}

impl vstd::std_specs::convert::FromSpecImpl<OutputItem> for InOutItem {
    open spec fn obeys_from_spec() -> bool {
        true
    }

    open spec fn from_spec(v: OutputItem) -> Self {
        InOutItem::Output(v)
    }
}

impl InOutItem {
    /// Extracts input items from a mixed history, filtering out output items.
    pub fn into_input_items(history: Vec<InOutItem>) -> (r: Vec<InputItem>)
        ensures
            r@ == inputs_of(history@),
    {
        let ghost h = history@;
        let mut out: Vec<InputItem> = Vec::new();
        for item in it: history.into_iter()
            invariant
                it.seq() == h,
                out@ == inputs_of(h.take(it.index() as int)),
        {
            proof {
                assert(h.take(it.index() + 1).drop_last() =~= h.take(it.index() as int));
            }
            match item {
                InOutItem::Input(i) => out.push(i),
                InOutItem::Output(_) => {},
            }
        }
        proof {
            assert(h.take(h.len() as int) =~= h);
        }
        out
    }
}

} // verus!
