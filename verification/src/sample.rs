//! Picking one value out of a pool.

use crate::random::draw;
use crate::value::{Node, Value};
use vstd::prelude::*;

verus! {

impl Node {
    /// What a draw picks from this node: of a list with `n > 0` items the item
    /// at `draw mod n`; any other node stands for itself.
    pub open spec fn picked(self, draw: nat) -> Node {
        match self {
            Node::List(items) => if items.len() > 0 {
                items[(draw % items.len()) as int]
            } else {
                self
            },
            _ => self,
        }
    }

    /// Whether this node can be sampled: it is not an empty list.
    pub open spec fn samplable(self) -> bool {
        self matches Node::List(items) ==> items.len() > 0
    }
}

impl Value {
    /// Whether this value is a list without items, the one value that cannot
    /// be sampled.
    pub fn is_empty_list(&self) -> (b: bool)
        ensures
            b == !self@.samplable(),
    {
        match self {
            Value::List(items) => items.len() == 0,
            _ => false,
        }
    }

    /// The value that `draw` picks: the item at `draw mod n` of a list of `n`
    /// items, or the value itself where it is not a list.
    pub fn pick(&self, draw: usize) -> (r: &Value)
        requires
            self@.samplable(),
        ensures
            r@ == self@.picked(draw as nat),
    {
        match self {
            Value::List(items) => &items[draw % items.len()],
            _ => self,
        }
    }

    /// One item of a list, picked by a fresh random draw, or the value itself
    /// where it is not a list; only a list costs a draw.
    ///
    /// The draw is reduced modulo the length, so the pick is uniform only up
    /// to the bias of that reduction, which is negligible for pools that are
    /// tiny beside the range of `usize`.
    pub fn sample(&self) -> (r: &Value)
        requires
            self@.samplable(),
        ensures
            exists|draw: nat| r@ == self@.picked(draw),
            !(self@ is List) ==> r@ == self@,
            self@ matches Node::List(items) ==> exists|i: int|
                0 <= i < items.len() && r@ == items[i],
            self@ matches Node::List(items) ==> items.len() == 1 ==> r@ == items[0],
    {
        match self {
            Value::List(_) => {
                let n: usize = draw();
                let r = self.pick(n);
                proof {
                    lemma_picked_is_item(self@, n as nat);
                }
                r
            },
            _ => {
                assert(self@ == self@.picked(0));
                self
            },
        }
    }
}

/// A pick from a list is one of its items; a pick from anything else is the
/// thing itself.
pub proof fn lemma_picked_is_item(node: Node, draw: nat)
    requires
        node.samplable(),
    ensures
        node matches Node::List(items) ==> 0 <= draw % items.len() < items.len()
            && node.picked(draw) == items[(draw % items.len()) as int],
        !(node is List) ==> node.picked(draw) == node,
{
}

/// Whatever the draw, a list of one item yields that item.
pub proof fn lemma_single_item_always_picked(node: Node, draw: nat)
    requires
        node is List,
        node->List_0.len() == 1,
    ensures
        node.picked(draw) == node->List_0[0],
{
}

/// Every item of a list is picked by some draw: the item at `i` by the draw `i`.
pub proof fn lemma_every_item_is_picked(node: Node, i: nat)
    requires
        node is List,
        i < node->List_0.len(),
    ensures
        node.picked(i) == node->List_0[i as int],
{
    vstd::arithmetic::div_mod::lemma_small_mod(i, node->List_0.len());
}

} // verus!
