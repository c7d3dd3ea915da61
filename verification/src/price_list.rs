//! The price ladder: price levels in traversal order, each with the order
//! that is armed on it, if any.
//!
//! The levels live in one vector. A level's links to its neighbours are
//! positions in that vector, and a well-formed ladder is one whose links say
//! exactly where each level stands.

use crate::uint::U256;
use vstd::prelude::*;

verus! {

/// The side of a trade.
#[derive(Clone, Copy, Debug, PartialEq, Eq)]
pub enum TradeDestination {
    SELL,
    BUY,
}

/// An order armed on a price level.
///
/// `mount` is `None` for an order placed when the ladder was built, whose
/// quantity is worked out when it fires, and `Some` for an order that a
/// neighbouring trade armed with its own quantity.
#[derive(Clone, Copy, Debug, PartialEq, Eq)]
pub struct Order {
    pub mount: Option<U256>,
    pub destination: TradeDestination,
    pub min_acceptable_price: U256,
    pub max_acceptable_price: U256,
}

/// What an order says, in numbers.
pub struct OrderModel {
    pub mount: Option<nat>,
    pub destination: TradeDestination,
    pub min_acceptable_price: nat,
    pub max_acceptable_price: nat,
}

/// What a price level says: its price and the order armed on it.
pub struct LevelModel {
    pub price: nat,
    pub order: Option<OrderModel>,
}

impl View for Order {
    type V = OrderModel;

    open spec fn view(&self) -> OrderModel {
        OrderModel {
            mount: match self.mount {
                Some(m) => Some(m@),
                None => None,
            },
            destination: self.destination,
            min_acceptable_price: self.min_acceptable_price@,
            max_acceptable_price: self.max_acceptable_price@,
        }
    }
}

/// The model of an optional order.
pub open spec fn order_view(order: Option<Order>) -> Option<OrderModel> {
    match order {
        Some(o) => Some(o@),
        None => None,
    }
}

/// The link that the level at position `i` holds to the level before it.
pub open spec fn previous_link(i: int) -> Option<usize> {
    if i > 0 {
        Some((i - 1) as usize)
    } else {
        None
    }
}

/// The link that the level at position `i`, of `len` levels, holds to the
/// level after it.
pub open spec fn next_link(len: nat, i: int) -> Option<usize> {
    if i + 1 < len {
        Some((i + 1) as usize)
    } else {
        None
    }
}

/// One level of the ladder.
#[derive(Clone, Copy, Debug, PartialEq, Eq)]
pub struct PriceNode {
    pub this_price: U256,
    pub order_task: Option<Order>,
    pub previous_price: Option<usize>,
    pub next_price: Option<usize>,
}

impl View for PriceNode {
    type V = LevelModel;

    open spec fn view(&self) -> LevelModel {
        LevelModel { price: self.this_price@, order: order_view(self.order_task) }
    }
}

impl PriceNode {
    /// A level that is linked to no other yet.
    pub fn new(price: U256, order: Option<Order>) -> (r: Self)
        ensures
            r.this_price == price,
            r.order_task == order,
            r.previous_price.is_none(),
            r.next_price.is_none(),
    {
        Self { this_price: price, order_task: order, previous_price: None, next_price: None }
    }
}

/// The links of the level at position `i` say where it stands.
pub open spec fn linked(nodes: Seq<PriceNode>, i: int) -> bool {
    &&& nodes[i].previous_price == previous_link(i)
    &&& nodes[i].next_price == next_link(nodes.len(), i)
}

/// The levels of a ladder, lowest position first.
#[derive(Clone, Debug)]
pub struct PriceList {
    nodes: Vec<PriceNode>,
}

impl View for PriceList {
    type V = Seq<LevelModel>;

    closed spec fn view(&self) -> Seq<LevelModel> {
        Seq::new(self.nodes@.len(), |i: int| self.nodes@[i]@)
    }
}

impl PriceList {
    /// Every level's links say where it stands.
    pub closed spec fn wf(&self) -> bool {
        forall|i: int| 0 <= i < self.nodes@.len() ==> linked(self.nodes@, i)
    }

    /// An empty ladder.
    pub fn new() -> (r: Self)
        ensures
            r.wf(),
            r@ == Seq::<LevelModel>::empty(),
    {
        let r = PriceList { nodes: Vec::new() };
        assert(r@ =~= Seq::<LevelModel>::empty());
        r
    }

    /// The number of levels.
    pub fn len(&self) -> (r: usize)
        ensures
            r == self@.len(),
    {
        self.nodes.len()
    }

    /// The level at `index`, or `None` past the end.
    pub fn get(&self, index: usize) -> (r: Option<PriceNode>)
        requires
            self.wf(),
        ensures
            self@.len() <= usize::MAX,
            r.is_some() <==> index < self@.len(),
            r.is_some() ==> {
                &&& r.unwrap()@ == self@[index as int]
                &&& r.unwrap().previous_price == previous_link(index as int)
                &&& r.unwrap().next_price == next_link(self@.len(), index as int)
            },
    {
        if index < self.nodes.len() {
            assert(linked(self.nodes@, index as int));
            Some(self.nodes[index])
        } else {
            None
        }
    }

    /// The first level, or `None` in an empty ladder.
    pub fn head(&self) -> (r: Option<PriceNode>)
        requires
            self.wf(),
        ensures
            r.is_some() <==> self@.len() > 0,
            r.is_some() ==> {
                &&& r.unwrap()@ == self@.first()
                &&& r.unwrap().previous_price.is_none()
                &&& r.unwrap().next_price == next_link(self@.len(), 0)
            },
    {
        self.get(0)
    }

    /// The last level, or `None` in an empty ladder.
    pub fn tail(&self) -> (r: Option<PriceNode>)
        requires
            self.wf(),
        ensures
            r.is_some() <==> self@.len() > 0,
            r.is_some() ==> {
                &&& r.unwrap()@ == self@.last()
                &&& r.unwrap().previous_price == previous_link(self@.len() - 1)
                &&& r.unwrap().next_price.is_none()
            },
    {
        let n = self.nodes.len();
        if n == 0 {
            None
        } else {
            self.get(n - 1)
        }
    }

    /// The levels from the first to the last.
    pub fn iter(&self) -> (r: Vec<PriceNode>)
        requires
            self.wf(),
        ensures
            r@.len() == self@.len(),
            forall|i: int|
                0 <= i < r@.len() ==> {
                    &&& (#[trigger] r@[i])@ == self@[i]
                    &&& linked(r@, i)
                },
    {
        let mut out: Vec<PriceNode> = Vec::new();
        let n = self.nodes.len();
        let mut i: usize = 0;
        while i < n
            invariant
                i <= n,
                n == self.nodes@.len(),
                out@ == self.nodes@.subrange(0, i as int),
            decreases n - i,
        {
            out.push(self.nodes[i]);
            assert(out@ =~= self.nodes@.subrange(0, i + 1));
            i += 1;
        }
        assert(out@ =~= self.nodes@);
        assert forall|i: int| 0 <= i < out@.len() implies linked(out@, i) by {
            assert(linked(self.nodes@, i));
        }
        out
    }

    /// Puts `order`, or no order, on the level at `index`.
    pub fn set_order(&mut self, index: usize, order: Option<Order>)
        requires
            old(self).wf(),
            index < old(self)@.len(),
        ensures
            final(self).wf(),
            final(self)@ == old(self)@.update(
                index as int,
                LevelModel { price: old(self)@[index as int].price, order: order_view(order) },
            ),
    {
        let mut node = self.nodes[index];
        node.order_task = order;
        self.nodes[index] = node;
        assert forall|i: int| 0 <= i < self.nodes@.len() implies linked(self.nodes@, i) by {
            assert(linked(old(self).nodes@, i));
        }
        assert(self@ =~= old(self)@.update(
            index as int,
            LevelModel { price: old(self)@[index as int].price, order: order_view(order) },
        ));
    }

    /// Sets every level's links by its position.
    fn relink(&mut self)
        ensures
            final(self).wf(),
            final(self)@ == old(self)@,
    {
        let n = self.nodes.len();
        let mut i: usize = 0;
        while i < n
            invariant
                i <= n,
                n == self.nodes@.len(),
                self@ == old(self)@,
                forall|j: int| 0 <= j < i ==> linked(self.nodes@, j),
            decreases n - i,
        {
            let ghost before = self.nodes@;
            let mut node = self.nodes[i];
            node.previous_price = if i > 0 {
                Some(i - 1)
            } else {
                None
            };
            node.next_price = if i + 1 < n {
                Some(i + 1)
            } else {
                None
            };
            self.nodes[i] = node;
            assert forall|j: int| 0 <= j < i + 1 implies linked(self.nodes@, j) by {
                if j < i {
                    assert(linked(before, j));
                }
            }
            assert(self@ =~= old(self)@);
            i += 1;
        }
    }

    /// Appends a level after the last one.
    pub fn push_back(&mut self, price: U256, order: Option<Order>)
        requires
            old(self).wf(),
        ensures
            final(self).wf(),
            final(self)@ == old(self)@.push(
                LevelModel { price: price@, order: order_view(order) },
            ),
    {
        let mut node = PriceNode::new(price, order);
        let n = self.nodes.len();
        if n > 0 {
            node.previous_price = Some(n - 1);
            let mut last = self.nodes[n - 1];
            last.next_price = Some(n);
            self.nodes[n - 1] = last;
        }
        self.nodes.push(node);
        assert forall|i: int| 0 <= i < self.nodes@.len() implies linked(self.nodes@, i) by {
            if i < n {
                assert(linked(old(self).nodes@, i));
            }
        }
        assert(self@ =~= old(self)@.push(LevelModel { price: price@, order: order_view(order) }));
    }

    /// Puts a level before the first one.
    pub fn push_front(&mut self, price: U256, order: Option<Order>)
        requires
            old(self).wf(),
        ensures
            final(self).wf(),
            final(self)@ == seq![LevelModel { price: price@, order: order_view(order) }] + old(
                self,
            )@,
    {
        self.nodes.insert(0, PriceNode::new(price, order));
        assert(self@ =~= seq![LevelModel { price: price@, order: order_view(order) }] + old(
            self,
        )@);
        self.relink();
    }

    /// Takes the last level off this ladder and puts it before the first
    /// level of `other`. An empty ladder gives nothing.
    pub fn move_tail_to_other_head(&mut self, other: &mut PriceList)
        requires
            old(self).wf(),
            old(other).wf(),
        ensures
            final(self).wf(),
            final(other).wf(),
            old(self)@.len() == 0 ==> final(self)@ == old(self)@ && final(other)@ == old(other)@,
            old(self)@.len() > 0 ==> final(self)@ == old(self)@.drop_last() && final(other)@
                == seq![old(self)@.last()] + old(other)@,
    {
        match self.nodes.pop() {
            Some(node) => {
                assert(self@ =~= old(self)@.drop_last());
                self.relink();
                assert(node@ == old(self)@.last());
                other.push_front(node.this_price, node.order_task);
            },
            None => {
                assert(self@ =~= old(self)@);
                assert forall|i: int| 0 <= i < self.nodes@.len() implies linked(
                    self.nodes@,
                    i,
                ) by {}
            },
        }
    }

    /// Takes the first level off this ladder and puts it after the last
    /// level of `other`. An empty ladder gives nothing.
    pub fn move_head_to_other_tail(&mut self, other: &mut PriceList)
        requires
            old(self).wf(),
            old(other).wf(),
        ensures
            final(self).wf(),
            final(other).wf(),
            old(self)@.len() == 0 ==> final(self)@ == old(self)@ && final(other)@ == old(other)@,
            old(self)@.len() > 0 ==> final(self)@ == old(self)@.drop_first() && final(other)@
                == old(other)@.push(old(self)@.first()),
    {
        if self.nodes.len() > 0 {
            let node = self.nodes.remove(0);
            assert(self@ =~= old(self)@.drop_first());
            self.relink();
            assert(node@ == old(self)@.first());
            other.push_back(node.this_price, node.order_task);
        }
    }
}

impl Default for PriceList {
    /// An empty ladder.
    fn default() -> (r: Self)
        ensures
            r.wf(),
            r@ == Seq::<LevelModel>::empty(),
    {
        PriceList::new()
    }
}

} // verus!
