//! Reference repository: the read/write contract a durable store must
//! satisfy, realized in memory. Orders are upserted by id, positions
//! by symbol, so at most one position exists per symbol.

use vstd::prelude::*;

use crate::models::{Order, Position, Symbol};

verus! {

/// Whether two symbols denote the same pair on the same venue.
pub open spec fn same_symbol(a: Symbol, b: Symbol) -> bool {
    a.base@ == b.base@ && a.quote@ == b.quote@ && a.exchange@ == b.exchange@
}

/// Whether `a` and `b` denote the same symbol.
fn symbol_eq(a: &Symbol, b: &Symbol) -> (r: bool)
    ensures
        r == same_symbol(*a, *b),
{
    a.base.eq(&b.base) && a.quote.eq(&b.quote) && a.exchange.eq(&b.exchange)
}

impl Position {
    /// Field-for-field copy.
    pub fn duplicate(&self) -> (r: Position)
        ensures
            r == *self,
    {
        Position {
            symbol: self.symbol.duplicate(),
            quantity: self.quantity,
            avg_price: self.avg_price,
            current_price: self.current_price,
            unrealized_pnl: self.unrealized_pnl,
            realized_pnl: self.realized_pnl,
            updated_at: self.updated_at,
        }
    }
}

/// In-memory store for orders and positions with upsert semantics:
/// orders are keyed by id, positions by symbol.
pub struct MemoryRepository {
    pub orders: Vec<Order>,
    pub positions: Vec<Position>,
}

impl MemoryRepository {
    /// No two stored orders share an id and no two stored positions
    /// share a symbol.
    pub open spec fn wf(&self) -> bool {
        &&& forall|i: int, j: int|
            0 <= i < j < self.orders@.len() ==> self.orders@[i].id@ != self.orders@[j].id@
        &&& forall|i: int, j: int|
            0 <= i < j < self.positions@.len() ==> !same_symbol(
                self.positions@[i].symbol,
                self.positions@[j].symbol,
            )
    }

    pub fn new() -> (r: MemoryRepository)
        ensures
            r.wf(),
            r.orders@.len() == 0,
            r.positions@.len() == 0,
    {
        MemoryRepository { orders: Vec::new(), positions: Vec::new() }
    }

    /// Saves an order: replaces the stored order with the same id, or
    /// appends when none exists.
    pub fn save_order(&mut self, order: Order)
        requires
            old(self).wf(),
        ensures
            final(self).wf(),
            final(self).positions@ == old(self).positions@,
            (exists|k: int|
                0 <= k < old(self).orders@.len() && (#[trigger] old(self).orders@[k]).id@
                    == order.id@) ==> exists|k: int|
                0 <= k < old(self).orders@.len() && (#[trigger] old(self).orders@[k]).id@
                    == order.id@ && final(self).orders@ =~= old(self).orders@.update(k, order),
            !(exists|k: int|
                0 <= k < old(self).orders@.len() && (#[trigger] old(self).orders@[k]).id@
                    == order.id@) ==> final(self).orders@ =~= old(self).orders@.push(order),
    {
        let mut i: usize = 0;
        while i < self.orders.len()
            invariant
                i <= self.orders@.len(),
                *self == *old(self),
                old(self).wf(),
                forall|k: int| 0 <= k < i ==> (#[trigger] self.orders@[k]).id@ != order.id@,
            decreases self.orders@.len() - i,
        {
            if self.orders[i].id.eq(&order.id) {
                proof {
                    assert(old(self).orders@[i as int].id@ == order.id@);
                }
                self.orders.set(i, order);
                proof {
                    let olds = old(self).orders@;
                    let news = self.orders@;
                    assert(news =~= olds.update(i as int, order));
                    assert forall|a: int, b: int|
                        0 <= a < b < news.len() implies news[a].id@ != news[b].id@ by {
                        assert(olds[a].id@ != olds[b].id@);
                        assert(olds[i as int].id@ == order.id@);
                    }
                }
                return ;
            }
            i = i + 1;
        }
        proof {
            let olds = old(self).orders@;
            let news = olds.push(order);
            assert forall|a: int, b: int|
                0 <= a < b < news.len() implies news[a].id@ != news[b].id@ by {
                if b == olds.len() as int {
                    assert(olds[a].id@ != order.id@);
                } else {
                    assert(olds[a].id@ != olds[b].id@);
                }
            }
        }
        self.orders.push(order);
    }

    /// Order stored under `id`, if any.
    pub fn get_order(&self, id: &str) -> (r: Option<Order>)
        requires
            self.wf(),
        ensures
            r is Some <==> exists|k: int|
                0 <= k < self.orders@.len() && (#[trigger] self.orders@[k]).id@ == id@,
            r matches Some(o) ==> exists|k: int|
                0 <= k < self.orders@.len() && (#[trigger] self.orders@[k]).id@ == id@ && o
                    == self.orders@[k],
    {
        let target: String = id.to_owned();
        let mut i: usize = 0;
        while i < self.orders.len()
            invariant
                i <= self.orders@.len(),
                target@ == id@,
                forall|k: int| 0 <= k < i ==> (#[trigger] self.orders@[k]).id@ != id@,
            decreases self.orders@.len() - i,
        {
            if self.orders[i].id.eq(&target) {
                return Some(self.orders[i].duplicate());
            }
            i = i + 1;
        }
        None
    }

    /// Saves a position: replaces the stored position for the same
    /// symbol, or appends when none exists, so at most one position
    /// exists per symbol.
    pub fn save_position(&mut self, position: Position)
        requires
            old(self).wf(),
        ensures
            final(self).wf(),
            final(self).orders@ == old(self).orders@,
            (exists|k: int|
                0 <= k < old(self).positions@.len() && same_symbol(
                    (#[trigger] old(self).positions@[k]).symbol,
                    position.symbol,
                )) ==> exists|k: int|
                0 <= k < old(self).positions@.len() && same_symbol(
                    (#[trigger] old(self).positions@[k]).symbol,
                    position.symbol,
                ) && final(self).positions@ =~= old(self).positions@.update(k, position),
            !(exists|k: int|
                0 <= k < old(self).positions@.len() && same_symbol(
                    (#[trigger] old(self).positions@[k]).symbol,
                    position.symbol,
                )) ==> final(self).positions@ =~= old(self).positions@.push(position),
    {
        let mut i: usize = 0;
        while i < self.positions.len()
            invariant
                i <= self.positions@.len(),
                *self == *old(self),
                old(self).wf(),
                forall|k: int|
                    0 <= k < i ==> !same_symbol(
                        (#[trigger] self.positions@[k]).symbol,
                        position.symbol,
                    ),
            decreases self.positions@.len() - i,
        {
            if symbol_eq(&self.positions[i].symbol, &position.symbol) {
                proof {
                    assert(same_symbol(old(self).positions@[i as int].symbol, position.symbol));
                }
                self.positions.set(i, position);
                proof {
                    let olds = old(self).positions@;
                    let news = self.positions@;
                    assert(news =~= olds.update(i as int, position));
                    assert forall|a: int, b: int|
                        0 <= a < b < news.len() implies !same_symbol(
                        news[a].symbol,
                        news[b].symbol,
                    ) by {
                        assert(!same_symbol(olds[a].symbol, olds[b].symbol));
                        assert(same_symbol(olds[i as int].symbol, position.symbol));
                    }
                }
                return ;
            }
            i = i + 1;
        }
        proof {
            let olds = old(self).positions@;
            let news = olds.push(position);
            assert forall|a: int, b: int|
                0 <= a < b < news.len() implies !same_symbol(news[a].symbol, news[b].symbol) by {
                if b == olds.len() as int {
                    assert(!same_symbol(olds[a].symbol, position.symbol));
                } else {
                    assert(!same_symbol(olds[a].symbol, olds[b].symbol));
                }
            }
        }
        self.positions.push(position);
    }

    /// Copies of all stored positions, in storage order.
    pub fn get_positions(&self) -> (r: Vec<Position>)
        ensures
            r@.len() == self.positions@.len(),
            forall|k: int| 0 <= k < r@.len() ==> r@[k] == self.positions@[k],
    {
        let mut out: Vec<Position> = Vec::new();
        let mut i: usize = 0;
        while i < self.positions.len()
            invariant
                i <= self.positions@.len(),
                out@.len() == i,
                forall|k: int| 0 <= k < i ==> out@[k] == self.positions@[k],
            decreases self.positions@.len() - i,
        {
            out.push(self.positions[i].duplicate());
            i = i + 1;
        }
        out
    }
}

} // verus!
