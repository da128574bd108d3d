use crate::game::GameModel;
use vstd::prelude::*;

verus! {

/// One trade of a session, in the abstract.
pub enum Trade {
    Buy(int),
    Sell(int),
}

impl Trade {
    pub open spec fn amount(self) -> int {
        match self {
            Trade::Buy(a) => a,
            Trade::Sell(a) => a,
        }
    }
}

/// The state reached from `m` by making `trades` in order.
pub open spec fn apply_trades(m: GameModel, trades: Seq<Trade>) -> GameModel
    decreases trades.len(),
{
    if trades.len() == 0 {
        m
    } else {
        let before = apply_trades(m, trades.drop_last());
        match trades.last() {
            Trade::Buy(a) => before.buy(a),
            Trade::Sell(a) => before.sell(a),
        }
    }
}

/// The inventory never goes negative, whatever buys and sells of non-negative
/// amounts are made.
pub proof fn lemma_inventory_never_negative(m: GameModel, trades: Seq<Trade>)
    requires
        m.inventory >= 0,
        forall|i: int| 0 <= i < trades.len() ==> (#[trigger] trades[i]).amount() >= 0,
    ensures
        apply_trades(m, trades).inventory >= 0,
    decreases trades.len(),
{
    if trades.len() > 0 {
        let rest = trades.drop_last();
        assert forall|i: int| 0 <= i < rest.len() implies (#[trigger] rest[i]).amount() >= 0 by {
            assert(rest[i] == trades[i]);
        }
        lemma_inventory_never_negative(m, rest);
        assert(trades.last() == trades[trades.len() - 1]);
    }
}

/// Buying or selling nothing changes nothing.
pub proof fn lemma_zero_trade_changes_nothing(m: GameModel)
    ensures
        m.buy(0) == m,
        m.sell(0) == m,
{
}

} // verus!
