use rand::Rng;
use vstd::prelude::*;

verus! {

/// The abstract state of a session, over mathematical integers.
pub struct GameModel {
    pub cash: int,
    pub debt: int,
    pub inventory: int,
    pub unit_price: int,
    pub day: int,
}

impl GameModel {
    /// What a purchase of `amount` units costs at the current price.
    pub open spec fn cost(self, amount: int) -> int {
        amount * self.unit_price
    }

    /// A purchase goes through exactly when the player can pay for all of it.
    pub open spec fn can_buy(self, amount: int) -> bool {
        self.cost(amount) <= self.cash
    }

    /// A sale goes through exactly when the player holds that many units.
    pub open spec fn can_sell(self, amount: int) -> bool {
        amount <= self.inventory
    }

    /// The state after buying `amount` units: all of it, or nothing.
    pub open spec fn buy(self, amount: int) -> GameModel {
        if self.can_buy(amount) {
            GameModel {
                cash: self.cash - self.cost(amount),
                inventory: self.inventory + amount,
                ..self
            }
        } else {
            self
        }
    }

    /// The state after selling `amount` units: all of it, or nothing.
    pub open spec fn sell(self, amount: int) -> GameModel {
        if self.can_sell(amount) {
            GameModel {
                cash: self.cash + self.cost(amount),
                inventory: self.inventory - amount,
                ..self
            }
        } else {
            self
        }
    }

    /// The state on the next day, when the market has set the price to `price`.
    pub open spec fn advance_day(self, price: int) -> GameModel {
        GameModel { day: self.day + 1, unit_price: price, ..self }
    }

    /// Every field can be held in an `i32`.
    pub open spec fn fits(self) -> bool {
        i32::MIN <= self.cash <= i32::MAX
            && i32::MIN <= self.debt <= i32::MAX
            && i32::MIN <= self.inventory <= i32::MAX
            && i32::MIN <= self.unit_price <= i32::MAX
            && i32::MIN <= self.day <= i32::MAX
    }

    /// The invariant of a session: nothing held is negative, no purchase has
    /// overdrawn the cash, prices are not negative and days count from one.
    pub open spec fn wf(self) -> bool {
        self.cash >= 0 && self.inventory >= 0 && self.unit_price >= 0 && self.day >= 1
    }
}

/// The lowest price the market sets on a new day.
pub const MIN_PRICE: i32 = 1000;

/// The highest price the market sets on a new day.
pub const MAX_PRICE: i32 = 5000;

/// A product of two `i32` values lies well inside the range of an `i64`.
proof fn lemma_product_fits(a: i32, b: i32)
    ensures
        -0x4000_0000_0000_0000 <= a as int * b as int <= 0x4000_0000_0000_0000,
{
    let (x, y) = (a as int, b as int);
    assert(-0x4000_0000_0000_0000 <= x * y <= 0x4000_0000_0000_0000) by (nonlinear_arith)
        requires
            -0x8000_0000 <= x <= 0x7fff_ffff,
            -0x8000_0000 <= y <= 0x7fff_ffff,
    ;
}

/// Relies on rand's `thread_rng().gen_range(low..=high)`, which returns a value of
/// the inclusive range and panics only on an empty one.
#[verifier::external_body]
fn random_in_range(low: i32, high: i32) -> (r: i32)
    requires
        low <= high,
    ensures
        low <= r <= high,
{
    rand::thread_rng().gen_range(low..=high)
}

/// The state of a session.
#[derive(Clone, Copy, Debug, PartialEq, Eq, Structural)]
pub struct App {
    pub cash: i32,
    /// Kept for mechanics to come: no operation reads or changes it.
    pub debt: i32,
    pub drugs: i32,
    pub drug_price: i32,
    pub day: i32,
}

impl View for App {
    type V = GameModel;

    open spec fn view(&self) -> GameModel {
        GameModel {
            cash: self.cash as int,
            debt: self.debt as int,
            inventory: self.drugs as int,
            unit_price: self.drug_price as int,
            day: self.day as int,
        }
    }
}

impl App {
    /// The state at the start of a session.
    pub open spec fn initial() -> GameModel {
        GameModel { cash: 2000, debt: 5000, inventory: 0, unit_price: 0, day: 1 }
    }

    /// Starts a session: 2000 in cash, 5000 in debt, nothing held, no price set
    /// yet, day one.
    pub fn new() -> (r: App)
        ensures
            r@ == App::initial(),
            r@.wf(),
    {
        App { cash: 2000, debt: 5000, drugs: 0, drug_price: 0, day: 1 }
    }

    /// Buys `amount` units at the current price if the cash covers all of them,
    /// and leaves the state as it was otherwise.
    pub fn buy_drugs(&mut self, amount: i32)
        requires
            amount >= 0,
            old(self)@.buy(amount as int).fits(),
        ensures
            final(self)@ == old(self)@.buy(amount as int),
            old(self)@.wf() ==> final(self)@.wf(),
    {
        proof {
            lemma_product_fits(amount, self.drug_price);
        }
        let cost: i64 = (amount as i64) * (self.drug_price as i64);
        if cost <= self.cash as i64 {
            self.cash = (self.cash as i64 - cost) as i32;
            self.drugs = self.drugs + amount;
        }
    }

    /// Sells `amount` units at the current price if that many are held, and
    /// leaves the state as it was otherwise.
    pub fn sell_drugs(&mut self, amount: i32)
        requires
            amount >= 0,
            old(self)@.sell(amount as int).fits(),
        ensures
            final(self)@ == old(self)@.sell(amount as int),
            old(self)@.wf() ==> final(self)@.wf(),
    {
        if amount <= self.drugs {
            proof {
                lemma_product_fits(amount, self.drug_price);
            }
            let profit: i64 = (amount as i64) * (self.drug_price as i64);
            self.cash = (self.cash as i64 + profit) as i32;
            self.drugs = self.drugs - amount;
        }
    }

    /// Whether `buy_drugs(amount)` leaves a state whose fields fit their types.
    pub fn buy_fits(&self, amount: i32) -> (r: bool)
        requires
            amount >= 0,
        ensures
            r == self@.buy(amount as int).fits(),
    {
        proof {
            lemma_product_fits(amount, self.drug_price);
        }
        let cost: i64 = (amount as i64) * (self.drug_price as i64);
        if cost <= self.cash as i64 {
            let cash: i64 = self.cash as i64 - cost;
            i32::MIN as i64 <= cash && cash <= i32::MAX as i64 && self.drugs as i64 + amount as i64
                <= i32::MAX as i64
        } else {
            true
        }
    }

    /// Whether `sell_drugs(amount)` leaves a state whose fields fit their types.
    pub fn sell_fits(&self, amount: i32) -> (r: bool)
        requires
            amount >= 0,
        ensures
            r == self@.sell(amount as int).fits(),
    {
        if amount <= self.drugs {
            proof {
                lemma_product_fits(amount, self.drug_price);
            }
            let cash: i64 = self.cash as i64 + (amount as i64) * (self.drug_price as i64);
            i32::MIN as i64 <= cash && cash <= i32::MAX as i64
        } else {
            true
        }
    }

    /// Moves to the next day, on which the market sets the price to `price`.
    pub fn next_day_at_price(&mut self, price: i32)
        requires
            old(self).day < i32::MAX,
            MIN_PRICE <= price <= MAX_PRICE,
        ensures
            final(self)@ == old(self)@.advance_day(price as int),
            old(self)@.wf() ==> final(self)@.wf(),
    {
        self.day = self.day + 1;
        self.drug_price = price;
    }

    /// Moves to the next day, on which the market sets a new price drawn at
    /// random from `MIN_PRICE..=MAX_PRICE`.
    pub fn next_day(&mut self)
        requires
            old(self).day < i32::MAX,
        ensures
            final(self)@ == old(self)@.advance_day(final(self).drug_price as int),
            MIN_PRICE <= final(self).drug_price <= MAX_PRICE,
            old(self)@.wf() ==> final(self)@.wf(),
    {
        let price = random_in_range(MIN_PRICE, MAX_PRICE);
        self.next_day_at_price(price);
    }
}

} // verus!
