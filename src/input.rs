use crate::game::{App, GameModel, MAX_PRICE, MIN_PRICE};
use vstd::prelude::*;

verus! {

/// What a key press asks of a session.
#[derive(Clone, Copy, Debug, PartialEq, Eq, Structural)]
pub enum Command {
    Quit,
    Buy,
    Sell,
    NextDay,
    Ignore,
}

/// The command bound to a key: `q` quits, `b` buys one unit, `s` sells one unit,
/// `n` moves to the next day, and every other key does nothing.
pub open spec fn command_of(key: char) -> Command {
    if key == 'q' {
        Command::Quit
    } else if key == 'b' {
        Command::Buy
    } else if key == 's' {
        Command::Sell
    } else if key == 'n' {
        Command::NextDay
    } else {
        Command::Ignore
    }
}

pub fn command_for_key(key: char) -> (r: Command)
    ensures
        r == command_of(key),
{
    match key {
        'q' => Command::Quit,
        'b' => Command::Buy,
        's' => Command::Sell,
        'n' => Command::NextDay,
        _ => Command::Ignore,
    }
}

impl App {
    /// Whether the state reached by `cmd` can be held in the session's fields.
    pub open spec fn can_handle_spec(m: GameModel, cmd: Command) -> bool {
        match cmd {
            Command::Buy => m.buy(1).fits(),
            Command::Sell => m.sell(1).fits(),
            Command::NextDay => m.day < i32::MAX,
            _ => true,
        }
    }

    pub fn can_handle(&self, cmd: Command) -> (r: bool)
        ensures
            r == App::can_handle_spec(self@, cmd),
    {
        match cmd {
            Command::Buy => self.buy_fits(1),
            Command::Sell => self.sell_fits(1),
            Command::NextDay => self.day < i32::MAX,
            _ => true,
        }
    }

    /// Carries out `cmd` and tells whether the session goes on.
    pub fn handle(&mut self, cmd: Command) -> (running: bool)
        requires
            App::can_handle_spec(old(self)@, cmd),
        ensures
            running == (cmd != Command::Quit),
            old(self)@.wf() ==> final(self)@.wf(),
            match cmd {
                Command::Buy => final(self)@ == old(self)@.buy(1),
                Command::Sell => final(self)@ == old(self)@.sell(1),
                Command::NextDay => final(self)@ == old(self)@.advance_day(
                    final(self).drug_price as int,
                ) && MIN_PRICE <= final(self).drug_price <= MAX_PRICE,
                _ => *final(self) == *old(self),
            },
    {
        match cmd {
            Command::Quit => false,
            Command::Buy => {
                self.buy_drugs(1);
                true
            },
            Command::Sell => {
                self.sell_drugs(1);
                true
            },
            Command::NextDay => {
                self.next_day();
                true
            },
            Command::Ignore => true,
        }
    }
}

} // verus!
