use drug_wars::game::{App, MAX_PRICE, MIN_PRICE};
use drug_wars::input::{command_for_key, Command};

fn state(cash: i32, drugs: i32, drug_price: i32) -> App {
    App { cash, debt: 5000, drugs, drug_price, day: 1 }
}

#[test]
fn new_session_starts_with_fixed_values() {
    let app = App::new();
    assert_eq!(app, App { cash: 2000, debt: 5000, drugs: 0, drug_price: 0, day: 1 });
}

#[test]
fn buy_five_at_one_hundred() {
    let mut app = state(2000, 0, 100);
    app.buy_drugs(5);
    assert_eq!(app.cash, 1500);
    assert_eq!(app.drugs, 5);
}

#[test]
fn sell_five_at_one_hundred() {
    let mut app = state(1500, 5, 100);
    app.sell_drugs(5);
    assert_eq!(app.cash, 2000);
    assert_eq!(app.drugs, 0);
}

#[test]
fn unaffordable_buy_is_rejected() {
    let mut app = state(100, 0, 200);
    let before = app;
    app.buy_drugs(1);
    assert_eq!(app, before);
}

#[test]
fn selling_more_than_held_is_rejected() {
    let mut app = state(2000, 0, 100);
    let before = app;
    app.sell_drugs(1);
    assert_eq!(app, before);
}

#[test]
fn buy_spending_all_cash_is_accepted() {
    let mut app = state(600, 2, 200);
    app.buy_drugs(3);
    assert_eq!(app.cash, 0);
    assert_eq!(app.drugs, 5);
}

#[test]
fn sell_of_whole_inventory_is_accepted() {
    let mut app = state(10, 3, 1234);
    app.sell_drugs(3);
    assert_eq!(app.cash, 3712);
    assert_eq!(app.drugs, 0);
}

#[test]
fn next_day_moves_one_day_and_sets_price_in_range() {
    let mut app = App::new();
    app.next_day();
    assert_eq!(app.day, 2);
    assert!(MIN_PRICE <= app.drug_price && app.drug_price <= MAX_PRICE);
    assert_eq!((app.cash, app.debt, app.drugs), (2000, 5000, 0));
}

#[test]
fn next_day_price_stays_in_range_over_many_days() {
    let mut app = App::new();
    for d in 2..200 {
        app.next_day();
        assert_eq!(app.day, d);
        assert!(1000 <= app.drug_price && app.drug_price <= 5000);
    }
}

#[test]
fn next_day_at_given_price() {
    let mut app = state(2000, 4, 100);
    app.next_day_at_price(3210);
    assert_eq!(app.day, 2);
    assert_eq!(app.drug_price, 3210);
    assert_eq!(app.drugs, 4);
}

#[test]
fn zero_trades_change_nothing() {
    for app in [state(2000, 0, 100), state(0, 7, 4000), state(50, 3, 0)] {
        let mut a = app;
        a.buy_drugs(0);
        assert_eq!(a, app);
        a.sell_drugs(0);
        assert_eq!(a, app);
    }
}

#[test]
fn inventory_stays_non_negative_over_trades() {
    let mut app = state(5000, 0, 300);
    let steps: [(bool, i32); 8] =
        [(true, 4), (false, 6), (false, 3), (true, 20), (false, 1), (false, 1), (false, 5), (true, 2)];
    for (buy, amount) in steps {
        if buy {
            app.buy_drugs(amount);
        } else {
            app.sell_drugs(amount);
        }
        assert!(app.drugs >= 0);
        assert!(app.cash >= 0);
    }
    assert_eq!(app.drugs, 2);
    assert_eq!(app.cash, 5000 - 4 * 300 + 3 * 300 + 300 - 2 * 300);
}

#[test]
fn free_goods_can_be_taken_at_price_zero() {
    let mut app = App::new();
    app.buy_drugs(10);
    assert_eq!(app.cash, 2000);
    assert_eq!(app.drugs, 10);
}

#[test]
fn overflow_checks() {
    let app = state(i32::MAX, 0, 1);
    assert!(app.buy_fits(5));
    let app = state(i32::MAX - 1, 1, 2);
    assert!(!app.sell_fits(1));
    assert!(app.sell_fits(2));
    let app = state(10, i32::MAX, 0);
    assert!(!app.buy_fits(1));
    assert!(app.buy_fits(0));
    let app = state(10, 0, 20);
    assert!(app.buy_fits(i32::MAX));
}

#[test]
fn keys_map_to_commands() {
    assert_eq!(command_for_key('q'), Command::Quit);
    assert_eq!(command_for_key('b'), Command::Buy);
    assert_eq!(command_for_key('s'), Command::Sell);
    assert_eq!(command_for_key('n'), Command::NextDay);
    assert_eq!(command_for_key('x'), Command::Ignore);
    assert_eq!(command_for_key('B'), Command::Ignore);
}

#[test]
fn handle_dispatches_commands() {
    let mut app = state(2000, 0, 100);
    assert!(app.can_handle(Command::Buy));
    assert!(app.handle(Command::Buy));
    assert_eq!((app.cash, app.drugs), (1900, 1));
    assert!(app.handle(Command::Sell));
    assert_eq!((app.cash, app.drugs), (2000, 0));
    let before = app;
    assert!(app.handle(Command::Ignore));
    assert_eq!(app, before);
    assert!(app.handle(Command::NextDay));
    assert_eq!(app.day, 2);
    assert!(1000 <= app.drug_price && app.drug_price <= 5000);
    let before = app;
    assert!(!app.handle(Command::Quit));
    assert_eq!(app, before);
}

#[test]
fn cannot_handle_next_day_at_last_day() {
    let app = App { cash: 0, debt: 0, drugs: 0, drug_price: 0, day: i32::MAX };
    assert!(!app.can_handle(Command::NextDay));
    assert!(app.can_handle(Command::Quit));
}
