use konto::amount::Amount;
use konto::currency_exchange::{CurrencyExchangeService, FxResult};
use konto::error::AppError;

#[test]
fn transfer_checks() {
    let one = Amount::from_int(1);
    match CurrencyExchangeService::check_transfer("a", "b", Amount::zero(), one) {
        Err(AppError::Validation(m)) => assert_eq!(m, "Transfer amounts must be positive"),
        _ => panic!(),
    }
    match CurrencyExchangeService::check_transfer("a", "a", one, one) {
        Err(AppError::Validation(m)) => assert_eq!(m, "Source and destination bank account must differ"),
        _ => panic!(),
    }
    assert!(CurrencyExchangeService::check_transfer("a", "b", one, one).is_ok());
    match CurrencyExchangeService::ledger_account(None, false) {
        Err(AppError::Validation(m)) => assert_eq!(m, "Destination bank account has no linked ledger account"),
        _ => panic!(),
    }
}

#[test]
fn book_value_and_gain() {
    // 1000 EUR at an average rate of 0.9512 => 951.20 CHF leave; 960.00 arrive
    let p = CurrencyExchangeService::plan(Amount::from_int(1000), Amount::new(96000, 2), Some(Amount::new(9512, 4))).unwrap();
    assert_eq!((p.book_value_removed.mantissa, p.book_value_removed.scale), (95120, 2));
    assert_eq!((p.difference.mantissa, p.difference.scale), (880, 2));
    match CurrencyExchangeService::fx_result(p.difference) {
        FxResult::Gain(a) => assert_eq!(a.mantissa, 880),
        _ => panic!(),
    }
    let no_rate = CurrencyExchangeService::plan(Amount::from_int(100), Amount::from_int(90), None).unwrap();
    assert_eq!(no_rate.book_value_removed.mantissa, 100);
    match CurrencyExchangeService::fx_result(no_rate.difference) {
        FxResult::Loss(a) => assert_eq!(a.mantissa, 10),
        _ => panic!(),
    }
}

#[test]
fn transfer_entry_lines() {
    let lines = CurrencyExchangeService::transfer_lines("to", "from", Amount::from_int(960), Amount::from_int(951), "X", &FxResult::Gain(Amount::from_int(9)), "gain");
    assert_eq!(lines.len(), 3);
    assert_eq!(lines[2].account_id, "gain");
    assert_eq!(lines[2].credit_amount.mantissa, 9);
    assert_eq!(lines[2].description.as_deref(), Some("Realized FX gain"));
    let even = CurrencyExchangeService::transfer_lines("to", "from", Amount::from_int(1), Amount::from_int(1), "X", &FxResult::Even, "");
    assert_eq!(even.len(), 2);
    assert_eq!(CurrencyExchangeService::fx_account_key(&FxResult::Loss(Amount::zero())), Some("fx_loss_account"));
    assert_eq!(CurrencyExchangeService::description("EUR", "CHF"), "Currency exchange: EUR → CHF");
    match CurrencyExchangeService::missing_fx_account("fx_gain_account") {
        AppError::Validation(m) => assert_eq!(m, "fx_gain_account not configured"),
        _ => panic!(),
    }
}

fn cents(a: Amount) -> i128 {
    // value in hundredths, for amounts of at most two places
    let mut m = a.mantissa;
    let mut s = a.scale;
    while s < 2 {
        m *= 10;
        s += 1;
    }
    assert_eq!(s, 2);
    m
}

#[test]
fn transfer_entry_balances_after_rounding() {
    // 333.33 USD at an average rate of 0.87654 => 292.18 CHF leave; 290.05 arrive
    let from = Amount::new(33333, 2);
    let to = Amount::new(29005, 2);
    let p = CurrencyExchangeService::plan(from, to, Some(Amount::new(87654, 5))).unwrap();
    assert_eq!((p.book_value_removed.mantissa, p.book_value_removed.scale), (29218, 2));
    assert_eq!(cents(p.difference), -213);
    let fx = CurrencyExchangeService::fx_result(p.difference);
    let lines = CurrencyExchangeService::transfer_lines("to", "from", to, p.book_value_removed, "X", &fx, "loss");
    assert_eq!(lines.len(), 3);
    let debits: i128 = lines.iter().map(|l| cents(l.debit_amount)).sum();
    let credits: i128 = lines.iter().map(|l| cents(l.credit_amount)).sum();
    assert_eq!(debits, credits);
    assert_eq!(debits, 29218);
}
