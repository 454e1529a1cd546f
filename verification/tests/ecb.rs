use konto::amount::Amount;
use konto::ecb_rate_service::parse_ecb_feed;
use rust_decimal::Decimal;

// A trimmed real sample of https://www.ecb.europa.eu/stats/eurofxref/eurofxref-daily.xml
const SAMPLE: &str = r#"<?xml version="1.0" encoding="UTF-8"?>
<gesmes:Envelope xmlns:gesmes="http://www.gesmes.org/xml/2002-08-01" xmlns="http://www.ecb.int/vocabulary/2002-08-01/eurofxref">
	<gesmes:subject>Reference rates</gesmes:subject>
	<gesmes:Sender>
		<gesmes:name>European Central Bank</gesmes:name>
	</gesmes:Sender>
	<Cube>
		<Cube time='2026-07-15'>
			<Cube currency='USD' rate='1.1406'/>
			<Cube currency='CHF' rate='0.9256'/>
			<Cube currency='GBP' rate='0.85093'/>
		</Cube>
	</Cube>
</gesmes:Envelope>"#;

fn dec(a: Amount) -> Decimal {
    Decimal::from_i128_with_scale(a.mantissa, a.scale)
}

fn get(rates: &[(String, Amount)], k: &str) -> Option<Decimal> {
    rates.iter().find(|(c, _)| c == k).map(|(_, a)| dec(*a))
}

#[test]
fn parses_date_and_rates() {
    let (date, rates) = parse_ecb_feed(SAMPLE).ok().expect("should parse");
    assert_eq!(date, (2026, 7, 15));
    assert_eq!(get(&rates, "EUR"), Some(Decimal::ONE));
    assert_eq!(get(&rates, "USD"), Some("1.1406".parse().unwrap()));
    assert_eq!(get(&rates, "CHF"), Some("0.9256".parse().unwrap()));
    assert_eq!(get(&rates, "GBP"), Some("0.85093".parse().unwrap()));
}

#[test]
fn cross_rate_eur_to_chf_and_usd_to_chf() {
    let (_, rates) = parse_ecb_feed(SAMPLE).ok().expect("should parse");
    let eur_per_eur = get(&rates, "EUR").unwrap();
    let chf_per_eur = get(&rates, "CHF").unwrap();
    let usd_per_eur = get(&rates, "USD").unwrap();

    // EUR -> CHF: units of CHF per 1 EUR
    let eur_to_chf = chf_per_eur / eur_per_eur;
    assert_eq!(eur_to_chf, "0.9256".parse().unwrap());

    // USD -> CHF: units of CHF per 1 USD
    let usd_to_chf = chf_per_eur / usd_per_eur;
    assert!((usd_to_chf - Decimal::new(8116, 4)).abs() < Decimal::new(1, 3));
}

#[test]
fn ecb_feed_errors() {
    match parse_ecb_feed("<Cube><Cube currency='USD' rate='1.1'/></Cube>") {
        Err(konto::error::AppError::Validation(m)) => assert_eq!(m, "ECB feed missing rate date"),
        _ => panic!(),
    }
    match parse_ecb_feed("<Cube></Other>") {
        Err(konto::error::AppError::Validation(m)) => assert!(m.starts_with("Invalid ECB feed XML: ")),
        _ => panic!(),
    }
    let (_, rates) = parse_ecb_feed("<Cube time='2026-01-02'><Cube currency='USD' rate='1.1'/><Cube currency='USD' rate='1.2'/></Cube>").ok().unwrap();
    assert_eq!(rates.len(), 2);
    assert_eq!(get(&rates, "USD"), Some("1.2".parse().unwrap()));
}
