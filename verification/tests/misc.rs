use std::collections::HashMap;

use konto::amount::Amount;
use konto::ch_account_groups::{ch_balance_sheet_assets, ch_balance_sheet_liabilities, ch_income_statement_sections};
use konto::config::AppConfig;
use konto::email_template_service::{render_template, render_with_variables};
use konto::employee_service::EmployeeService;
use konto::employee_user_link::{EmployeeUserLinkService, PASSWORD_CHARSET};
use konto::error::AppError;
use konto::language::{normalize_language, normalize_or_default};
use konto::templates::replace;
use konto::types::Money;

#[test]
fn answers_hide_internal_messages() {
    let (s, t, m) = AppError::Database("secret".into()).response_parts();
    assert_eq!((s, t.as_str(), m.as_str()), (500, "database_error", "An internal error occurred"));
    let (s, t, m) = AppError::Validation("bad date".into()).response_parts();
    assert_eq!((s, t.as_str(), m.as_str()), (400, "bad_request", "bad date"));
    let (s, _, _) = AppError::Conflict("x".into()).response_parts();
    assert_eq!(s, 409);
    assert_eq!(AppError::NotFound("User".into()).to_string(), "Not found: User");
}

#[test]
fn configuration_defaults() {
    let c = AppConfig::from_env_values(None, None, "rnd".into(), Some("60".into()), Some("x".into()), None, Some("8080".into()), None);
    assert_eq!(c.database_url, "sqlite:./hope.db?mode=rwc");
    assert_eq!(c.jwt_secret, "rnd");
    assert_eq!(c.jwt_access_expires_secs, 60);
    assert_eq!(c.jwt_refresh_expires_secs, 604800);
    assert_eq!(c.server_host, "0.0.0.0");
    assert_eq!(c.server_port, 8080);
    assert_eq!(c.cors_origin, "http://localhost:5173");
    let c = AppConfig::from_env_values(Some("db".into()), Some("s".into()), "r".into(), None, None, Some("h".into()), Some("70000".into()), Some("o".into()));
    assert_eq!(c.server_port, 3000);
    assert_eq!(c.jwt_secret, "s");
    assert_eq!(c.jwt_access_expires_secs, 900);
}

#[test]
fn languages() {
    assert_eq!(normalize_language(Some(" de-CH ")), Some("de".to_string()));
    assert_eq!(normalize_language(Some("Français")), Some("fr".to_string()));
    assert_eq!(normalize_language(Some("it_IT")), Some("it".to_string()));
    assert_eq!(normalize_language(Some("   ")), None);
    assert_eq!(normalize_language(None), None);
    assert_eq!(normalize_or_default(Some("xx"), "de"), "de");
    assert_eq!(normalize_or_default(None, "zz"), "en");
    assert_eq!(normalize_language(Some("de")), Some("de".to_string()));
}

#[test]
fn templates_replace_every_occurrence() {
    assert_eq!(replace("a{{x}}b{{x}}", "{{x}}", "1"), "a1b1");
    let mut vars = HashMap::new();
    vars.insert("name".to_string(), "Anna".to_string());
    assert_eq!(render_template("Hi {{name}}, {{other}}", &vars), "Hi Anna, {{other}}");
    assert_eq!(render_with_variables("{{a}}{{b}}", &vec![("a".into(), "1".into()), ("b".into(), "2".into())]), "12");
}

#[test]
fn ahv_numbers() {
    assert!(EmployeeService::validate_ahv("756.1234.5678.97").is_ok());
    assert!(EmployeeService::validate_ahv("123.4567.8901.23").is_err());
    assert!(EmployeeService::validate_ahv("123").is_err());
}

#[test]
fn account_groups_are_listed() {
    assert!(!ch_balance_sheet_assets().is_empty());
    assert!(!ch_balance_sheet_liabilities().is_empty());
    assert!(!ch_income_statement_sections().is_empty());
}

#[test]
fn temporary_passwords() {
    let p = EmployeeUserLinkService::generate_temp_password();
    assert_eq!(p.chars().count(), 16);
    assert!(p.chars().all(|c| PASSWORD_CHARSET.contains(c)));
    assert_eq!(EmployeeUserLinkService::password_from_indices(&vec![0, 58, 24]), "A$a");
    assert_eq!(EmployeeUserLinkService::user_full_name("Anna", "Muster"), "Anna Muster");
    match EmployeeUserLinkService::provision_email(None) {
        Err(AppError::BadRequest(m)) => assert_eq!(m, "Employee must have an email to create a user account"),
        _ => panic!(),
    }
}

#[test]
fn money_is_rounded_to_cents() {
    let m = Money::new(Amount::new(10555, 3));
    assert_eq!((m.0.mantissa, m.0.scale), (1056, 2));
    assert_eq!(Money::new(Amount::new(12345, 1)).to_string(), "1234.50");
    assert_eq!(Money::zero().inner().mantissa, 0);
    assert_eq!(Money::new(Amount::new(10565, 3)).0.mantissa, 1056);
}
