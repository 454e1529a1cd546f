use vstd::prelude::*;

pub mod accounts_csv;
pub mod amount;
pub mod auth;
pub mod auth_service;
pub mod bank_import;
pub mod bank_reconciliation;
pub mod cash_flow;
pub mod cash_flow_monthly;
pub mod cash_flow_report;
pub mod ch_account_groups;
pub mod config;
pub mod contact_service;
pub mod contacts_csv;
pub mod contacts_import;
pub mod credit_note_service;
pub mod csv_table;
pub mod currency_exchange;
pub mod dashboard;
pub mod dashboard_service;
pub mod date;
pub mod depreciation_service;
pub mod document_service;
pub mod dunning_service;
pub mod email_template_service;
pub mod employee_service;
pub mod employee_user_link;
pub mod ecb_rate_service;
pub mod error;
pub mod expense_service;
pub mod fiscal_year;
pub mod fixed_asset_service;
pub mod import_service;
pub mod invoice_service;
pub mod invoice_workflow;
pub mod journal_import;
pub mod journal_service;
pub mod journal_xlsx;
pub mod language;
pub mod lohnausweis;
pub mod markdown;
pub mod numeric;
pub mod pain001;
pub mod payout_service;
pub mod payroll;
pub mod projects_xlsx;
pub mod sheet;
pub mod templates;
pub mod text;
pub mod time_entries_csv;
pub mod types;
