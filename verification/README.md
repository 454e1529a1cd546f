# konto

The bookkeeping rules of a Swiss accounting backend, written in Verus with
their contracts proved: journal entries and their reversal, fiscal years and
closing, dunning, depreciation, payroll and the annual salary certificate,
currency transfers and invoice payments with exchange differences, the
cash-flow statement, bank statement import (camt.053) and reconciliation,
pain.001 payment files, CSV and spreadsheet imports, Markdown rendering and
access rules.

Layout:

- `src/` is the verified library. Amounts are decimals held as mantissa and
  scale; the arithmetic itself is done by `rust_decimal` behind a few trusted
  wrappers in `src/amount.rs`, whose contracts say what the results are.
  Other outside calls (`csv`, `chrono`, `quick-xml`, `serde_json`, `rand`)
  sit behind trusted wrappers in the module that uses them.
- `tests/` runs the library on concrete values.
- `app/` is the unverified part around it: HTTP error responses, JWT
  encoding, configuration from the environment, spreadsheet reading, and
  conversions between the library's amounts and `Decimal`.

Verify with Verus on `src/lib.rs`; the tests run with `cargo test`.
