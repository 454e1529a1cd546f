//! Invoice lines: the line total after discount, its VAT, the account it
//! is booked to, and the invoice's totals.
use vstd::prelude::*;

use crate::amount::{dec_checked_add, dec_checked_div, dec_checked_mul, dec_checked_sub, Amount};
use crate::document_service::{language_choice, opt_view, resolve_document_language};
use crate::date::{before, date_lt};
use crate::error::{AppError, ErrorKind};
use crate::fiscal_year::di;
use crate::numeric::{int_text, push_digits};
use crate::text::{push_str, str_eq, string_of};

verus! {

/// The invoice service: the computations of an invoice's lines.
pub struct InvoiceService;

/// A computed invoice line.
pub struct ComputedLine {
    pub line_total: Amount,
    pub vat_amount: Amount,
    pub discount_percent: Option<Amount>,
    pub account_id: String,
}

/// `quantity * price`, less the discount in percent where there is one:
/// `gross * (1 - discount / 100)`.
pub open spec fn line_total_of(quantity: (int, nat), price: (int, nat), discount: Option<(int, nat)>) -> Option<
    (int, nat),
> {
    match dec_checked_mul(quantity, price) {
        None => None,
        Some(gross) => match discount {
            None => Some(gross),
            Some(d) => match dec_checked_div(d, (100int, 0nat)) {
                None => None,
                Some(f) => match dec_checked_sub((1int, 0nat), f) {
                    None => None,
                    Some(keep) => dec_checked_mul(gross, keep),
                },
            },
        },
    }
}

/// The VAT of a line: `line_total * rate / 100`, zero without a rate.
pub open spec fn vat_of(line_total: (int, nat), rate: Option<(int, nat)>) -> Option<(int, nat)> {
    match rate {
        None => Some((0int, 0nat)),
        Some(r) => match dec_checked_mul(line_total, r) {
            Some(p) => dec_checked_div(p, (100int, 0nat)),
            None => None,
        },
    }
}

/// The subtotal (lines), VAT and total of the first `k` computed lines,
/// from zero up.
pub open spec fn invoice_totals(lines: Seq<((int, nat), (int, nat))>, k: int) -> Option<
    ((int, nat), (int, nat)),
>
    decreases k,
{
    if k <= 0 {
        Some(((0int, 0nat), (0int, 0nat)))
    } else {
        match invoice_totals(lines, k - 1) {
            None => None,
            Some((s, v)) => match (dec_checked_add(s, lines[k - 1].0), dec_checked_add(v, lines[k - 1].1)) {
                (Some(a), Some(b)) => Some((a, b)),
                _ => None,
            },
        }
    }
}

pub open spec fn opt_amount(a: Option<Amount>) -> Option<(int, nat)> {
    match a {
        Some(x) => Some(x@),
        None => None,
    }
}

impl InvoiceService {
    /// The total and VAT of a line (see `line_total_of` and `vat_of`);
    /// `None` where `Decimal` arithmetic overflows.
    pub fn line_amounts(
        quantity: Amount,
        unit_price: Amount,
        discount_percent: Option<Amount>,
        vat_rate: Option<Amount>,
    ) -> (r: Option<(Amount, Amount)>)
        requires
            quantity.wf(),
            unit_price.wf(),
            discount_percent matches Some(d) ==> d.wf(),
            vat_rate matches Some(v) ==> v.wf(),
        ensures
            match line_total_of(quantity@, unit_price@, opt_amount(discount_percent)) {
                None => r is None,
                Some(t) => match vat_of(t, opt_amount(vat_rate)) {
                    None => r is None,
                    Some(v) => r matches Some((a, b)) && a@ == t && b@ == v && a.wf() && b.wf(),
                },
            },
    {
        let gross = match quantity.checked_mul(unit_price) {
            Some(g) => g,
            None => return None,
        };
        let total = match discount_percent {
            None => gross,
            Some(d) => {
                let f = match d.checked_div(Amount::from_int(100)) {
                    Some(f) => f,
                    None => return None,
                };
                let keep = match Amount::from_int(1).checked_sub(f) {
                    Some(k) => k,
                    None => return None,
                };
                match gross.checked_mul(keep) {
                    Some(t) => t,
                    None => return None,
                }
            },
        };
        let vat = match vat_rate {
            None => Amount::zero(),
            Some(rate) => {
                let p = match total.checked_mul(rate) {
                    Some(p) => p,
                    None => return None,
                };
                match p.checked_div(Amount::from_int(100)) {
                    Some(v) => v,
                    None => return None,
                }
            },
        };
        Some((total, vat))
    }

    /// The account of a line: its own where it names one, else the default
    /// revenue account, which must then be configured.
    pub fn resolve_account(account_id: Option<String>, revenue_default: Option<String>) -> (r: Result<
        String,
        AppError,
    >)
        ensures
            match account_id {
                Some(a) => if a@.len() > 0 {
                    r matches Ok(s) && s@ == a@
                } else {
                    match revenue_default {
                        Some(d) => r matches Ok(s) && s@ == d@,
                        None => r matches Err(e) && e.kind_and_message() == (
                            ErrorKind::Validation,
                            "No account selected and no default revenue account configured"@,
                        ),
                    }
                },
                None => match revenue_default {
                    Some(d) => r matches Ok(s) && s@ == d@,
                    None => r matches Err(e) && e.kind_and_message() == (
                        ErrorKind::Validation,
                        "No account selected and no default revenue account configured"@,
                    ),
                },
            },
    {
        if let Some(a) = account_id {
            if a.as_str().unicode_len() > 0 {
                return Ok(a);
            }
        }
        match revenue_default {
            Some(d) => Ok(d),
            None => Err(
                AppError::Validation(
                    "No account selected and no default revenue account configured".to_owned(),
                ),
            ),
        }
    }

    /// The totals of the computed lines: subtotal, VAT and their sum.
    pub fn totals(lines: &Vec<ComputedLine>) -> (r: Option<(Amount, Amount, Amount)>)
        requires
            forall|i: int|
                0 <= i < lines.len() ==> (#[trigger] lines[i]).line_total.wf()
                    && lines[i].vat_amount.wf(),
        ensures
            match invoice_totals(
                lines@.map_values(|l: ComputedLine| (l.line_total@, l.vat_amount@)),
                lines.len() as int,
            ) {
                None => r is None,
                Some((s, v)) => match dec_checked_add(s, v) {
                    None => r is None,
                    Some(t) => r matches Some((a, b, c)) && a@ == s && b@ == v && c@ == t,
                },
            },
    {
        let ghost lv = lines@.map_values(|l: ComputedLine| (l.line_total@, l.vat_amount@));
        let mut sub = Amount::zero();
        let mut vat = Amount::zero();
        let mut i: usize = 0;
        while i < lines.len()
            invariant
                i <= lines.len(),
                lv == lines@.map_values(|l: ComputedLine| (l.line_total@, l.vat_amount@)),
                forall|j: int|
                    0 <= j < lines.len() ==> (#[trigger] lines[j]).line_total.wf()
                        && lines[j].vat_amount.wf(),
                sub.wf(),
                vat.wf(),
                invoice_totals(lv, i as int) == Some((sub@, vat@)),
            decreases lines.len() - i,
        {
            assert(lv[i as int] == (lines@[i as int].line_total@, lines@[i as int].vat_amount@));
            let a = sub.checked_add(lines[i].line_total);
            let b = vat.checked_add(lines[i].vat_amount);
            match (a, b) {
                (Some(x), Some(y)) => {
                    sub = x;
                    vat = y;
                },
                _ => {
                    proof {
                        lemma_totals_none_extends(lv, i as int + 1);
                    }
                    return None;
                },
            }
            i = i + 1;
        }
        match sub.checked_add(vat) {
            Some(t) => Some((sub, vat, t)),
            None => None,
        }
    }

    /// The error of a line naming an unknown VAT rate.
    pub fn vat_rate_not_found(id: &str) -> (r: AppError)
        ensures
            r.kind_and_message() == (ErrorKind::NotFound, "VAT rate "@ + id@ + " not found"@),
    {
        let mut m = "VAT rate ".to_owned();
        m.append(id);
        m.append(" not found");
        AppError::NotFound(m)
    }

    /// The error of a line booked to an unknown account.
    pub fn account_not_found(id: &str) -> (r: AppError)
        ensures
            r.kind_and_message() == (ErrorKind::NotFound, "Account "@ + id@ + " not found"@),
    {
        let mut m = "Account ".to_owned();
        m.append(id);
        m.append(" not found");
        AppError::NotFound(m)
    }
}

pub(crate) proof fn lemma_totals_none_extends(lines: Seq<((int, nat), (int, nat))>, k: int)
    requires
        0 <= k <= lines.len(),
        invoice_totals(lines, k) is None,
    ensures
        invoice_totals(lines, lines.len() as int) is None,
    decreases lines.len() - k,
{
    if k < lines.len() {
        lemma_totals_none_extends(lines, k + 1);
    }
}

/// The language of an invoice: the explicitly requested one, else the
/// project's, else the contact's, else the interface language of the
/// settings, else English, as for a document.
pub fn resolve_invoice_language(
    explicit_language: Option<&str>,
    project_language: Option<&str>,
    contact_language: Option<&str>,
    settings_ui_language: Option<&str>,
) -> (r: String)
    ensures
        r@ == language_choice(
            opt_view(explicit_language),
            opt_view(project_language),
            opt_view(contact_language),
            opt_view(settings_ui_language),
        ),
{
    resolve_document_language(
        explicit_language,
        project_language,
        contact_language,
        settings_ui_language,
    )
}

/// A line of an invoice as entered.
pub struct LineInput {
    pub description: String,
    pub quantity: Amount,
    pub unit_price: Amount,
    pub vat_rate_id: Option<String>,
    pub account_id: Option<String>,
    pub discount_percent: Option<Amount>,
}

impl LineInput {
    /// The amounts of the line are valid decimals.
    pub open spec fn wf(&self) -> bool {
        &&& self.quantity.wf()
        &&& self.unit_price.wf()
        &&& (self.discount_percent matches Some(d) ==> d.wf())
    }
}

/// The first line from `k` on that the input checks refuse: its index,
/// and whether its quantity (rather than its unit price) is at fault. A
/// line is refused for a quantity that is not positive, then for a
/// negative unit price.
pub open spec fn first_bad_line(lines: Seq<LineInput>, k: int) -> Option<(int, bool)>
    decreases lines.len() - k,
{
    if k < 0 || k >= lines.len() {
        None
    } else if lines[k].quantity.value() <= 0 {
        Some((k, true))
    } else if lines[k].unit_price.value() < 0 {
        Some((k, false))
    } else {
        first_bad_line(lines, k + 1)
    }
}

/// The refusal of the line at index `i`, counted from 1 in the text.
pub open spec fn line_refusal(i: int, quantity: bool) -> Seq<char> {
    "Line "@ + int_text(i + 1) + if quantity {
        ": quantity must be greater than 0"@
    } else {
        ": unit price cannot be negative"@
    }
}

/// Why the input of an invoice is refused, if it is: without lines; for a
/// due date before the issue date; else for its first bad line.
pub open spec fn invoice_input_refusal(
    issue_date: (int, int, int),
    due_date: (int, int, int),
    lines: Seq<LineInput>,
) -> Option<Seq<char>> {
    if lines.len() == 0 {
        Some("At least one line is required"@)
    } else if date_lt(due_date, issue_date) {
        Some("Due date must be on or after issue date"@)
    } else {
        match first_bad_line(lines, 0) {
            Some((i, q)) => Some(line_refusal(i, q)),
            None => None,
        }
    }
}

impl InvoiceService {
    fn line_error(i: usize, quantity: bool) -> (r: AppError)
        requires
            i < usize::MAX,
        ensures
            r.kind_and_message() == (ErrorKind::Validation, line_refusal(i as int, quantity)),
    {
        let mut out: Vec<char> = Vec::new();
        push_str(&mut out, "Line ");
        push_digits(&mut out, i as u64 + 1);
        if quantity {
            push_str(&mut out, ": quantity must be greater than 0");
        } else {
            push_str(&mut out, ": unit price cannot be negative");
        }
        AppError::Validation(string_of(&out))
    }

    /// The checks on the input of a new invoice (see
    /// `invoice_input_refusal`), in the order they run.
    pub fn check_input(
        issue_date: (i32, u32, u32),
        due_date: (i32, u32, u32),
        lines: &Vec<LineInput>,
    ) -> (r: Result<(), AppError>)
        requires
            forall|i: int| 0 <= i < lines@.len() ==> (#[trigger] lines@[i]).wf(),
        ensures
            match invoice_input_refusal(di(issue_date), di(due_date), lines@) {
                None => r is Ok,
                Some(m) => r matches Err(e) && e.kind_and_message() == (ErrorKind::Validation, m),
            },
    {
        if lines.len() == 0 {
            return Err(AppError::Validation("At least one line is required".to_owned()));
        }
        if before(due_date, issue_date) {
            return Err(AppError::Validation("Due date must be on or after issue date".to_owned()));
        }
        let mut i: usize = 0;
        while i < lines.len()
            invariant
                i <= lines@.len(),
                lines@.len() > 0,
                !date_lt(di(due_date), di(issue_date)),
                forall|k: int| 0 <= k < lines@.len() ==> (#[trigger] lines@[k]).wf(),
                first_bad_line(lines@, 0) == first_bad_line(lines@, i as int),
            decreases lines.len() - i,
        {
            let line = &lines[i];
            assert(line.wf());
            if !Amount::zero().lt(line.quantity) {
                return Err(Self::line_error(i, true));
            }
            if line.unit_price.lt(Amount::zero()) {
                return Err(Self::line_error(i, false));
            }
            i += 1;
        }
        Ok(())
    }

    /// The checks on the input of an invoice that is updated: only a draft
    /// can be, then as for a new invoice.
    pub fn check_update(
        status: &str,
        issue_date: (i32, u32, u32),
        due_date: (i32, u32, u32),
        lines: &Vec<LineInput>,
    ) -> (r: Result<(), AppError>)
        requires
            forall|i: int| 0 <= i < lines@.len() ==> (#[trigger] lines@[i]).wf(),
        ensures
            status@ != "draft"@ ==> (r matches Err(e) && e.kind_and_message() == (
                ErrorKind::Validation,
                "Only draft invoices can be updated"@,
            )),
            status@ == "draft"@ ==> match invoice_input_refusal(di(issue_date), di(due_date), lines@) {
                None => r is Ok,
                Some(m) => r matches Err(e) && e.kind_and_message() == (ErrorKind::Validation, m),
            },
    {
        if !str_eq(status, "draft") {
            return Err(AppError::Validation("Only draft invoices can be updated".to_owned()));
        }
        Self::check_input(issue_date, due_date, lines)
    }

    /// Only a draft invoice can be deleted.
    pub fn check_deletable(status: &str) -> (r: Result<(), AppError>)
        ensures
            status@ == "draft"@ ==> r is Ok,
            status@ != "draft"@ ==> (r matches Err(e) && e.kind_and_message() == (
                ErrorKind::Validation,
                "Only draft invoices can be deleted"@,
            )),
    {
        if str_eq(status, "draft") {
            Ok(())
        } else {
            Err(AppError::Validation("Only draft invoices can be deleted".to_owned()))
        }
    }
}

} // verus!
