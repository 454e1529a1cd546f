//! Credit notes: the amounts of a credit note's lines and its totals.
use vstd::prelude::*;

use crate::amount::{dec_checked_add, Amount};
use crate::error::{AppError, ErrorKind};
use crate::text::str_eq;
use crate::invoice_service::{
    invoice_totals, lemma_totals_none_extends, line_total_of, opt_amount, vat_of, InvoiceService,
};

verus! {

/// The credit note service: the computations of a credit note.
pub struct CreditNoteService;

/// A line of a credit note as computed: `quantity * unit_price`, with the
/// VAT rate of the line's VAT code where it has one (looked up by the
/// caller).
pub struct CreditNoteLineInput {
    pub quantity: Amount,
    pub unit_price: Amount,
    pub vat_rate: Option<Amount>,
}

impl CreditNoteLineInput {
    pub open spec fn wf(&self) -> bool {
        &&& self.quantity.wf()
        &&& self.unit_price.wf()
        &&& self.vat_rate matches Some(r) ==> r.wf()
    }
}

/// A computed line: its total and its VAT.
pub struct CreditNoteComputedLine {
    pub line_total: Amount,
    pub vat_amount: Amount,
}

/// The totals of a credit note and its computed lines.
pub struct CreditNoteTotals {
    pub subtotal: Amount,
    pub total_vat: Amount,
    pub total: Amount,
    pub lines: Vec<CreditNoteComputedLine>,
}

/// The (total, VAT) of each line, in order; `None` where a line's
/// arithmetic overflows.
pub open spec fn credit_lines(inputs: Seq<CreditNoteLineInput>) -> Option<
    Seq<((int, nat), (int, nat))>,
>
    decreases inputs.len(),
{
    if inputs.len() == 0 {
        Some(Seq::empty())
    } else {
        let l = inputs.last();
        match credit_lines(inputs.drop_last()) {
            None => None,
            Some(ls) => match line_total_of(l.quantity@, l.unit_price@, None) {
                None => None,
                Some(t) => match vat_of(t, opt_amount(l.vat_rate)) {
                    None => None,
                    Some(v) => Some(ls.push((t, v))),
                },
            },
        }
    }
}

pub open spec fn computed_view(v: Seq<CreditNoteComputedLine>) -> Seq<((int, nat), (int, nat))> {
    v.map_values(|l: CreditNoteComputedLine| (l.line_total@, l.vat_amount@))
}

proof fn lemma_lines_none_extends(inputs: Seq<CreditNoteLineInput>, k: int)
    requires
        0 <= k <= inputs.len(),
        credit_lines(inputs.take(k)) is None,
    ensures
        credit_lines(inputs) is None,
    decreases inputs.len() - k,
{
    if k < inputs.len() {
        assert(inputs.take(k + 1).drop_last() =~= inputs.take(k));
        lemma_lines_none_extends(inputs, k + 1);
    } else {
        assert(inputs.take(k) =~= inputs);
    }
}

impl CreditNoteService {
    /// The lines' totals and VAT, the subtotal (sum of the line totals),
    /// the VAT (sum of the lines' VAT) and the total (their sum). `None`
    /// where `Decimal` arithmetic overflows.
    pub fn compute_lines(inputs: &Vec<CreditNoteLineInput>) -> (r: Option<CreditNoteTotals>)
        requires
            forall|i: int| 0 <= i < inputs@.len() ==> (#[trigger] inputs@[i]).wf(),
        ensures
            match credit_lines(inputs@) {
                None => r is None,
                Some(ls) => match invoice_totals(ls, ls.len() as int) {
                    None => r is None,
                    Some((s, v)) => match dec_checked_add(s, v) {
                        None => r is None,
                        Some(t) => r matches Some(c) && computed_view(c.lines@) == ls
                            && c.subtotal@ == s && c.total_vat@ == v && c.total@ == t,
                    },
                },
            },
    {
        let mut lines: Vec<CreditNoteComputedLine> = Vec::new();
        let mut i: usize = 0;
        while i < inputs.len()
            invariant
                i <= inputs.len(),
                forall|k: int| 0 <= k < inputs@.len() ==> (#[trigger] inputs@[k]).wf(),
                credit_lines(inputs@.take(i as int)) == Some(computed_view(lines@)),
                forall|k: int|
                    0 <= k < lines@.len() ==> (#[trigger] lines@[k]).line_total.wf()
                        && lines@[k].vat_amount.wf(),
            decreases inputs.len() - i,
        {
            assert(inputs@.take(i + 1).drop_last() =~= inputs@.take(i as int));
            assert(inputs@[i as int].wf());
            let input = &inputs[i];
            match InvoiceService::line_amounts(input.quantity, input.unit_price, None, input.vat_rate) {
                Some((t, v)) => {
                    let ghost before = lines@;
                    lines.push(CreditNoteComputedLine { line_total: t, vat_amount: v });
                    assert(computed_view(lines@) =~= computed_view(before).push((t@, v@)));
                },
                None => {
                    proof {
                        lemma_lines_none_extends(inputs@, i as int + 1);
                    }
                    return None;
                },
            }
            i += 1;
        }
        assert(inputs@.take(inputs.len() as int) =~= inputs@);
        let ghost lv = computed_view(lines@);
        let mut sub = Amount::zero();
        let mut vat = Amount::zero();
        let mut j: usize = 0;
        while j < lines.len()
            invariant
                j <= lines.len(),
                lv == computed_view(lines@),
                credit_lines(inputs@) == Some(lv),
                forall|k: int|
                    0 <= k < lines@.len() ==> (#[trigger] lines@[k]).line_total.wf()
                        && lines@[k].vat_amount.wf(),
                sub.wf(),
                vat.wf(),
                invoice_totals(lv, j as int) == Some((sub@, vat@)),
            decreases lines.len() - j,
        {
            assert(lv[j as int] == (lines@[j as int].line_total@, lines@[j as int].vat_amount@));
            let a = sub.checked_add(lines[j].line_total);
            let b = vat.checked_add(lines[j].vat_amount);
            match (a, b) {
                (Some(x), Some(y)) => {
                    sub = x;
                    vat = y;
                },
                _ => {
                    proof {
                        lemma_totals_none_extends(lv, j as int + 1);
                    }
                    return None;
                },
            }
            j += 1;
        }
        match sub.checked_add(vat) {
            Some(t) => Some(CreditNoteTotals { subtotal: sub, total_vat: vat, total: t, lines }),
            None => None,
        }
    }
}

impl CreditNoteService {
    /// A credit note needs at least one line.
    pub fn check_lines(lines: &Vec<CreditNoteLineInput>) -> (r: Result<(), AppError>)
        ensures
            lines@.len() > 0 ==> r is Ok,
            lines@.len() == 0 ==> (r matches Err(e) && e.kind_and_message() == (
                ErrorKind::Validation,
                "At least one line is required"@,
            )),
    {
        if lines.len() == 0 {
            Err(AppError::Validation("At least one line is required".to_owned()))
        } else {
            Ok(())
        }
    }

    /// The checks on a credit note that is updated: only a draft can be,
    /// and it needs at least one line.
    pub fn check_update(status: &str, lines: &Vec<CreditNoteLineInput>) -> (r: Result<
        (),
        AppError,
    >)
        ensures
            status@ != "draft"@ ==> (r matches Err(e) && e.kind_and_message() == (
                ErrorKind::Validation,
                "Only draft credit notes can be updated"@,
            )),
            status@ == "draft"@ && lines@.len() == 0 ==> (r matches Err(e) && e.kind_and_message()
                == (ErrorKind::Validation, "At least one line is required"@)),
            status@ == "draft"@ && lines@.len() > 0 ==> r is Ok,
    {
        if !str_eq(status, "draft") {
            return Err(AppError::Validation("Only draft credit notes can be updated".to_owned()));
        }
        Self::check_lines(lines)
    }

    /// Only a draft credit note can be deleted.
    pub fn check_deletable(status: &str) -> (r: Result<(), AppError>)
        ensures
            status@ == "draft"@ ==> r is Ok,
            status@ != "draft"@ ==> (r matches Err(e) && e.kind_and_message() == (
                ErrorKind::Validation,
                "Only draft credit notes can be deleted"@,
            )),
    {
        if str_eq(status, "draft") {
            Ok(())
        } else {
            Err(AppError::Validation("Only draft credit notes can be deleted".to_owned()))
        }
    }
}

} // verus!
