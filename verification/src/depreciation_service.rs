//! Depreciation of fixed assets: the yearly amount by the straight-line or
//! the declining-balance method, and what a depreciation run books for one
//! asset.
use vstd::prelude::*;

use crate::amount::{
    dec_checked_add, dec_checked_div, dec_checked_mul, dec_checked_sub, value, Amount,
};
use crate::error::{AppError, ErrorKind};
use crate::journal_service::JournalLineInput;
use crate::text::str_eq;

verus! {

/// The depreciation service: the amounts of a depreciation run.
pub struct DepreciationService;

/// A fixed asset as depreciation reads it.
pub struct FixedAssetInfo {
    pub id: String,
    pub name: String,
    pub depreciation_method: String,
    pub declining_rate: Option<Amount>,
    pub residual_value: Amount,
    pub acquisition_cost: Amount,
    pub useful_life_years: i32,
    pub account_id: String,
    pub depreciation_account_id: String,
}

/// A depreciation booked for one asset in one fiscal year.
pub struct DepreciationStep {
    pub amount: Amount,
    pub accumulated: Amount,
    pub book_value: Amount,
    pub fully_depreciated: bool,
}

impl FixedAssetInfo {
    /// Every amount of the asset is a valid decimal.
    pub open spec fn wf(&self) -> bool {
        &&& self.residual_value.wf()
        &&& self.acquisition_cost.wf()
        &&& (self.declining_rate matches Some(r) ==> r.wf())
    }

    /// The declining rate, zero where the asset has none.
    pub open spec fn rate(&self) -> (int, nat) {
        match self.declining_rate {
            Some(r) => r@,
            None => (0int, 0nat),
        }
    }
}

/// The larger of a decimal and zero, as `Decimal::max(ZERO)` gives it.
pub open spec fn max_zero(x: (int, nat)) -> (int, nat) {
    if value(x) <= 0 {
        (0int, 0nat)
    } else {
        x
    }
}

/// The depreciation of one year for a book value `book`: by the declining
/// balance `book * rate`, but never below the residual value (and never
/// negative); by the straight line `(cost - residual) / years`, zero for an
/// asset without a useful life. `None` where a `Decimal` operation
/// overflows.
pub open spec fn depreciation_of(a: FixedAssetInfo, book: (int, nat)) -> Option<(int, nat)> {
    if a.depreciation_method@ == "declining_balance"@ {
        match dec_checked_mul(book, a.rate()) {
            Some(dep) => match dec_checked_sub(book, dep) {
                Some(after) => if value(after) < value(a.residual_value@) {
                    match dec_checked_sub(book, a.residual_value@) {
                        Some(x) => Some(max_zero(x)),
                        None => None,
                    }
                } else {
                    Some(dep)
                },
                None => None,
            },
            None => None,
        }
    } else if a.useful_life_years > 0 {
        match dec_checked_sub(a.acquisition_cost@, a.residual_value@) {
            Some(d) => dec_checked_div(d, (a.useful_life_years as int, 0nat)),
            None => None,
        }
    } else {
        Some((0int, 0nat))
    }
}

/// The sum of amounts as `Decimal`'s `Sum` gives it, from zero up; `None`
/// where an addition overflows.
pub open spec fn amounts_total(s: Seq<(int, nat)>) -> Option<(int, nat)>
    decreases s.len(),
{
    if s.len() == 0 {
        Some((0int, 0nat))
    } else {
        match amounts_total(s.drop_last()) {
            Some(t) => dec_checked_add(t, s.last()),
            None => None,
        }
    }
}

/// Whether an earlier depreciation of the asset was booked in the fiscal
/// year.
pub open spec fn already_run(existing: Seq<(Seq<char>, (int, nat))>, fiscal_year_id: Seq<char>) -> bool {
    exists|i: int| 0 <= i < existing.len() && #[trigger] existing[i].0 == fiscal_year_id
}

/// What a run books for the asset, given its earlier depreciations (fiscal
/// year and amount): nothing where one was booked in this fiscal year, where
/// the book value has reached the residual value, or where the depreciation
/// is not positive; else the amount, the new accumulated depreciation, the
/// new book value and whether the asset is now fully depreciated. `None`
/// where a `Decimal` operation overflows.
pub open spec fn run_step(
    a: FixedAssetInfo,
    fiscal_year_id: Seq<char>,
    existing: Seq<(Seq<char>, (int, nat))>,
) -> Option<Option<((int, nat), (int, nat), (int, nat), bool)>> {
    if already_run(existing, fiscal_year_id) {
        Some(None)
    } else {
        match amounts_total(existing.map_values(|e: (Seq<char>, (int, nat))| e.1)) {
            None => None,
            Some(acc) => match dec_checked_sub(a.acquisition_cost@, acc) {
                None => None,
                Some(book) => if value(book) <= value(a.residual_value@) {
                    Some(None)
                } else {
                    match depreciation_of(a, book) {
                        None => None,
                        Some(dep) => if value(dep) <= 0 {
                            Some(None)
                        } else {
                            match dec_checked_add(acc, dep) {
                                None => None,
                                Some(new_acc) => match dec_checked_sub(
                                    a.acquisition_cost@,
                                    new_acc,
                                ) {
                                    None => None,
                                    Some(new_book) => Some(
                                        Some(
                                            (
                                                dep,
                                                new_acc,
                                                new_book,
                                                value(new_book) <= value(a.residual_value@),
                                            ),
                                        ),
                                    ),
                                },
                            }
                        },
                    }
                },
            },
        }
    }
}

impl DepreciationService {
    /// The depreciation of one year for the book value `current_book_value`
    /// (see `depreciation_of`); `None` where `Decimal` arithmetic overflows.
    pub fn calculate(asset: &FixedAssetInfo, current_book_value: Amount) -> (r: Option<Amount>)
        requires
            asset.wf(),
            current_book_value.wf(),
        ensures
            match depreciation_of(*asset, current_book_value@) {
                Some(d) => r matches Some(x) && x@ == d && x.wf(),
                None => r is None,
            },
    {
        if crate::text::str_eq(asset.depreciation_method.as_str(), "declining_balance") {
            let rate = match asset.declining_rate {
                Some(r) => r,
                None => Amount::zero(),
            };
            let dep = match current_book_value.checked_mul(rate) {
                Some(d) => d,
                None => return None,
            };
            let after = match current_book_value.checked_sub(dep) {
                Some(x) => x,
                None => return None,
            };
            if after.lt(asset.residual_value) {
                match current_book_value.checked_sub(asset.residual_value) {
                    Some(x) => if Amount::zero().lt(x) {
                        Some(x)
                    } else {
                        Some(Amount::zero())
                    },
                    None => None,
                }
            } else {
                Some(dep)
            }
        } else if asset.useful_life_years > 0 {
            match asset.acquisition_cost.checked_sub(asset.residual_value) {
                Some(d) => d.checked_div(Amount::from_int(asset.useful_life_years as i64)),
                None => None,
            }
        } else {
            Some(Amount::zero())
        }
    }

    /// The sum of the amounts of earlier depreciations.
    fn accumulated(existing: &Vec<(String, Amount)>) -> (r: Option<Amount>)
        requires
            forall|i: int| 0 <= i < existing.len() ==> (#[trigger] existing[i]).1.wf(),
        ensures
            match amounts_total(existing_views(existing@).map_values(|e: (Seq<char>, (int, nat))| e.1)) {
                Some(t) => r matches Some(x) && x@ == t && x.wf(),
                None => r is None,
            },
    {
        let ghost amounts = existing_views(existing@).map_values(|e: (Seq<char>, (int, nat))| e.1);
        let mut total = Amount::zero();
        let mut i: usize = 0;
        while i < existing.len()
            invariant
                i <= existing.len(),
                amounts == existing_views(existing@).map_values(
                    |e: (Seq<char>, (int, nat))| e.1,
                ),
                forall|j: int| 0 <= j < existing.len() ==> (#[trigger] existing[j]).1.wf(),
                total.wf(),
                amounts_total(amounts.take(i as int)) == Some(total@),
            decreases existing.len() - i,
        {
            assert(amounts.take(i + 1).drop_last() =~= amounts.take(i as int));
            assert(amounts.take(i + 1).last() == existing[i as int].1@);
            match total.checked_add(existing[i].1) {
                Some(t) => {
                    total = t;
                },
                None => {
                    proof {
                        lemma_total_none_extends(amounts, i as int + 1);
                    }
                    return None;
                },
            }
            i = i + 1;
        }
        assert(amounts.take(existing.len() as int) =~= amounts);
        Some(total)
    }

    /// What a depreciation run books for `asset` in the fiscal year
    /// `fiscal_year_id`, given the asset's earlier depreciations (fiscal
    /// year and amount): see `run_step`.
    pub fn run_step(
        asset: &FixedAssetInfo,
        fiscal_year_id: &str,
        existing: &Vec<(String, Amount)>,
    ) -> (r: Option<Option<DepreciationStep>>)
        requires
            asset.wf(),
            forall|i: int| 0 <= i < existing.len() ==> (#[trigger] existing[i]).1.wf(),
        ensures
            match run_step(*asset, fiscal_year_id@, existing_views(existing@)) {
                None => r is None,
                Some(None) => r matches Some(None),
                Some(Some((dep, acc, book, fully))) => r matches Some(Some(s)) && s.amount@ == dep
                    && s.accumulated@ == acc && s.book_value@ == book && s.fully_depreciated
                    == fully,
            },
    {
        let mut i: usize = 0;
        while i < existing.len()
            invariant
                i <= existing.len(),
                forall|j: int| 0 <= j < i ==> existing_views(existing@)[j].0 != fiscal_year_id@,
            decreases existing.len() - i,
        {
            if crate::text::str_eq(existing[i].0.as_str(), fiscal_year_id) {
                assert(existing_views(existing@)[i as int].0 == fiscal_year_id@);
                return Some(None);
            }
            i = i + 1;
        }
        assert(!already_run(existing_views(existing@), fiscal_year_id@));
        let acc = match Self::accumulated(existing) {
            Some(a) => a,
            None => return None,
        };
        let book = match asset.acquisition_cost.checked_sub(acc) {
            Some(b) => b,
            None => return None,
        };
        if !asset.residual_value.lt(book) {
            return Some(None);
        }
        let dep = match Self::calculate(asset, book) {
            Some(d) => d,
            None => return None,
        };
        if !Amount::zero().lt(dep) {
            return Some(None);
        }
        let new_acc = match acc.checked_add(dep) {
            Some(x) => x,
            None => return None,
        };
        let new_book = match asset.acquisition_cost.checked_sub(new_acc) {
            Some(x) => x,
            None => return None,
        };
        let fully = !asset.residual_value.lt(new_book);
        Some(
            Some(
                DepreciationStep {
                    amount: dep,
                    accumulated: new_acc,
                    book_value: new_book,
                    fully_depreciated: fully,
                },
            ),
        )
    }

    /// The two lines of a depreciation booking: the amount debited to the
    /// depreciation account and credited to the asset account, both
    /// described as "Depreciation: {asset name}".
    pub fn depreciation_lines(asset: &FixedAssetInfo, amount: Amount) -> (r: Vec<JournalLineInput>)
        ensures
            r@.len() == 2,
            r@[0]@ == (
                asset.depreciation_account_id@,
                amount@,
                (0int, 0nat),
                Some("Depreciation: "@ + asset.name@),
                None::<Seq<char>>,
            ),
            r@[1]@ == (
                asset.account_id@,
                (0int, 0nat),
                amount@,
                Some("Depreciation: "@ + asset.name@),
                None::<Seq<char>>,
            ),
    {
        let mut d1 = "Depreciation: ".to_owned();
        d1.append(asset.name.as_str());
        let mut d2 = "Depreciation: ".to_owned();
        d2.append(asset.name.as_str());
        let mut v: Vec<JournalLineInput> = Vec::new();
        v.push(
            JournalLineInput {
                account_id: asset.depreciation_account_id.clone(),
                debit_amount: amount,
                credit_amount: Amount::zero(),
                description: Some(d1),
                vat_rate_id: None,
            },
        );
        v.push(
            JournalLineInput {
                account_id: asset.account_id.clone(),
                debit_amount: Amount::zero(),
                credit_amount: amount,
                description: Some(d2),
                vat_rate_id: None,
            },
        );
        v
    }

    /// The description of a depreciation entry: "Depreciation {asset} — FY
    /// {fiscal year}".
    pub fn entry_description(asset_name: &str, fiscal_year_name: &str) -> (r: String)
        ensures
            r@ == "Depreciation "@ + asset_name@ + " — FY "@ + fiscal_year_name@,
    {
        let mut out = "Depreciation ".to_owned();
        out.append(asset_name);
        out.append(" — FY ");
        out.append(fiscal_year_name);
        out
    }
}

/// The earlier depreciations as the contracts see them.
pub open spec fn existing_views(e: Seq<(String, Amount)>) -> Seq<(Seq<char>, (int, nat))> {
    e.map_values(|x: (String, Amount)| (x.0@, x.1@))
}

pub proof fn lemma_total_none_extends(s: Seq<(int, nat)>, k: int)
    requires
        0 <= k <= s.len(),
        amounts_total(s.take(k)) is None,
    ensures
        amounts_total(s) is None,
    decreases s.len() - k,
{
    if k < s.len() {
        assert(s.take(k + 1).drop_last() =~= s.take(k));
        lemma_total_none_extends(s, k + 1);
    } else {
        assert(s.take(k) =~= s);
    }
}

/// What a run books for each asset (see `run_step`), in order; `None`
/// where `Decimal` arithmetic overflows for some asset.
pub open spec fn run_all(
    assets: Seq<(FixedAssetInfo, Seq<(Seq<char>, (int, nat))>)>,
    fiscal_year_id: Seq<char>,
) -> Option<Seq<Option<((int, nat), (int, nat), (int, nat), bool)>>>
    decreases assets.len(),
{
    if assets.len() == 0 {
        Some(Seq::empty())
    } else {
        match (run_all(assets.drop_last(), fiscal_year_id), run_step(assets.last().0, fiscal_year_id, assets.last().1)) {
            (Some(v), Some(x)) => Some(v.push(x)),
            _ => None,
        }
    }
}

pub open spec fn assets_view(v: Seq<(FixedAssetInfo, Vec<(String, Amount)>)>) -> Seq<(FixedAssetInfo, Seq<(Seq<char>, (int, nat))>)> {
    v.map_values(|a: (FixedAssetInfo, Vec<(String, Amount)>)| (a.0, existing_views(a.1@)))
}

pub open spec fn step_view(s: Option<DepreciationStep>) -> Option<((int, nat), (int, nat), (int, nat), bool)> {
    match s {
        Some(x) => Some((x.amount@, x.accumulated@, x.book_value@, x.fully_depreciated)),
        None => None,
    }
}

proof fn lemma_run_all_none_extends(
    assets: Seq<(FixedAssetInfo, Seq<(Seq<char>, (int, nat))>)>,
    fiscal_year_id: Seq<char>,
    k: int,
)
    requires
        0 <= k <= assets.len(),
        run_all(assets.take(k), fiscal_year_id) is None,
    ensures
        run_all(assets, fiscal_year_id) is None,
    decreases assets.len() - k,
{
    if k < assets.len() {
        assert(assets.take(k + 1).drop_last() =~= assets.take(k));
        lemma_run_all_none_extends(assets, fiscal_year_id, k + 1);
    } else {
        assert(assets.take(k) =~= assets);
    }
}

impl DepreciationService {
    /// A depreciation run is refused for a closed fiscal year.
    pub fn check_fiscal_year_open(status: &str) -> (r: Result<(), AppError>)
        ensures
            status@ != "closed"@ ==> r is Ok,
            status@ == "closed"@ ==> (r matches Err(e) && e.kind_and_message() == (
                ErrorKind::Validation,
                "Cannot run depreciation on a closed fiscal year"@,
            )),
    {
        if str_eq(status, "closed") {
            Err(AppError::Validation("Cannot run depreciation on a closed fiscal year".to_owned()))
        } else {
            Ok(())
        }
    }

    /// A depreciation run over all active assets of a fiscal year, each
    /// with its earlier depreciations: refused for a closed fiscal year;
    /// else what each asset books (see `run_step`), in order. `Ok(None)`
    /// where `Decimal` arithmetic overflows.
    pub fn run_depreciation(
        fiscal_year_status: &str,
        fiscal_year_id: &str,
        assets: &Vec<(FixedAssetInfo, Vec<(String, Amount)>)>,
    ) -> (r: Result<Option<Vec<Option<DepreciationStep>>>, AppError>)
        requires
            forall|i: int|
                0 <= i < assets@.len() ==> (#[trigger] assets@[i]).0.wf() && forall|j: int|
                    0 <= j < assets@[i].1@.len() ==> (#[trigger] assets@[i].1@[j]).1.wf(),
        ensures
            fiscal_year_status@ == "closed"@ ==> (r matches Err(e) && e.kind_and_message() == (
                ErrorKind::Validation,
                "Cannot run depreciation on a closed fiscal year"@,
            )),
            fiscal_year_status@ != "closed"@ ==> (r matches Ok(o) && match run_all(
                assets_view(assets@),
                fiscal_year_id@,
            ) {
                None => o is None,
                Some(steps) => o matches Some(v) && v@.map_values(|s: Option<DepreciationStep>| step_view(s))
                    == steps,
            }),
    {
        match Self::check_fiscal_year_open(fiscal_year_status) {
            Err(e) => return Err(e),
            Ok(()) => {},
        }
        let ghost av = assets_view(assets@);
        let mut out: Vec<Option<DepreciationStep>> = Vec::new();
        let mut i: usize = 0;
        while i < assets.len()
            invariant
                i <= assets.len(),
                fiscal_year_status@ != "closed"@,
                av == assets_view(assets@),
                forall|k: int|
                    0 <= k < assets@.len() ==> (#[trigger] assets@[k]).0.wf() && forall|j: int|
                        0 <= j < assets@[k].1@.len() ==> (#[trigger] assets@[k].1@[j]).1.wf(),
                run_all(av.take(i as int), fiscal_year_id@) == Some(
                    out@.map_values(|s: Option<DepreciationStep>| step_view(s)),
                ),
            decreases assets.len() - i,
        {
            assert(av.take(i + 1).drop_last() =~= av.take(i as int));
            assert(av.take(i + 1).last() == av[i as int]);
            let (asset, existing) = &assets[i];
            assert(asset.wf());
            assert(forall|j: int| 0 <= j < existing@.len() ==> (#[trigger] existing@[j]).1.wf());
            match Self::run_step(asset, fiscal_year_id, existing) {
                Some(step) => {
                    let ghost before = out@;
                    let ghost sv = step_view(step);
                    out.push(step);
                    assert(out@.map_values(|s: Option<DepreciationStep>| step_view(s)) =~= before.map_values(
                        |s: Option<DepreciationStep>| step_view(s),
                    ).push(sv));
                },
                None => {
                    proof {
                        lemma_run_all_none_extends(av, fiscal_year_id@, i as int + 1);
                    }
                    return Ok(None);
                },
            }
            i += 1;
        }
        assert(av.take(assets.len() as int) =~= av);
        Ok(Some(out))
    }
}

/// A run is done once per asset and fiscal year: once a depreciation has
/// been booked in a fiscal year, a second run in that year books nothing.
pub proof fn lemma_run_once_per_year(
    a: FixedAssetInfo,
    fiscal_year_id: Seq<char>,
    existing: Seq<(Seq<char>, (int, nat))>,
    amount: (int, nat),
)
    ensures
        run_step(a, fiscal_year_id, existing.push((fiscal_year_id, amount))) == Some(
            None::<((int, nat), (int, nat), (int, nat), bool)>,
        ),
{
    let e2 = existing.push((fiscal_year_id, amount));
    assert(e2[existing.len() as int].0 == fiscal_year_id);
    assert(already_run(e2, fiscal_year_id));
}

/// Running twice in a row books nothing the second time: where a run for an
/// asset in a fiscal year goes through, a second run in the same year, with
/// what the first booked (if anything) among the asset's depreciations,
/// books nothing for it.
pub proof fn lemma_second_run_books_nothing(
    a: FixedAssetInfo,
    fiscal_year_id: Seq<char>,
    existing: Seq<(Seq<char>, (int, nat))>,
)
    requires
        run_step(a, fiscal_year_id, existing) is Some,
    ensures
        ({
            let after = match run_step(a, fiscal_year_id, existing) {
                Some(Some(s)) => existing.push((fiscal_year_id, s.0)),
                _ => existing,
            };
            run_step(a, fiscal_year_id, after) == Some(None::<((int, nat), (int, nat), (int, nat), bool)>)
        }),
{
    match run_step(a, fiscal_year_id, existing) {
        Some(Some(s)) => {
            lemma_run_once_per_year(a, fiscal_year_id, existing, s.0);
        },
        _ => {},
    }
}

/// By the declining-balance method, the year's depreciation is the current
/// book value times the rate, as `Decimal` multiplies them, wherever that
/// leaves the book value at or above the residual value.
pub proof fn lemma_declining_balance_on_book_value(
    a: FixedAssetInfo,
    book: (int, nat),
    product: (int, nat),
    after: (int, nat),
)
    requires
        a.depreciation_method@ == "declining_balance"@,
        dec_checked_mul(book, a.rate()) == Some(product),
        dec_checked_sub(book, product) == Some(after),
        value(after) >= value(a.residual_value@),
    ensures
        depreciation_of(a, book) == Some(product),
{
}

/// Where the product would take the book value below the residual value,
/// the declining-balance depreciation is what is left down to the residual
/// value, and never negative.
pub proof fn lemma_declining_balance_stops_at_residual(
    a: FixedAssetInfo,
    book: (int, nat),
    product: (int, nat),
    after: (int, nat),
    left: (int, nat),
)
    requires
        a.depreciation_method@ == "declining_balance"@,
        dec_checked_mul(book, a.rate()) == Some(product),
        dec_checked_sub(book, product) == Some(after),
        value(after) < value(a.residual_value@),
        dec_checked_sub(book, a.residual_value@) == Some(left),
    ensures
        depreciation_of(a, book) == Some(if value(left) > 0 { left } else { (0int, 0nat) }),
        depreciation_of(a, book) matches Some(d) && value(d) >= 0,
{
}

/// The declining-balance depreciation depends on the book value, the rate
/// and the residual value alone: two assets that agree on these, whatever
/// their acquisition cost or useful life, depreciate alike.
pub proof fn lemma_declining_balance_ignores_cost(
    a: FixedAssetInfo,
    b: FixedAssetInfo,
    book: (int, nat),
)
    requires
        a.depreciation_method@ == "declining_balance"@,
        b.depreciation_method@ == "declining_balance"@,
        a.rate() == b.rate(),
        a.residual_value@ == b.residual_value@,
    ensures
        depreciation_of(a, book) == depreciation_of(b, book),
{
}

/// By the straight-line method, the year's depreciation is the cost less
/// the residual value, divided by the useful life, whatever the book
/// value; an asset without a useful life depreciates by zero.
pub proof fn lemma_straight_line_on_cost(
    a: FixedAssetInfo,
    book1: (int, nat),
    book2: (int, nat),
    base: (int, nat),
)
    requires
        a.depreciation_method@ != "declining_balance"@,
    ensures
        depreciation_of(a, book1) == depreciation_of(a, book2),
        a.useful_life_years > 0 && dec_checked_sub(a.acquisition_cost@, a.residual_value@) == Some(base)
            ==> depreciation_of(a, book1) == dec_checked_div(base, (a.useful_life_years as int, 0nat)),
        a.useful_life_years <= 0 ==> depreciation_of(a, book1) == Some((0int, 0nat)),
{
}
} // verus!
