//! The cash flow statement of a period: the cash movements of the posted
//! entries shared out among their counterpart accounts, grouped into
//! operating, investing and financing activities, with the opening and
//! closing balances and the difference the two leave unexplained.
use vstd::prelude::*;

use crate::amount::{dec_checked_add, dec_checked_sub, value, Amount};
use crate::cash_flow::{
    abs_dec, entry_flow, line_views, lines_wf, section_sums, CashFlowService, CashLine,
    CashLineView, EntryFlow, FlowCategory, FlowView,
};
use crate::date::{iso_date, iso_text, valid_date};
use crate::text::str_eq;

verus! {

/// An item of a section: the counterpart account's label and the cash
/// allocated to it.
pub struct CashFlowItem {
    pub description: String,
    pub amount: Amount,
}

/// One section of the statement.
pub struct CashFlowSection {
    pub label: String,
    pub inflows: Amount,
    pub outflows: Amount,
    pub net: Amount,
    pub items: Vec<CashFlowItem>,
}

/// The cash flow statement.
pub struct CashFlowReport {
    pub sections: Vec<CashFlowSection>,
    pub net_change: Amount,
    pub opening_balance: Amount,
    pub closing_balance: Amount,
    pub reconciliation_difference: Amount,
    pub from_date: String,
    pub to_date: String,
}

/// An item as the contracts see it: label and amount.
pub type ItemView = (Seq<char>, (int, nat));

/// A section as the contracts see it: label, items, inflows, outflows, net.
pub type SectionView = (Seq<char>, Seq<ItemView>, (int, nat), (int, nat), (int, nat));

/// The items of the three activities.
pub type Buckets = (Seq<ItemView>, Seq<ItemView>, Seq<ItemView>);

/// An entry of the period as the contracts see it: its lines and the label
/// of each line's account.
pub type ReportEntryView = (Seq<CashLineView>, Seq<Seq<char>>);

/// The first position of `label` among the items, from `i` on.
pub open spec fn item_index(items: Seq<ItemView>, label: Seq<char>, i: int) -> Option<int>
    decreases items.len() - i,
{
    if i < 0 || i >= items.len() {
        None
    } else if items[i].0 == label {
        Some(i)
    } else {
        item_index(items, label, i + 1)
    }
}

/// An amount added to the item of `label` (a new item, from zero, where
/// there is none yet).
pub open spec fn add_item(items: Seq<ItemView>, label: Seq<char>, amount: (int, nat)) -> Option<Seq<ItemView>> {
    match item_index(items, label, 0) {
        Some(i) => match dec_checked_add(items[i].1, amount) {
            Some(v) => Some(items.update(i, (label, v))),
            None => None,
        },
        None => match dec_checked_add((0int, 0nat), amount) {
            Some(v) => Some(items.push((label, v))),
            None => None,
        },
    }
}

/// A share added to the items of its activity (excluded ones left out).
pub open spec fn add_share(b: Buckets, cat: FlowCategory, label: Seq<char>, amount: (int, nat)) -> Option<Buckets> {
    match cat {
        FlowCategory::Operating => match add_item(b.0, label, amount) {
            Some(x) => Some((x, b.1, b.2)),
            None => None,
        },
        FlowCategory::Investing => match add_item(b.1, label, amount) {
            Some(x) => Some((b.0, x, b.2)),
            None => None,
        },
        FlowCategory::Financing => match add_item(b.2, label, amount) {
            Some(x) => Some((b.0, b.1, x)),
            None => None,
        },
        FlowCategory::Exclude => Some(b),
    }
}

/// The shares of an entry added in order, each under its line's label.
pub open spec fn add_shares(b: Buckets, shares: Seq<(int, FlowCategory, (int, nat))>, labels: Seq<Seq<char>>) -> Option<Buckets>
    decreases shares.len(),
{
    if shares.len() == 0 {
        Some(b)
    } else {
        match add_shares(b, shares.drop_last(), labels) {
            None => None,
            Some(b2) => add_share(b2, shares.last().1, labels[shares.last().0], shares.last().2),
        }
    }
}

/// The opening balance and the items after the entries (see
/// `entry_flow`): entries with no counterpart are rolled into the opening
/// balance, the others shared out among their counterparts.
pub open spec fn report_state(opening: (int, nat), es: Seq<ReportEntryView>) -> Option<((int, nat), Buckets)>
    decreases es.len(),
{
    if es.len() == 0 {
        Some((opening, (Seq::empty(), Seq::empty(), Seq::empty())))
    } else {
        match report_state(opening, es.drop_last()) {
            None => None,
            Some((o, b)) => match entry_flow(es.last().0) {
                None => None,
                Some(FlowView::Skip) => Some((o, b)),
                Some(FlowView::Opening(n)) => match dec_checked_add(o, n) {
                    Some(o2) => Some((o2, b)),
                    None => None,
                },
                Some(FlowView::Allocate(s)) => match add_shares(b, s, es.last().1) {
                    Some(b2) => Some((o, b2)),
                    None => None,
                },
            },
        }
    }
}

/// `x` inserted into items sorted by decreasing size, after all items at
/// least as large.
pub open spec fn insert_by_size(s: Seq<ItemView>, x: ItemView) -> Seq<ItemView>
    decreases s.len(),
{
    if s.len() == 0 {
        seq![x]
    } else if value(abs_dec(x.1)) > value(abs_dec(s[0].1)) {
        seq![x] + s
    } else {
        seq![s[0]] + insert_by_size(s.skip(1), x)
    }
}

/// The items sorted by decreasing size, items of equal size in their
/// order (a stable sort).
pub open spec fn sort_by_size(s: Seq<ItemView>) -> Seq<ItemView>
    decreases s.len(),
{
    if s.len() == 0 {
        Seq::empty()
    } else {
        insert_by_size(sort_by_size(s.drop_last()), s.last())
    }
}

/// A section: its items sorted by size, the sum of the positive and of the
/// negative amounts, and their sum.
pub open spec fn section_of(label: Seq<char>, items: Seq<ItemView>) -> Option<SectionView> {
    let sorted = sort_by_size(items);
    match section_sums(sorted.map_values(|i: ItemView| i.1)) {
        None => None,
        Some((inf, outf)) => match dec_checked_add(inf, outf) {
            None => None,
            Some(net) => Some((label, sorted, inf, outf, net)),
        },
    }
}

/// The statement: the three sections, the net change (their nets summed
/// from zero), the opening balance with the entries without counterpart
/// rolled in, and the reconciliation difference `closing - (opening + net
/// change)`.
pub open spec fn statement(opening: (int, nat), closing: (int, nat), es: Seq<ReportEntryView>) -> Option<
    (Seq<SectionView>, (int, nat), (int, nat), (int, nat)),
> {
    match report_state(opening, es) {
        None => None,
        Some((o, b)) => match (
            section_of("Operating Activities"@, b.0),
            section_of("Investing Activities"@, b.1),
            section_of("Financing Activities"@, b.2),
        ) {
            (Some(s0), Some(s1), Some(s2)) => match dec_checked_add((0int, 0nat), s0.4) {
                None => None,
                Some(n0) => match dec_checked_add(n0, s1.4) {
                    None => None,
                    Some(n1) => match dec_checked_add(n1, s2.4) {
                        None => None,
                        Some(nc) => match dec_checked_add(o, nc) {
                            None => None,
                            Some(expected) => match dec_checked_sub(closing, expected) {
                                None => None,
                                Some(d) => Some((seq![s0, s1, s2], nc, o, d)),
                            },
                        },
                    },
                },
            },
            _ => None,
        },
    }
}

pub open spec fn report_entries(v: Seq<(Vec<CashLine>, Vec<String>)>) -> Seq<ReportEntryView> {
    v.map_values(
        |e: (Vec<CashLine>, Vec<String>)|
            (line_views(e.0@), e.1@.map_values(|s: String| s@)),
    )
}

pub open spec fn items_view(v: Seq<(String, Amount)>) -> Seq<ItemView> {
    v.map_values(|p: (String, Amount)| (p.0@, p.1@))
}

pub open spec fn items_wf(v: Seq<(String, Amount)>) -> bool {
    forall|i: int| 0 <= i < v.len() ==> (#[trigger] v[i]).1.wf()
}

pub open spec fn section_view(s: CashFlowSection) -> SectionView {
    (
        s.label@,
        s.items@.map_values(|i: CashFlowItem| (i.description@, i.amount@)),
        s.inflows@,
        s.outflows@,
        s.net@,
    )
}

proof fn lemma_state_none_extends(opening: (int, nat), es: Seq<ReportEntryView>, k: int)
    requires
        0 <= k <= es.len(),
        report_state(opening, es.take(k)) is None,
    ensures
        report_state(opening, es) is None,
    decreases es.len() - k,
{
    if k < es.len() {
        assert(es.take(k + 1).drop_last() =~= es.take(k));
        lemma_state_none_extends(opening, es, k + 1);
    } else {
        assert(es.take(k) =~= es);
    }
}

/// Inserting at the first smaller item is `insert_by_size`.
proof fn lemma_insert_at(s: Seq<ItemView>, x: ItemView, i: int)
    requires
        0 <= i <= s.len(),
        forall|j: int| 0 <= j < i ==> !(value(abs_dec(x.1)) > value(abs_dec(#[trigger] s[j].1))),
        i < s.len() ==> value(abs_dec(x.1)) > value(abs_dec(s[i].1)),
    ensures
        insert_by_size(s, x) == s.take(i) + seq![x] + s.skip(i),
    decreases s.len(),
{
    if s.len() == 0 {
        assert(s.take(i) + seq![x] + s.skip(i) =~= seq![x]);
    } else if i == 0 {
        assert(s.take(0) + seq![x] + s.skip(0) =~= seq![x] + s);
    } else {
        let t = s.skip(1);
        assert forall|j: int| 0 <= j < i - 1 implies !(value(abs_dec(x.1)) > value(abs_dec(#[trigger] t[j].1))) by {
            assert(t[j] == s[j + 1]);
        }
        if i < s.len() {
            assert(t[i - 1] == s[i]);
        }
        lemma_insert_at(t, x, i - 1);
        assert(s.take(i) + seq![x] + s.skip(i) =~= seq![s[0]] + (t.take(i - 1) + seq![x] + t.skip(i - 1)));
    }
}

impl CashFlowService {
    /// Adds `amount` to the item of `label` (see `add_item`).
    fn add_item(items: &mut Vec<(String, Amount)>, label: &str, amount: Amount) -> (ok: bool)
        requires
            items_wf(old(items)@),
            amount.wf(),
        ensures
            items_wf(final(items)@),
            match add_item(items_view(old(items)@), label@, amount@) {
                Some(v) => ok && items_view(final(items)@) == v,
                None => !ok,
            },
    {
        let ghost iv = items_view(items@);
        let mut i: usize = 0;
        while i < items.len()
            invariant
                i <= items.len(),
                iv == items_view(items@),
                items@ == old(items)@,
                items_wf(items@),
                amount.wf(),
                item_index(iv, label@, 0) == item_index(iv, label@, i as int),
            decreases items.len() - i,
        {
            assert(iv[i as int].0 == items@[i as int].0@);
            if str_eq(items[i].0.as_str(), label) {
                assert(items@[i as int].1.wf());
                match items[i].1.checked_add(amount) {
                    Some(v) => {
                        let l = items[i].0.clone();
                        items.set(i, (l, v));
                        assert(items_view(items@) =~= iv.update(i as int, (label@, v@)));
                        return true;
                    },
                    None => return false,
                }
            }
            i += 1;
        }
        match Amount::zero().checked_add(amount) {
            Some(v) => {
                items.push((label.to_owned(), v));
                assert(items_view(items@) =~= iv.push((label@, v@)));
                true
            },
            None => false,
        }
    }

    /// Sorts the items by decreasing size, stably (see `sort_by_size`).
    fn sort_by_size(items: &Vec<(String, Amount)>) -> (r: Vec<(String, Amount)>)
        requires
            items_wf(items@),
        ensures
            items_view(r@) == sort_by_size(items_view(items@)),
            items_wf(r@),
    {
        let ghost iv = items_view(items@);
        let mut out: Vec<(String, Amount)> = Vec::new();
        let mut k: usize = 0;
        while k < items.len()
            invariant
                k <= items.len(),
                iv == items_view(items@),
                items_wf(items@),
                items_wf(out@),
                items_view(out@) == sort_by_size(iv.take(k as int)),
            decreases items.len() - k,
        {
            assert(iv.take(k + 1).drop_last() =~= iv.take(k as int));
            assert(iv.take(k + 1).last() == iv[k as int]);
            let x = items[k].1;
            assert(x.wf());
            let xa = x.abs();
            let ghost ov = items_view(out@);
            let mut i: usize = 0;
            while i < out.len() && !out[i].1.abs().lt(xa)
                invariant
                    i <= out.len(),
                    ov == items_view(out@),
                    items_wf(out@),
                    x.wf(),
                    xa@ == abs_dec(x@),
                    xa.wf(),
                    forall|j: int| 0 <= j < i ==> !(value(abs_dec(x@)) > value(abs_dec(#[trigger] ov[j].1))),
                decreases out.len() - i,
            {
                assert(out@[i as int].1.wf());
                assert(ov[i as int].1 == out@[i as int].1@);
                i += 1;
            }
            proof {
                if i < out.len() {
                    assert(ov[i as int].1 == out@[i as int].1@);
                    assert(out@[i as int].1.wf());
                }
                lemma_insert_at(ov, iv[k as int], i as int);
            }
            let ghost before = out@;
            out.insert(i, (items[k].0.clone(), x));
            assert(items_view(out@) =~= ov.take(i as int) + seq![iv[k as int]] + ov.skip(i as int));
            k += 1;
        }
        assert(iv.take(items.len() as int) =~= iv);
        out
    }

    /// A section from its items (see `section_of`).
    fn build_section(label: &str, items: &Vec<(String, Amount)>) -> (r: Option<CashFlowSection>)
        requires
            items_wf(items@),
        ensures
            match section_of(label@, items_view(items@)) {
                Some(s) => r matches Some(x) && section_view(x) == s && x.net.wf(),
                None => r is None,
            },
    {
        let sorted = Self::sort_by_size(items);
        let mut amounts: Vec<Amount> = Vec::new();
        let mut list: Vec<CashFlowItem> = Vec::new();
        let mut i: usize = 0;
        while i < sorted.len()
            invariant
                i <= sorted.len(),
                items_wf(sorted@),
                amounts@.len() == i,
                list@.len() == i,
                forall|j: int| 0 <= j < i ==> (#[trigger] amounts@[j]) == sorted@[j].1,
                forall|j: int| 0 <= j < i ==> (#[trigger] list@[j]).description@ == sorted@[j].0@
                    && list@[j].amount == sorted@[j].1,
            decreases sorted.len() - i,
        {
            amounts.push(sorted[i].1);
            list.push(CashFlowItem { description: sorted[i].0.clone(), amount: sorted[i].1 });
            i += 1;
        }
        assert(amounts@.map_values(|a: Amount| a@) =~= items_view(sorted@).map_values(|i: ItemView| i.1));
        assert(list@.map_values(|i: CashFlowItem| (i.description@, i.amount@)) =~= items_view(sorted@));
        let (inf, outf) = match Self::section_totals(&amounts) {
            Some(x) => x,
            None => return None,
        };
        let net = match inf.checked_add(outf) {
            Some(n) => n,
            None => return None,
        };
        Some(CashFlowSection { label: label.to_owned(), inflows: inf, outflows: outf, net, items: list })
    }
    /// The cash flow statement of the period `from`..=`to`: `opening` is
    /// the cash balance before the period, `closing` that at its end; each
    /// entry of the period comes with the label of each line's account (see
    /// `statement`). `None` where `Decimal` arithmetic overflows.
    pub fn cash_flow_report(
        from: (i32, u32, u32),
        to: (i32, u32, u32),
        opening: Amount,
        closing: Amount,
        entries: &Vec<(Vec<CashLine>, Vec<String>)>,
    ) -> (r: Option<CashFlowReport>)
        requires
            valid_date(from.0 as int, from.1 as int, from.2 as int),
            valid_date(to.0 as int, to.1 as int, to.2 as int),
            opening.wf(),
            closing.wf(),
            forall|i: int|
                0 <= i < entries@.len() ==> lines_wf((#[trigger] entries@[i]).0@) && entries@[i].1@.len()
                    == entries@[i].0@.len(),
        ensures
            match statement(opening@, closing@, report_entries(entries@)) {
                None => r is None,
                Some((secs, nc, o, d)) => r matches Some(rep) && rep.sections@.map_values(
                    |s: CashFlowSection| section_view(s),
                ) == secs && rep.net_change@ == nc && rep.opening_balance@ == o
                    && rep.closing_balance == closing && rep.reconciliation_difference@ == d
                    && rep.from_date@ == iso_text(from.0 as int, from.1 as int, from.2 as int)
                    && rep.to_date@ == iso_text(to.0 as int, to.1 as int, to.2 as int),
            },
    {
        let ghost es = report_entries(entries@);
        let mut o = opening;
        let mut ops: Vec<(String, Amount)> = Vec::new();
        let mut inv: Vec<(String, Amount)> = Vec::new();
        let mut fin: Vec<(String, Amount)> = Vec::new();
        let mut k: usize = 0;
        while k < entries.len()
            invariant
                k <= entries.len(),
                es == report_entries(entries@),
                forall|i: int|
                    0 <= i < entries@.len() ==> lines_wf((#[trigger] entries@[i]).0@)
                        && entries@[i].1@.len() == entries@[i].0@.len(),
                o.wf(),
                items_wf(ops@),
                items_wf(inv@),
                items_wf(fin@),
                report_state(opening@, es.take(k as int)) == Some(
                    (o@, (items_view(ops@), items_view(inv@), items_view(fin@))),
                ),
            decreases entries.len() - k,
        {
            assert(es.take(k + 1).drop_last() =~= es.take(k as int));
            assert(es.take(k + 1).last() == es[k as int]);
            let (lines, labels) = &entries[k];
            assert(lines_wf(lines@) && labels@.len() == lines@.len());
            assert(es[k as int].0 == line_views(lines@));
            match Self::entry_flow(lines) {
                None => {
                    proof {
                        lemma_state_none_extends(opening@, es, k as int + 1);
                    }
                    return None;
                },
                Some(EntryFlow::Skip) => {},
                Some(EntryFlow::Opening(n)) => {
                    match o.checked_add(n) {
                        Some(x) => o = x,
                        None => {
                            proof {
                                lemma_state_none_extends(opening@, es, k as int + 1);
                            }
                            return None;
                        },
                    }
                },
                Some(EntryFlow::Allocate(shares)) => {
                    let ghost sv = match entry_flow(es[k as int].0) {
                        Some(FlowView::Allocate(s)) => s,
                        _ => Seq::empty(),
                    };
                    let ghost lv = labels@.map_values(|s: String| s@);
                    assert(es[k as int].1 == lv);
                    let ghost b0 = (items_view(ops@), items_view(inv@), items_view(fin@));
                    let mut j: usize = 0;
                    while j < shares.len()
                        invariant
                            j <= shares.len(),
                            k < entries@.len(),
                            es == report_entries(entries@),
                            o.wf(),
                            report_state(opening@, es.take(k as int)) == Some((o@, b0)),
                            entry_flow(es[k as int].0) == Some(FlowView::Allocate(sv)),
                            es[k as int].1 == lv,
                            shares@.len() == sv.len(),
                            forall|i: int|
                                0 <= i < sv.len() ==> (#[trigger] shares@[i]).0 as int == sv[i].0
                                    && shares@[i].1 == sv[i].1 && shares@[i].2@ == sv[i].2,
                            forall|i: int|
                                0 <= i < shares@.len() ==> (#[trigger] shares@[i]).2.wf()
                                    && shares@[i].0 < lines@.len(),
                            labels@.len() == lines@.len(),
                            lv == labels@.map_values(|s: String| s@),
                            items_wf(ops@),
                            items_wf(inv@),
                            items_wf(fin@),
                            add_shares(b0, sv.take(j as int), lv) == Some(
                                (items_view(ops@), items_view(inv@), items_view(fin@)),
                            ),
                        decreases shares.len() - j,
                    {
                        assert(sv.take(j + 1).drop_last() =~= sv.take(j as int));
                        assert(sv.take(j + 1).last() == sv[j as int]);
                        let (idx, cat, amt) = shares[j];
                        assert(lv[idx as int] == labels@[idx as int]@);
                        let label = labels[idx].as_str();
                        let ok = match cat {
                            FlowCategory::Operating => Self::add_item(&mut ops, label, amt),
                            FlowCategory::Investing => Self::add_item(&mut inv, label, amt),
                            FlowCategory::Financing => Self::add_item(&mut fin, label, amt),
                            FlowCategory::Exclude => true,
                        };
                        if !ok {
                            proof {
                                lemma_shares_add_none(b0, sv, lv, j as int + 1);
                                assert(es.take(k + 1).drop_last() =~= es.take(k as int));
                                assert(es.take(k + 1).last() == es[k as int]);
                                lemma_state_none_extends(opening@, es, k as int + 1);
                            }
                            return None;
                        }
                        j += 1;
                    }
                    assert(sv.take(sv.len() as int) =~= sv);
                },
            }
            k += 1;
        }
        assert(es.take(entries.len() as int) =~= es);
        let s0 = match Self::build_section("Operating Activities", &ops) {
            Some(s) => s,
            None => return None,
        };
        let s1 = match Self::build_section("Investing Activities", &inv) {
            Some(s) => s,
            None => return None,
        };
        let s2 = match Self::build_section("Financing Activities", &fin) {
            Some(s) => s,
            None => return None,
        };
        let n0 = match Amount::zero().checked_add(s0.net) {
            Some(x) => x,
            None => return None,
        };
        let n1 = match n0.checked_add(s1.net) {
            Some(x) => x,
            None => return None,
        };
        let nc = match n1.checked_add(s2.net) {
            Some(x) => x,
            None => return None,
        };
        let expected = match o.checked_add(nc) {
            Some(x) => x,
            None => return None,
        };
        let d = match closing.checked_sub(expected) {
            Some(x) => x,
            None => return None,
        };
        let ghost v0 = section_view(s0);
        let ghost v1 = section_view(s1);
        let ghost v2 = section_view(s2);
        let sections = vec![s0, s1, s2];
        assert(sections@.map_values(|s: CashFlowSection| section_view(s)) =~= seq![v0, v1, v2]);
        Some(
            CashFlowReport {
                sections,
                net_change: nc,
                opening_balance: o,
                closing_balance: closing,
                reconciliation_difference: d,
                from_date: iso_date(from),
                to_date: iso_date(to),
            },
        )
    }
}

/// Once adding a share has failed, adding all of them fails.
proof fn lemma_shares_add_none(
    b: Buckets,
    s: Seq<(int, FlowCategory, (int, nat))>,
    labels: Seq<Seq<char>>,
    k: int,
)
    requires
        0 <= k <= s.len(),
        add_shares(b, s.take(k), labels) is None,
    ensures
        add_shares(b, s, labels) is None,
    decreases s.len() - k,
{
    if k < s.len() {
        assert(s.take(k + 1).drop_last() =~= s.take(k));
        lemma_shares_add_none(b, s, labels, k + 1);
    } else {
        assert(s.take(k) =~= s);
    }
}

} // verus!
