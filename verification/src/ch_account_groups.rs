//! The Swiss KMU account groups of the balance sheet and the income
//! statement, as account-number ranges.
use vstd::prelude::*;

use crate::accounts_csv::account_type_of;
use crate::amount::{dec_checked_add, value, Amount};

verus! {

/// A Swiss KMU account group: the accounts numbered `from..=to`.
pub struct AccountRange {
    pub label: &'static str,
    pub total_label: &'static str,
    pub from: i32,
    pub to: i32,
}

/// `(label, total label, from, to)`.
pub type AccountRangeView = (Seq<char>, Seq<char>, i32, i32);

impl View for AccountRange {
    type V = AccountRangeView;

    open spec fn view(&self) -> AccountRangeView {
        (self.label@, self.total_label@, self.from, self.to)
    }
}

/// `(key, label, groups)` of one section.
pub type SectionView = (Seq<char>, Seq<char>, Seq<AccountRangeView>);

pub open spec fn sections_view(v: Seq<(&'static str, &'static str, Vec<AccountRange>)>) -> Seq<
    SectionView,
> {
    v.map_values(
        |s: (&'static str, &'static str, Vec<AccountRange>)|
            (s.0@, s.1@, s.2@.map_values(|r: AccountRange| r@)),
    )
}

/// Bilanz Aktiven: the asset sections of the Swiss KMU balance sheet.
pub open spec fn balance_sheet_assets() -> Seq<SectionView> {
    seq![
        (
            "current_assets"@,
            "Umlaufvermögen"@,
            seq![
                ("Flüssige Mittel"@, "Total Flüssige Mittel"@, 1000i32, 1099i32),
                ("Forderungen aus Lieferungen und Leistungen"@, "Total Forderungen L&L"@, 1100i32, 1199i32),
                ("Andere kurzfristige Forderungen"@, "Total Andere kfr. Ford."@, 1200i32, 1299i32),
                ("Vorräte und nicht fakturierte Dienstleistungen"@, "Total Vorräte"@, 1200i32, 1299i32),
                ("Aktive Rechnungsabgrenzungen"@, "Total Aktive RA"@, 1300i32, 1399i32),
            ],
        ),
        (
            "fixed_assets"@,
            "Anlagevermögen"@,
            seq![
                ("Finanzanlagen"@, "Total Finanzanlagen"@, 1400i32, 1499i32),
                ("Mobile Sachanlagen"@, "Total Mobile Sachanlagen"@, 1500i32, 1599i32),
                ("Immobile Sachanlagen"@, "Total Immobile Sachanlagen"@, 1600i32, 1699i32),
                ("Immaterielle Anlagen"@, "Total Immaterielle Anlagen"@, 1700i32, 1799i32),
            ],
        ),
    ]
}

/// Bilanz Passiven: the liability and equity sections of the balance sheet.
pub open spec fn balance_sheet_liabilities() -> Seq<SectionView> {
    seq![
        (
            "current_liabilities"@,
            "Kurzfristiges Fremdkapital"@,
            seq![
                ("Verbindlichkeiten aus Lieferungen und Leistungen"@, "Total Kreditoren"@, 2000i32, 2099i32),
                ("Kurzfristige Finanzverbindlichkeiten"@, "Total Kfr. Finanzverb."@, 2100i32, 2199i32),
                ("Übrige kurzfristige Verbindlichkeiten"@, "Total Übrige kfr. Verb."@, 2200i32, 2299i32),
                ("Passive Rechnungsabgrenzungen und kurzfristige Rückstellungen"@, "Total Passive RA"@, 2300i32, 2399i32),
            ],
        ),
        (
            "long_term_liabilities"@,
            "Langfristiges Fremdkapital"@,
            seq![
                ("Langfristige Finanzverbindlichkeiten"@, "Total Lfr. Finanzverb."@, 2400i32, 2499i32),
                ("Übrige langfristige Verbindlichkeiten"@, "Total Übrige lfr. Verb."@, 2500i32, 2599i32),
                ("Rückstellungen und Wertberichtigungen"@, "Total Rückstellungen"@, 2600i32, 2799i32),
            ],
        ),
        (
            "equity"@,
            "Eigenkapital"@,
            seq![
                ("Grund-/Stammkapital"@, "Total Stammkapital"@, 2800i32, 2899i32),
                ("Reserven"@, "Total Reserven"@, 2900i32, 2969i32),
                ("Gewinn-/Verlustvortrag"@, "Total Gewinnvortrag"@, 2970i32, 2978i32),
                ("Jahresergebnis"@, "Jahresergebnis"@, 2979i32, 2979i32),
            ],
        ),
    ]
}

/// Erfolgsrechnung: the sections of the income statement.
pub open spec fn income_statement_sections() -> Seq<SectionView> {
    seq![
        (
            "operating_revenue"@,
            "Betriebsertrag aus Lieferungen und Leistungen"@,
            seq![
                ("Produktionserlöse"@, "Total Produktionserlöse"@, 3000i32, 3199i32),
                ("Dienstleistungsertrag"@, "Total Dienstleistungsertrag"@, 3200i32, 3499i32),
                ("Handelserlöse"@, "Total Handelserlöse"@, 3500i32, 3699i32),
                ("Übrige Erlöse"@, "Total Übrige Erlöse"@, 3700i32, 3899i32),
                ("Erlösminderungen"@, "Total Erlösminderungen"@, 3900i32, 3999i32),
            ],
        ),
        (
            "material_expense"@,
            "Aufwand für Material, Handelsware und Drittleistungen"@,
            seq![
                ("Materialaufwand"@, "Total Materialaufwand"@, 4000i32, 4499i32),
                ("Drittleistungen"@, "Total Drittleistungen"@, 4500i32, 4999i32),
            ],
        ),
        (
            "personnel_expense"@,
            "Personalaufwand"@,
            seq![
                ("Löhne und Gehälter"@, "Total Löhne"@, 5000i32, 5499i32),
                ("Sozialversicherungsaufwand"@, "Total Sozialvers."@, 5500i32, 5799i32),
                ("Übriger Personalaufwand"@, "Total Übriger Personalaufw."@, 5800i32, 5999i32),
            ],
        ),
        (
            "other_opex"@,
            "Übriger betrieblicher Aufwand"@,
            seq![
                ("Raumaufwand"@, "Total Raumaufwand"@, 6000i32, 6099i32),
                ("Unterhalt und Reparaturen"@, "Total Unterhalt"@, 6100i32, 6199i32),
                ("Fahrzeugaufwand"@, "Total Fahrzeugaufwand"@, 6200i32, 6299i32),
                ("Sachversicherungen"@, "Total Sachversicherungen"@, 6300i32, 6399i32),
                ("Verwaltungsaufwand"@, "Total Verwaltungsaufwand"@, 6500i32, 6599i32),
                ("Informatikaufwand"@, "Total Informatikaufwand"@, 6600i32, 6699i32),
                ("Werbeaufwand"@, "Total Werbeaufwand"@, 6700i32, 6799i32),
            ],
        ),
        (
            "depreciation"@,
            "Abschreibungen und Wertberichtigungen"@,
            seq![
                ("Abschreibungen"@, "Total Abschreibungen"@, 6800i32, 6899i32),
            ],
        ),
        (
            "financial_result"@,
            "Finanzergebnis"@,
            seq![
                ("Finanzaufwand"@, "Total Finanzaufwand"@, 6900i32, 6949i32),
                ("Finanzertrag"@, "Total Finanzertrag"@, 6950i32, 6999i32),
            ],
        ),
        (
            "extraordinary"@,
            "Betriebsfremder, ausserordentlicher Erfolg"@,
            seq![
                ("Betriebsfremder Aufwand"@, "Total Betriebsfr. Aufw."@, 8000i32, 8099i32),
                ("Betriebsfremder Ertrag"@, "Total Betriebsfr. Ertr."@, 8100i32, 8499i32),
                ("Ausserordentlicher Aufwand"@, "Total A.o. Aufwand"@, 8500i32, 8599i32),
                ("Ausserordentlicher Ertrag"@, "Total A.o. Ertrag"@, 8600i32, 8799i32),
            ],
        ),
        (
            "taxes"@,
            "Steuern"@,
            seq![
                ("Direkte Steuern"@, "Total Steuern"@, 8900i32, 8999i32),
            ],
        ),
    ]
}

/// Bilanz Aktiven: the asset sections of the Swiss KMU balance sheet.
#[verifier::rlimit(40)]
pub fn ch_balance_sheet_assets() -> (r: Vec<(&'static str, &'static str, Vec<AccountRange>)>)
    ensures
        sections_view(r@) == balance_sheet_assets(),
{
    let s0 = vec![
        AccountRange { label: "Flüssige Mittel", total_label: "Total Flüssige Mittel", from: 1000, to: 1099 },
        AccountRange { label: "Forderungen aus Lieferungen und Leistungen", total_label: "Total Forderungen L&L", from: 1100, to: 1199 },
        AccountRange { label: "Andere kurzfristige Forderungen", total_label: "Total Andere kfr. Ford.", from: 1200, to: 1299 },
        AccountRange { label: "Vorräte und nicht fakturierte Dienstleistungen", total_label: "Total Vorräte", from: 1200, to: 1299 },
        AccountRange { label: "Aktive Rechnungsabgrenzungen", total_label: "Total Aktive RA", from: 1300, to: 1399 },
    ];
    assert(s0@.map_values(|r: AccountRange| r@) =~= balance_sheet_assets()[0].2);
    let s1 = vec![
        AccountRange { label: "Finanzanlagen", total_label: "Total Finanzanlagen", from: 1400, to: 1499 },
        AccountRange { label: "Mobile Sachanlagen", total_label: "Total Mobile Sachanlagen", from: 1500, to: 1599 },
        AccountRange { label: "Immobile Sachanlagen", total_label: "Total Immobile Sachanlagen", from: 1600, to: 1699 },
        AccountRange { label: "Immaterielle Anlagen", total_label: "Total Immaterielle Anlagen", from: 1700, to: 1799 },
    ];
    assert(s1@.map_values(|r: AccountRange| r@) =~= balance_sheet_assets()[1].2);
    let r = vec![
        ("current_assets", "Umlaufvermögen", s0),
        ("fixed_assets", "Anlagevermögen", s1),
    ];
    assert(sections_view(r@) =~= balance_sheet_assets());
    r
}

/// Bilanz Passiven: the liability and equity sections of the balance sheet.
#[verifier::rlimit(40)]
pub fn ch_balance_sheet_liabilities() -> (r: Vec<(&'static str, &'static str, Vec<AccountRange>)>)
    ensures
        sections_view(r@) == balance_sheet_liabilities(),
        groups_disjoint(sections_view(r@)),
{
    let s0 = vec![
        AccountRange { label: "Verbindlichkeiten aus Lieferungen und Leistungen", total_label: "Total Kreditoren", from: 2000, to: 2099 },
        AccountRange { label: "Kurzfristige Finanzverbindlichkeiten", total_label: "Total Kfr. Finanzverb.", from: 2100, to: 2199 },
        AccountRange { label: "Übrige kurzfristige Verbindlichkeiten", total_label: "Total Übrige kfr. Verb.", from: 2200, to: 2299 },
        AccountRange { label: "Passive Rechnungsabgrenzungen und kurzfristige Rückstellungen", total_label: "Total Passive RA", from: 2300, to: 2399 },
    ];
    assert(s0@.map_values(|r: AccountRange| r@) =~= balance_sheet_liabilities()[0].2);
    let s1 = vec![
        AccountRange { label: "Langfristige Finanzverbindlichkeiten", total_label: "Total Lfr. Finanzverb.", from: 2400, to: 2499 },
        AccountRange { label: "Übrige langfristige Verbindlichkeiten", total_label: "Total Übrige lfr. Verb.", from: 2500, to: 2599 },
        AccountRange { label: "Rückstellungen und Wertberichtigungen", total_label: "Total Rückstellungen", from: 2600, to: 2799 },
    ];
    assert(s1@.map_values(|r: AccountRange| r@) =~= balance_sheet_liabilities()[1].2);
    let s2 = vec![
        AccountRange { label: "Grund-/Stammkapital", total_label: "Total Stammkapital", from: 2800, to: 2899 },
        AccountRange { label: "Reserven", total_label: "Total Reserven", from: 2900, to: 2969 },
        AccountRange { label: "Gewinn-/Verlustvortrag", total_label: "Total Gewinnvortrag", from: 2970, to: 2978 },
        AccountRange { label: "Jahresergebnis", total_label: "Jahresergebnis", from: 2979, to: 2979 },
    ];
    assert(s2@.map_values(|r: AccountRange| r@) =~= balance_sheet_liabilities()[2].2);
    let r = vec![
        ("current_liabilities", "Kurzfristiges Fremdkapital", s0),
        ("long_term_liabilities", "Langfristiges Fremdkapital", s1),
        ("equity", "Eigenkapital", s2),
    ];
    assert(sections_view(r@) =~= balance_sheet_liabilities());
    proof {
        lemma_kmu_groups_disjoint();
    }
    r
}

/// Erfolgsrechnung: the sections of the income statement.
#[verifier::rlimit(40)]
pub fn ch_income_statement_sections() -> (r: Vec<(&'static str, &'static str, Vec<AccountRange>)>)
    ensures
        sections_view(r@) == income_statement_sections(),
        groups_disjoint(sections_view(r@)),
{
    let s0 = vec![
        AccountRange { label: "Produktionserlöse", total_label: "Total Produktionserlöse", from: 3000, to: 3199 },
        AccountRange { label: "Dienstleistungsertrag", total_label: "Total Dienstleistungsertrag", from: 3200, to: 3499 },
        AccountRange { label: "Handelserlöse", total_label: "Total Handelserlöse", from: 3500, to: 3699 },
        AccountRange { label: "Übrige Erlöse", total_label: "Total Übrige Erlöse", from: 3700, to: 3899 },
        AccountRange { label: "Erlösminderungen", total_label: "Total Erlösminderungen", from: 3900, to: 3999 },
    ];
    assert(s0@.map_values(|r: AccountRange| r@) =~= income_statement_sections()[0].2);
    let s1 = vec![
        AccountRange { label: "Materialaufwand", total_label: "Total Materialaufwand", from: 4000, to: 4499 },
        AccountRange { label: "Drittleistungen", total_label: "Total Drittleistungen", from: 4500, to: 4999 },
    ];
    assert(s1@.map_values(|r: AccountRange| r@) =~= income_statement_sections()[1].2);
    let s2 = vec![
        AccountRange { label: "Löhne und Gehälter", total_label: "Total Löhne", from: 5000, to: 5499 },
        AccountRange { label: "Sozialversicherungsaufwand", total_label: "Total Sozialvers.", from: 5500, to: 5799 },
        AccountRange { label: "Übriger Personalaufwand", total_label: "Total Übriger Personalaufw.", from: 5800, to: 5999 },
    ];
    assert(s2@.map_values(|r: AccountRange| r@) =~= income_statement_sections()[2].2);
    let s3 = vec![
        AccountRange { label: "Raumaufwand", total_label: "Total Raumaufwand", from: 6000, to: 6099 },
        AccountRange { label: "Unterhalt und Reparaturen", total_label: "Total Unterhalt", from: 6100, to: 6199 },
        AccountRange { label: "Fahrzeugaufwand", total_label: "Total Fahrzeugaufwand", from: 6200, to: 6299 },
        AccountRange { label: "Sachversicherungen", total_label: "Total Sachversicherungen", from: 6300, to: 6399 },
        AccountRange { label: "Verwaltungsaufwand", total_label: "Total Verwaltungsaufwand", from: 6500, to: 6599 },
        AccountRange { label: "Informatikaufwand", total_label: "Total Informatikaufwand", from: 6600, to: 6699 },
        AccountRange { label: "Werbeaufwand", total_label: "Total Werbeaufwand", from: 6700, to: 6799 },
    ];
    assert(s3@.map_values(|r: AccountRange| r@) =~= income_statement_sections()[3].2);
    let s4 = vec![
        AccountRange { label: "Abschreibungen", total_label: "Total Abschreibungen", from: 6800, to: 6899 },
    ];
    assert(s4@.map_values(|r: AccountRange| r@) =~= income_statement_sections()[4].2);
    let s5 = vec![
        AccountRange { label: "Finanzaufwand", total_label: "Total Finanzaufwand", from: 6900, to: 6949 },
        AccountRange { label: "Finanzertrag", total_label: "Total Finanzertrag", from: 6950, to: 6999 },
    ];
    assert(s5@.map_values(|r: AccountRange| r@) =~= income_statement_sections()[5].2);
    let s6 = vec![
        AccountRange { label: "Betriebsfremder Aufwand", total_label: "Total Betriebsfr. Aufw.", from: 8000, to: 8099 },
        AccountRange { label: "Betriebsfremder Ertrag", total_label: "Total Betriebsfr. Ertr.", from: 8100, to: 8499 },
        AccountRange { label: "Ausserordentlicher Aufwand", total_label: "Total A.o. Aufwand", from: 8500, to: 8599 },
        AccountRange { label: "Ausserordentlicher Ertrag", total_label: "Total A.o. Ertrag", from: 8600, to: 8799 },
    ];
    assert(s6@.map_values(|r: AccountRange| r@) =~= income_statement_sections()[6].2);
    let s7 = vec![
        AccountRange { label: "Direkte Steuern", total_label: "Total Steuern", from: 8900, to: 8999 },
    ];
    assert(s7@.map_values(|r: AccountRange| r@) =~= income_statement_sections()[7].2);
    let r = vec![
        ("operating_revenue", "Betriebsertrag aus Lieferungen und Leistungen", s0),
        ("material_expense", "Aufwand für Material, Handelsware und Drittleistungen", s1),
        ("personnel_expense", "Personalaufwand", s2),
        ("other_opex", "Übriger betrieblicher Aufwand", s3),
        ("depreciation", "Abschreibungen und Wertberichtigungen", s4),
        ("financial_result", "Finanzergebnis", s5),
        ("extraordinary", "Betriebsfremder, ausserordentlicher Erfolg", s6),
        ("taxes", "Steuern", s7),
    ];
    assert(sections_view(r@) =~= income_statement_sections());
    proof {
        lemma_kmu_groups_disjoint();
    }
    r
}

/// The account numbers that group `j` of section `i` covers.
pub open spec fn covers(sections: Seq<SectionView>, i: int, j: int, n: i32) -> bool {
    0 <= i < sections.len() && 0 <= j < sections[i].2.len() && sections[i].2[j].2 <= n
        <= sections[i].2[j].3
}

/// No account number falls in two groups of the sections: the ranges of
/// any two different groups are apart.
pub open spec fn groups_disjoint(sections: Seq<SectionView>) -> bool {
    forall|i: int, j: int, k: int, l: int, n: i32|
        #![trigger covers(sections, i, j, n), covers(sections, k, l, n)]
        covers(sections, i, j, n) && covers(sections, k, l, n) ==> i == k && j == l
}

/// The groups are listed in increasing order of their ranges: within a
/// section and from one section to the next, every group ends before the
/// next one starts.
pub open spec fn groups_ascending(sections: Seq<SectionView>) -> bool {
    &&& forall|i: int| 0 <= i < sections.len() ==> (#[trigger] sections[i]).2.len() > 0
    &&& forall|i: int, j: int|
        0 <= i < sections.len() && 0 <= j < sections[i].2.len() ==> (#[trigger] sections[i].2[j]).2
            <= sections[i].2[j].3
    &&& forall|i: int, j: int|
        0 <= i < sections.len() && 0 <= j < sections[i].2.len() - 1 ==> (#[trigger] sections[i].2[j]).3
            < sections[i].2[j + 1].2
    &&& forall|i: int|
        0 <= i < sections.len() - 1 ==> (#[trigger] sections[i]).2.last().3 < sections[i + 1].2[0].2
}

/// Within a section listed in ascending order, a group ends before any later
/// group starts.
proof fn lemma_later_group_after(s: Seq<SectionView>, i: int, j: int, l: int)
    requires
        groups_ascending(s),
        0 <= i < s.len(),
        0 <= j < l < s[i].2.len(),
    ensures
        s[i].2[j].3 < s[i].2[l].2,
    decreases l - j,
{
    if l > j + 1 {
        lemma_later_group_after(s, i, j, l - 1);
        assert(s[i].2[l - 1].2 <= s[i].2[l - 1].3);
        assert(s[i].2[l - 1].3 < s[i].2[l].2);
    } else {
        assert(s[i].2[j].3 < s[i].2[j + 1].2);
    }
}

/// In sections listed in ascending order, every group of a section ends
/// before any group of a later section starts.
proof fn lemma_later_section_after(s: Seq<SectionView>, i: int, j: int, k: int, l: int)
    requires
        groups_ascending(s),
        0 <= i < k < s.len(),
        0 <= j < s[i].2.len(),
        0 <= l < s[k].2.len(),
    ensures
        s[i].2[j].3 < s[k].2[l].2,
    decreases k - i,
{
    let last = s[i].2.len() - 1;
    assert(s[i].2[last] == s[i].2.last());
    if j < last {
        lemma_later_group_after(s, i, j, last);
        assert(s[i].2[last].2 <= s[i].2[last].3);
    }
    assert(s[i].2.last().3 < s[i + 1].2[0].2);
    assert(s[i + 1].2.len() > 0);
    if k == i + 1 {
        if l > 0 {
            lemma_later_group_after(s, k, 0, l);
            assert(s[k].2[0].2 <= s[k].2[0].3);
        }
    } else {
        let last1 = s[i + 1].2.len() - 1;
        lemma_later_section_after(s, i + 1, last1, k, l);
        assert(s[i + 1].2[0].2 <= s[i + 1].2[0].3);
        if last1 > 0 {
            lemma_later_group_after(s, i + 1, 0, last1);
            assert(s[i + 1].2[last1].2 <= s[i + 1].2[last1].3);
        }
    }
}

/// Groups listed in ascending order are disjoint.
proof fn lemma_ascending_disjoint(s: Seq<SectionView>)
    requires
        groups_ascending(s),
    ensures
        groups_disjoint(s),
{
    assert forall|i: int, j: int, k: int, l: int, n: i32|
        covers(s, i, j, n) && covers(s, k, l, n) implies i == k && j == l by {
        if i < k {
            lemma_later_section_after(s, i, j, k, l);
        } else if k < i {
            lemma_later_section_after(s, k, l, i, j);
        } else if j < l {
            lemma_later_group_after(s, i, j, l);
        } else if l < j {
            lemma_later_group_after(s, i, l, j);
        }
    }
}

/// The groups of the liability and equity side and of the income
/// statement are disjoint: no account falls in two groups, so no balance
/// is counted twice in a section total. (On the asset side the groups
/// "Andere kurzfristige Forderungen" and "Vorräte und nicht fakturierte
/// Dienstleistungen" both cover 1200-1299.)
pub proof fn lemma_kmu_groups_disjoint()
    ensures
        groups_disjoint(balance_sheet_liabilities()),
        groups_disjoint(income_statement_sections()),
{
    assert(groups_ascending(balance_sheet_liabilities()));
    lemma_ascending_disjoint(balance_sheet_liabilities());
    assert(groups_ascending(income_statement_sections()));
    lemma_ascending_disjoint(income_statement_sections());
}

/// The groups agree with the account types that an account number implies:
/// every account that a group of the assets side covers is an asset, every
/// account of the first two liability sections a liability, every account
/// of the equity section equity; in the income statement the operating
/// revenue section covers revenue accounts and all other sections expense
/// accounts.
pub proof fn lemma_groups_match_account_types(i: int, j: int, n: i32)
    ensures
        covers(balance_sheet_assets(), i, j, n) ==> account_type_of(n) == "asset"@,
        covers(balance_sheet_liabilities(), i, j, n) ==> account_type_of(n) == (if i < 2 {
            "liability"@
        } else {
            "equity"@
        }),
        covers(income_statement_sections(), i, j, n) ==> account_type_of(n) == (if i == 0 {
            "revenue"@
        } else {
            "expense"@
        }),
{
    let a = balance_sheet_assets();
    let l = balance_sheet_liabilities();
    let s = income_statement_sections();
    if covers(a, i, j, n) {
        assert(forall|x: int, y: int| 0 <= x < a.len() && 0 <= y < a[x].2.len() ==> 1000 <= #[trigger] a[x].2[y].2 && a[x].2[y].3 <= 1799);
    }
    if covers(l, i, j, n) {
        assert(forall|x: int, y: int| 0 <= x < 2 && 0 <= y < l[x].2.len() ==> 2000 <= #[trigger] l[x].2[y].2 && l[x].2[y].3 <= 2799);
        assert(forall|y: int| 0 <= y < l[2].2.len() ==> 2800 <= #[trigger] l[2].2[y].2 && l[2].2[y].3 <= 2999);
    }
    if covers(s, i, j, n) {
        assert(forall|y: int| 0 <= y < s[0].2.len() ==> 3000 <= #[trigger] s[0].2[y].2 && s[0].2[y].3 <= 3999);
        assert(forall|x: int, y: int| 1 <= x < s.len() && 0 <= y < s[x].2.len() ==> 4000 <= #[trigger] s[x].2[y].2 && s[x].2[y].3 <= 8999);
    }
}

/// A row of the trial balance as the grouping reads it: the account's
/// number and its balance.
#[derive(Clone, Copy)]
pub struct TrialBalanceRow {
    pub account_number: i32,
    pub balance: Amount,
}

/// Every balance of the rows is a valid decimal.
pub open spec fn rows_wf(rows: Seq<TrialBalanceRow>) -> bool {
    forall|i: int| 0 <= i < rows.len() ==> (#[trigger] rows[i]).balance.wf()
}

/// One group of accounts with its subtotal.
pub struct AccountGroupResult {
    pub label: String,
    pub total_label: String,
    pub accounts: Vec<TrialBalanceRow>,
    pub subtotal: Amount,
}

/// `(label, total label, accounts, subtotal)`.
pub type GroupView = (Seq<char>, Seq<char>, Seq<TrialBalanceRow>, (int, nat));

impl View for AccountGroupResult {
    type V = GroupView;

    open spec fn view(&self) -> GroupView {
        (self.label@, self.total_label@, self.accounts@, self.subtotal@)
    }
}

/// A top-level section (such as the current assets) with its groups and
/// total.
pub struct GroupedSection {
    pub key: String,
    pub label: String,
    pub groups: Vec<AccountGroupResult>,
    pub total: Amount,
}

/// `(key, label, groups, total)`.
pub type GroupedSectionView = (Seq<char>, Seq<char>, Seq<GroupView>, (int, nat));

pub open spec fn groups_view(v: Seq<AccountGroupResult>) -> Seq<GroupView> {
    v.map_values(|g: AccountGroupResult| g@)
}

impl View for GroupedSection {
    type V = GroupedSectionView;

    open spec fn view(&self) -> GroupedSectionView {
        (self.key@, self.label@, groups_view(self.groups@), self.total@)
    }
}

pub open spec fn ranges_view(v: Seq<AccountRange>) -> Seq<AccountRangeView> {
    v.map_values(|r: AccountRange| r@)
}

/// The rows numbered `from..=to`, in their order.
pub open spec fn range_members(rows: Seq<TrialBalanceRow>, from: i32, to: i32) -> Seq<
    TrialBalanceRow,
>
    decreases rows.len(),
{
    if rows.len() == 0 {
        Seq::empty()
    } else {
        let m = range_members(rows.drop_last(), from, to);
        if from <= rows.last().account_number <= to {
            m.push(rows.last())
        } else {
            m
        }
    }
}

/// A balance, negated where `negate` is set.
pub open spec fn signed(b: (int, nat), negate: bool) -> (int, nat) {
    if negate {
        (-b.0, b.1)
    } else {
        b
    }
}

/// The sum of the (signed) balances as `Decimal` addition gives it from
/// zero up; `None` where an addition overflows.
pub open spec fn balance_sum(rows: Seq<TrialBalanceRow>, negate: bool) -> Option<(int, nat)>
    decreases rows.len(),
{
    if rows.len() == 0 {
        Some((0int, 0nat))
    } else {
        match balance_sum(rows.drop_last(), negate) {
            None => None,
            Some(t) => dec_checked_add(t, signed(rows.last().balance@, negate)),
        }
    }
}

/// The group of one range: its rows and their subtotal.
pub open spec fn range_group(rows: Seq<TrialBalanceRow>, range: AccountRangeView, negate: bool) -> Option<
    GroupView,
> {
    let members = range_members(rows, range.2, range.3);
    match balance_sum(members, negate) {
        None => None,
        Some(s) => Some((range.0, range.1, members, s)),
    }
}

/// A group is shown where it has accounts or a subtotal other than zero.
pub open spec fn shown(g: GroupView) -> bool {
    g.2.len() > 0 || value(g.3) != 0
}

/// The shown groups of the ranges, in the ranges' order; `None` where a
/// subtotal overflows.
pub open spec fn groups_by_range(
    rows: Seq<TrialBalanceRow>,
    ranges: Seq<AccountRangeView>,
    negate: bool,
) -> Option<Seq<GroupView>>
    decreases ranges.len(),
{
    if ranges.len() == 0 {
        Some(Seq::empty())
    } else {
        match (
            groups_by_range(rows, ranges.drop_last(), negate),
            range_group(rows, ranges.last(), negate),
        ) {
            (Some(gs), Some(g)) => Some(
                if shown(g) {
                    gs.push(g)
                } else {
                    gs
                },
            ),
            _ => None,
        }
    }
}

/// The sum of the groups' subtotals from zero up; `None` on overflow.
pub open spec fn subtotal_sum(groups: Seq<GroupView>) -> Option<(int, nat)>
    decreases groups.len(),
{
    if groups.len() == 0 {
        Some((0int, 0nat))
    } else {
        match subtotal_sum(groups.drop_last()) {
            None => None,
            Some(t) => dec_checked_add(t, groups.last().3),
        }
    }
}

/// The sections of the definitions with their shown groups and totals;
/// `None` where a sum overflows.
pub open spec fn grouped_sections(
    defs: Seq<SectionView>,
    rows: Seq<TrialBalanceRow>,
    negate: bool,
) -> Option<Seq<GroupedSectionView>>
    decreases defs.len(),
{
    if defs.len() == 0 {
        Some(Seq::empty())
    } else {
        let d = defs.last();
        match (grouped_sections(defs.drop_last(), rows, negate), groups_by_range(rows, d.2, negate)) {
            (Some(ss), Some(gs)) => match subtotal_sum(gs) {
                None => None,
                Some(t) => Some(ss.push((d.0, d.1, gs, t))),
            },
            _ => None,
        }
    }
}

/// The rows numbered `from..=to`.
fn members_of(rows: &[TrialBalanceRow], from: i32, to: i32) -> (r: Vec<TrialBalanceRow>)
    ensures
        r@ == range_members(rows@, from, to),
{
    let mut out: Vec<TrialBalanceRow> = Vec::new();
    let mut j: usize = 0;
    while j < rows.len()
        invariant
            j <= rows@.len(),
            out@ == range_members(rows@.take(j as int), from, to),
        decreases rows.len() - j,
    {
        let row = rows[j];
        assert(rows@.take(j + 1).drop_last() =~= rows@.take(j as int));
        if from <= row.account_number && row.account_number <= to {
            out.push(row);
        }
        j += 1;
    }
    assert(rows@.take(rows@.len() as int) =~= rows@);
    out
}

/// The sum of the (signed) balances of the rows.
fn sum_balances(rows: &Vec<TrialBalanceRow>, negate: bool) -> (r: Option<Amount>)
    requires
        rows_wf(rows@),
    ensures
        match balance_sum(rows@, negate) {
            Some(s) => r matches Some(a) && a@ == s && a.wf(),
            None => r is None,
        },
{
    let mut total = Amount::zero();
    let mut j: usize = 0;
    while j < rows.len()
        invariant
            j <= rows@.len(),
            rows_wf(rows@),
            balance_sum(rows@.take(j as int), negate) == Some(total@),
            total.wf(),
        decreases rows.len() - j,
    {
        assert(rows@.take(j + 1).drop_last() =~= rows@.take(j as int));
        let b = rows[j].balance;
        assert(b.wf());
        let x = if negate {
            b.neg()
        } else {
            b
        };
        match total.checked_add(x) {
            Some(t) => total = t,
            None => {
                proof {
                    lemma_sum_none_extends(rows@, negate, j + 1);
                }
                return None;
            },
        }
        j += 1;
    }
    assert(rows@.take(rows@.len() as int) =~= rows@);
    Some(total)
}

/// Once the running sum of the balances has overflowed, the sum over any
/// longer prefix is undefined too.
proof fn lemma_sum_none_extends(rows: Seq<TrialBalanceRow>, negate: bool, k: int)
    requires
        0 <= k <= rows.len(),
        balance_sum(rows.take(k), negate) is None,
    ensures
        balance_sum(rows, negate) is None,
    decreases rows.len() - k,
{
    if k < rows.len() {
        assert(rows.take(k + 1).drop_last() =~= rows.take(k));
        lemma_sum_none_extends(rows, negate, k + 1);
    } else {
        assert(rows.take(k) =~= rows);
    }
}

/// Once a range's subtotal has overflowed, the groups of any longer prefix
/// of the ranges are undefined too.
proof fn lemma_groups_none_extends(
    rows: Seq<TrialBalanceRow>,
    ranges: Seq<AccountRangeView>,
    negate: bool,
    k: int,
)
    requires
        0 <= k <= ranges.len(),
        groups_by_range(rows, ranges.take(k), negate) is None,
    ensures
        groups_by_range(rows, ranges, negate) is None,
    decreases ranges.len() - k,
{
    if k < ranges.len() {
        assert(ranges.take(k + 1).drop_last() =~= ranges.take(k));
        lemma_groups_none_extends(rows, ranges, negate, k + 1);
    } else {
        assert(ranges.take(k) =~= ranges);
    }
}

/// Groups the trial balance rows by the account-number ranges: for each
/// range its rows and the sum of their balances (negated where `negate`
/// is set), leaving out groups with no accounts and a zero subtotal.
/// `None` where a subtotal overflows.
pub fn group_accounts_by_range(
    rows: &[TrialBalanceRow],
    ranges: &[AccountRange],
    negate: bool,
) -> (r: Option<Vec<AccountGroupResult>>)
    requires
        rows_wf(rows@),
    ensures
        match groups_by_range(rows@, ranges_view(ranges@), negate) {
            Some(gs) => r matches Some(v) && groups_view(v@) == gs && (forall|i: int|
                0 <= i < v@.len() ==> (#[trigger] v@[i]).subtotal.wf()),
            None => r is None,
        },
{
    let mut out: Vec<AccountGroupResult> = Vec::new();
    let mut i: usize = 0;
    while i < ranges.len()
        invariant
            i <= ranges@.len(),
            rows_wf(rows@),
            groups_by_range(rows@, ranges_view(ranges@).take(i as int), negate) == Some(
                groups_view(out@),
            ),
            forall|k: int| 0 <= k < out@.len() ==> (#[trigger] out@[k]).subtotal.wf(),
        decreases ranges.len() - i,
    {
        let range = &ranges[i];
        assert(ranges_view(ranges@).take(i + 1).drop_last() =~= ranges_view(ranges@).take(
            i as int,
        ));
        assert(ranges_view(ranges@).take(i + 1).last() == range@);
        let accounts = members_of(rows, range.from, range.to);
        assert(rows_wf(accounts@)) by {
            lemma_members_wf(rows@, range.from, range.to);
        }
        let subtotal = match sum_balances(&accounts, negate) {
            Some(s) => s,
            None => {
                proof {
                    lemma_groups_none_extends(rows@, ranges_view(ranges@), negate, i + 1);
                }
                return None;
            },
        };
        let zero = Amount::zero();
        if accounts.len() > 0 || !subtotal.eq(zero) {
            let g = AccountGroupResult {
                label: range.label.to_owned(),
                total_label: range.total_label.to_owned(),
                accounts,
                subtotal,
            };
            let ghost before = out@;
            out.push(g);
            assert(groups_view(out@) =~= groups_view(before).push(g@));
        }
        i += 1;
    }
    assert(ranges_view(ranges@).take(ranges@.len() as int) =~= ranges_view(ranges@));
    Some(out)
}

/// The rows of a range are rows of the trial balance.
proof fn lemma_members_wf(rows: Seq<TrialBalanceRow>, from: i32, to: i32)
    requires
        rows_wf(rows),
    ensures
        rows_wf(range_members(rows, from, to)),
    decreases rows.len(),
{
    if rows.len() > 0 {
        assert(rows_wf(rows.drop_last()));
        lemma_members_wf(rows.drop_last(), from, to);
    }
}

pub open spec fn sections_result_view(v: Seq<GroupedSection>) -> Seq<GroupedSectionView> {
    v.map_values(|s: GroupedSection| s@)
}

/// The sum of the groups' subtotals.
fn sum_subtotals(groups: &Vec<AccountGroupResult>) -> (r: Option<Amount>)
    requires
        forall|i: int| 0 <= i < groups@.len() ==> (#[trigger] groups@[i]).subtotal.wf(),
    ensures
        match subtotal_sum(groups_view(groups@)) {
            Some(s) => r matches Some(a) && a@ == s && a.wf(),
            None => r is None,
        },
{
    let ghost gv = groups_view(groups@);
    let mut total = Amount::zero();
    let mut j: usize = 0;
    while j < groups.len()
        invariant
            j <= groups@.len(),
            gv == groups_view(groups@),
            forall|i: int| 0 <= i < groups@.len() ==> (#[trigger] groups@[i]).subtotal.wf(),
            subtotal_sum(gv.take(j as int)) == Some(total@),
            total.wf(),
        decreases groups.len() - j,
    {
        assert(gv.take(j + 1).drop_last() =~= gv.take(j as int));
        assert(gv.take(j + 1).last() == groups@[j as int]@);
        match total.checked_add(groups[j].subtotal) {
            Some(t) => total = t,
            None => {
                proof {
                    lemma_subtotals_none_extends(gv, j + 1);
                }
                return None;
            },
        }
        j += 1;
    }
    assert(gv.take(gv.len() as int) =~= gv);
    Some(total)
}

/// Once the running sum of the subtotals has overflowed, the sum over any
/// longer prefix is undefined too.
proof fn lemma_subtotals_none_extends(groups: Seq<GroupView>, k: int)
    requires
        0 <= k <= groups.len(),
        subtotal_sum(groups.take(k)) is None,
    ensures
        subtotal_sum(groups) is None,
    decreases groups.len() - k,
{
    if k < groups.len() {
        assert(groups.take(k + 1).drop_last() =~= groups.take(k));
        lemma_subtotals_none_extends(groups, k + 1);
    } else {
        assert(groups.take(k) =~= groups);
    }
}

/// Once a section cannot be built, the sections of any longer prefix of
/// the definitions cannot be either.
proof fn lemma_sections_none_extends(
    defs: Seq<SectionView>,
    rows: Seq<TrialBalanceRow>,
    negate: bool,
    k: int,
)
    requires
        0 <= k <= defs.len(),
        grouped_sections(defs.take(k), rows, negate) is None,
    ensures
        grouped_sections(defs, rows, negate) is None,
    decreases defs.len() - k,
{
    if k < defs.len() {
        assert(defs.take(k + 1).drop_last() =~= defs.take(k));
        lemma_sections_none_extends(defs, rows, negate, k + 1);
    } else {
        assert(defs.take(k) =~= defs);
    }
}

/// Builds the sections of the definitions from the trial balance: for each
/// its groups (see `group_accounts_by_range`) and the sum of their
/// subtotals. `None` where a sum overflows.
pub fn build_grouped_sections(
    definitions: &[(&'static str, &'static str, Vec<AccountRange>)],
    rows: &[TrialBalanceRow],
    negate: bool,
) -> (r: Option<Vec<GroupedSection>>)
    requires
        rows_wf(rows@),
    ensures
        match grouped_sections(sections_view(definitions@), rows@, negate) {
            Some(ss) => r matches Some(v) && sections_result_view(v@) == ss,
            None => r is None,
        },
{
    let ghost dv = sections_view(definitions@);
    let mut out: Vec<GroupedSection> = Vec::new();
    let mut i: usize = 0;
    while i < definitions.len()
        invariant
            i <= definitions@.len(),
            dv == sections_view(definitions@),
            rows_wf(rows@),
            grouped_sections(dv.take(i as int), rows@, negate) == Some(sections_result_view(out@)),
        decreases definitions.len() - i,
    {
        let d = &definitions[i];
        assert(dv.take(i + 1).drop_last() =~= dv.take(i as int));
        assert(d.2@.map_values(|r: AccountRange| r@) =~= ranges_view(d.2@));
        assert(dv.take(i + 1).last() == (d.0@, d.1@, ranges_view(d.2@)));
        let groups = match group_accounts_by_range(rows, d.2.as_slice(), negate) {
            Some(g) => g,
            None => {
                proof {
                    lemma_sections_none_extends(dv, rows@, negate, i + 1);
                }
                return None;
            },
        };
        let total = match sum_subtotals(&groups) {
            Some(t) => t,
            None => {
                proof {
                    lemma_sections_none_extends(dv, rows@, negate, i + 1);
                }
                return None;
            },
        };
        let sec = GroupedSection { key: d.0.to_owned(), label: d.1.to_owned(), groups, total };
        let ghost before = out@;
        out.push(sec);
        assert(sections_result_view(out@) =~= sections_result_view(before).push(sec@));
        i += 1;
    }
    assert(dv.take(dv.len() as int) =~= dv);
    Some(out)
}

} // verus!
