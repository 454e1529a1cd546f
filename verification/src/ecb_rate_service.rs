//! The ECB's daily reference rates (`eurofxref-daily.xml`): the date of the
//! rates and the units of each currency per euro.
use vstd::prelude::*;

use crate::amount::Amount;
use crate::bank_import::{
    attributes_of, dec_parse, document_events, first_stop, iso_date_parse, parse_decimal,
    parse_iso_date, statement_events, xml_attributes, xml_document_events, FullEvent, XmlEvent,
    full_view, full_views, attrs_view,
};
use crate::error::{AppError, ErrorKind};
use crate::text::str_eq;

verus! {

/// What a `Cube` element's attributes set: the last `time`, the last
/// `currency`, and the parsed value of the last `rate` (`None` where it does
/// not parse).
pub open spec fn cube_attrs(a: Seq<(Seq<char>, Seq<char>)>) -> (Option<Seq<char>>, Option<Seq<char>>, Option<(int, nat)>)
    decreases a.len(),
{
    if a.len() == 0 {
        (None, None, None)
    } else {
        let (t, c, r) = cube_attrs(a.drop_last());
        let (k, v) = a.last();
        if k == "time"@ {
            (Some(v), c, r)
        } else if k == "currency"@ {
            (t, Some(v), r)
        } else if k == "rate"@ {
            (t, c, dec_parse(v))
        } else {
            (t, c, r)
        }
    }
}

/// The first position of currency `k` in the rates, from `i` on.
pub open spec fn rate_index(rates: Seq<(Seq<char>, (int, nat))>, k: Seq<char>, i: int) -> Option<int>
    decreases rates.len() - i,
{
    if i < 0 || i >= rates.len() {
        None
    } else if rates[i].0 == k {
        Some(i)
    } else {
        rate_index(rates, k, i + 1)
    }
}

/// The rates with currency `k` at rate `v`: replaced where it is listed,
/// else added at the end.
pub open spec fn upsert(rates: Seq<(Seq<char>, (int, nat))>, k: Seq<char>, v: (int, nat)) -> Seq<(Seq<char>, (int, nat))> {
    match rate_index(rates, k, 0) {
        Some(i) => rates.update(i, (k, v)),
        None => rates.push((k, v)),
    }
}

/// The date and rates read so far.
pub type FeedState = (Option<(int, int, int)>, Seq<(Seq<char>, (int, nat))>);

/// One event of the feed: a `Cube` start or empty tag with a `time` sets the
/// date (to none where it does not parse); one with a currency and a rate
/// that parses sets that currency's rate.
pub open spec fn feed_step(st: FeedState, e: FullEvent) -> FeedState {
    if (e.0 == 0 || e.0 == 6) && e.1 == "Cube"@ {
        let (t, c, r) = cube_attrs(xml_attributes(e.2));
        let date = match t {
            Some(t) => iso_date_parse(t),
            None => st.0,
        };
        let rates = match (c, r) {
            (Some(c), Some(r)) => upsert(st.1, c, r),
            _ => st.1,
        };
        (date, rates)
    } else {
        st
    }
}

/// The state after the first `k` events: no date, and the euro at one.
pub open spec fn feed_after(events: Seq<FullEvent>, k: int) -> FeedState
    decreases k,
{
    if k <= 0 {
        (None, seq![("EUR"@, (1int, 0nat))])
    } else {
        feed_step(feed_after(events, k - 1), events[k - 1])
    }
}

/// What a feed's events give: at the first reading error its message;
/// else, at the end of the document, the date and the rates, or an error
/// where no date was read.
pub open spec fn ecb_feed(events: Seq<FullEvent>) -> Result<((int, int, int), Seq<(Seq<char>, (int, nat))>), Seq<char>> {
    let k = match first_stop(statement_events(events), 0) {
        Some(k) => k,
        None => events.len() as int,
    };
    if k < events.len() && events[k].0 == 4 {
        Err("Invalid ECB feed XML: "@ + events[k].1)
    } else {
        match feed_after(events, k).0 {
            None => Err("ECB feed missing rate date"@),
            Some(d) => Ok((d, feed_after(events, k).1)),
        }
    }
}

pub open spec fn rates_view(v: Seq<(String, Amount)>) -> Seq<(Seq<char>, (int, nat))> {
    v.map_values(|p: (String, Amount)| (p.0@, p.1@))
}

pub open spec fn opt_str(o: Option<String>) -> Option<Seq<char>> {
    match o {
        Some(s) => Some(s@),
        None => None,
    }
}

pub open spec fn opt_dec(o: Option<Amount>) -> Option<(int, nat)> {
    match o {
        Some(a) => Some(a@),
        None => None,
    }
}

/// The time, currency and rate of a `Cube` tag's attributes.
fn cube_attributes(raw: &str) -> (r: (Option<String>, Option<String>, Option<Amount>))
    ensures
        (opt_str(r.0), opt_str(r.1), opt_dec(r.2)) == cube_attrs(xml_attributes(raw@)),
        r.2 matches Some(a) ==> a.wf(),
{
    let attrs = attributes_of(raw);
    let ghost av = attrs_view(attrs@);
    let mut time: Option<String> = None;
    let mut currency: Option<String> = None;
    let mut rate: Option<Amount> = None;
    let mut i: usize = 0;
    while i < attrs.len()
        invariant
            i <= attrs.len(),
            av == attrs_view(attrs@),
            (opt_str(time), opt_str(currency), opt_dec(rate)) == cube_attrs(av.take(i as int)),
            rate matches Some(a) ==> a.wf(),
        decreases attrs.len() - i,
    {
        assert(av.take(i + 1).drop_last() =~= av.take(i as int));
        assert(av.take(i + 1).last() == (attrs@[i as int].0@, attrs@[i as int].1@));
        let (k, v) = &attrs[i];
        if str_eq(k.as_str(), "time") {
            time = Some(v.clone());
        } else if str_eq(k.as_str(), "currency") {
            currency = Some(v.clone());
        } else if str_eq(k.as_str(), "rate") {
            rate = parse_decimal(v.as_str());
        }
        i += 1;
    }
    assert(av.take(attrs.len() as int) =~= av);
    (time, currency, rate)
}

/// Sets currency `k` to rate `v` (see `upsert`).
fn upsert_rate(rates: &mut Vec<(String, Amount)>, k: String, v: Amount)
    ensures
        rates_view(final(rates)@) == upsert(rates_view(old(rates)@), k@, v@),
{
    let ghost rv = rates_view(rates@);
    let mut i: usize = 0;
    while i < rates.len()
        invariant
            i <= rates.len(),
            rv == rates_view(rates@),
            rates@ == old(rates)@,
            rate_index(rv, k@, 0) == rate_index(rv, k@, i as int),
        decreases rates.len() - i,
    {
        assert(rv[i as int].0 == rates@[i as int].0@);
        if str_eq(rates[i].0.as_str(), k.as_str()) {
            let ghost kv = k@;
            rates.set(i, (k, v));
            assert(rates_view(rates@) =~= rv.update(i as int, (kv, v@)));
            return;
        }
        i += 1;
    }
    let ghost kv = k@;
    rates.push((k, v));
    assert(rates_view(rates@) =~= rv.push((kv, v@)));
}

/// Parses the ECB daily feed into its date and the units of each currency
/// per euro (the euro itself at one, each currency once, in the order it
/// first appears): see `ecb_feed`. A reading error is answered with
/// `Validation("Invalid ECB feed XML: ...")`, a feed without a date with
/// `Validation("ECB feed missing rate date")`.
pub fn parse_ecb_feed(xml: &str) -> (r: Result<((i32, u32, u32), Vec<(String, Amount)>), AppError>)
    ensures
        match ecb_feed(document_events(xml@)) {
            Ok((d, rates)) => r matches Ok((d2, v)) && (d2.0 as int, d2.1 as int, d2.2 as int) == d
                && rates_view(v@) == rates,
            Err(m) => r matches Err(e) && e.kind_and_message() == (ErrorKind::Validation, m),
        },
{
    let events = xml_document_events(xml);
    let ghost ev = full_views(events@);
    let ghost sv = statement_events(ev);
    let mut date: Option<(i32, u32, u32)> = None;
    let mut rates: Vec<(String, Amount)> = vec![("EUR".to_owned(), Amount::from_int(1))];
    assert(rates_view(rates@) =~= seq![("EUR"@, (1int, 0nat))]);
    let mut k: usize = 0;
    while k < events.len()
        invariant
            k <= events.len(),
            ev == full_views(events@),
            ev == document_events(xml@),
            sv == statement_events(ev),
            first_stop(sv, 0) == first_stop(sv, k as int),
            ({
                let st = feed_after(ev, k as int);
                &&& st.0 == match date {
                    Some(d) => Some((d.0 as int, d.1 as int, d.2 as int)),
                    None => None,
                }
                &&& st.1 == rates_view(rates@)
            }),
        decreases events.len() - k,
    {
        assert(ev[k as int] == full_view(events@[k as int]));
        assert(sv[k as int].0 == if ev[k as int].0 == 6 { 5 } else { ev[k as int].0 });
        match &events[k] {
            XmlEvent::Eof => {
                proof {
                    assert(first_stop(sv, k as int) == Some(k as int));
                }
                return match date {
                    Some(d) => Ok((d, rates)),
                    None => Err(AppError::Validation("ECB feed missing rate date".to_owned())),
                };
            },
            XmlEvent::Error(m) => {
                proof {
                    assert(first_stop(sv, k as int) == Some(k as int));
                }
                let mut msg = "Invalid ECB feed XML: ".to_owned();
                msg.append(m.as_str());
                return Err(AppError::Validation(msg));
            },
            XmlEvent::Start(name, raw) | XmlEvent::Empty(name, raw) => {
                if str_eq(name.as_str(), "Cube") {
                    let (t, c, rate) = cube_attributes(raw.as_str());
                    match t {
                        Some(t) => {
                            date = parse_iso_date(t.as_str());
                        },
                        None => {},
                    }
                    match (c, rate) {
                        (Some(c), Some(rt)) => {
                            upsert_rate(&mut rates, c, rt);
                        },
                        _ => {},
                    }
                }
            },
            _ => {},
        }
        k += 1;
    }
    match date {
        Some(d) => Ok((d, rates)),
        None => Err(AppError::Validation("ECB feed missing rate date".to_owned())),
    }
}

} // verus!
