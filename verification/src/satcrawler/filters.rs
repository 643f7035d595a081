//! The date ranges an invoice download searches, one search per range.
use vstd::prelude::*;

use crate::dates::{
    chrono_date, chrono_date_text, chrono_format_date, chrono_parse_date, four_digit_year,
    mx_text, today_utc, Date,
};
use crate::satcrawler::config::CrawlerFilters;
use crate::satcrawler::constants::{FILTER_START_YEAR, MX_DATE_FORMAT};

verus! {

/// The `dd/mm/YYYY` text chrono writes for a day.
pub open spec fn mx_date(d: Date) -> Seq<char> {
    chrono_date_text(d.year as int, d.month as int, d.day as int, "%d/%m/%Y"@)
}

/// Writes a day as `dd/mm/YYYY`, the way the SAT portal shows dates.
pub fn set_mx_date_format(date: Date) -> (r: String)
    requires
        date.valid(),
    ensures
        r@ == mx_date(date),
        four_digit_year(date) ==> r@ == mx_text(date),
{
    chrono_format_date(date, MX_DATE_FORMAT)
}

/// The day chrono reads from a `dd/mm/YYYY` text, if any.
pub open spec fn read_mx_date(text: Seq<char>) -> Option<Date> {
    match chrono_date(text, "%d/%m/%Y"@) {
        Some(t) => Some(Date { year: t.0 as i32, month: t.1 as u32, day: t.2 as u32 }),
        None => None,
    }
}

/// Whether `text` is the canonical `dd/mm/YYYY` text of `d`, a day with a four-digit year.
pub open spec fn canonical_mx(text: Seq<char>, d: Date) -> bool {
    d.valid() && four_digit_year(d) && text == mx_text(d)
}

fn read_mx(text: &str) -> (r: Option<Date>)
    ensures
        r == read_mx_date(text@),
        r matches Some(d) ==> d.valid(),
        forall|d: Date| canonical_mx(text@, d) ==> read_mx_date(text@) == Some(d),
{
    match chrono_parse_date(text, MX_DATE_FORMAT) {
        Ok(d) => Some(d),
        Err(_) => None,
    }
}

/// Reads a `dd/mm/YYYY` date given on the command line.
pub fn parse_date(s: &str) -> (r: Result<Date, String>)
    ensures
        r matches Ok(d) ==> read_mx_date(s@) == Some(d) && d.valid(),
        r is Err <==> read_mx_date(s@) is None,
        r matches Err(m) ==> m@ == "Invalid date '"@ + s@
            + "': expected format dd/mm/YYYY (e.g. 01/01/2024)"@,
        forall|d: Date| canonical_mx(s@, d) ==> r == Ok::<Date, String>(d),
{
    match read_mx(s) {
        Some(d) => Ok(d),
        None => {
            let mut m = "Invalid date '".to_owned();
            m.append(s);
            m.append("': expected format dd/mm/YYYY (e.g. 01/01/2024)");
            Err(m)
        },
    }
}

/// January 1st of `year`.
pub open spec fn new_year(year: int) -> Date {
    Date { year: year as i32, month: 1, day: 1 }
}

/// December 31st of `year`.
pub open spec fn year_end(year: int) -> Date {
    Date { year: year as i32, month: 12, day: 31 }
}

/// The days searched when today is `today`: each whole year from 2020 up to the one before
/// today's, then today's year up to today.
pub open spec fn search_days(today: Date) -> Seq<(Date, Date)> {
    let whole = if today.year > 2020 {
        (today.year - 2020) as nat
    } else {
        0
    };
    Seq::new(whole, |i: int| (new_year(2020 + i), year_end(2020 + i))).push(
        (new_year(today.year as int), today),
    )
}

/// Whether `r` holds the `dd/mm/YYYY` texts of the ranges `days`.
pub open spec fn texts_of(days: Seq<(Date, Date)>, r: Seq<(String, String)>) -> bool {
    &&& r.len() == days.len()
    &&& forall|i: int|
        0 <= i < r.len() ==> #[trigger] r[i].0@ == mx_date(days[i].0) && r[i].1@ == mx_date(
            days[i].1,
        )
}

/// The date ranges to search when today is `today`, as `dd/mm/YYYY` texts: each whole year from
/// 2020 up to the one before today's, then today's year up to today.
pub fn date_filters_until(today: Date) -> (r: Vec<(String, String)>)
    requires
        today.valid(),
    ensures
        texts_of(search_days(today), r@),
        four_digit_year(today) ==> forall|i: int|
            0 <= i < r@.len() ==> canonical_mx(#[trigger] r@[i].0@, search_days(today)[i].0)
                && canonical_mx(r@[i].1@, search_days(today)[i].1),
{
    let mut filters: Vec<(String, String)> = Vec::new();
    let mut year: i32 = FILTER_START_YEAR;
    let ghost whole: nat = if today.year > 2020 { (today.year - 2020) as nat } else { 0 };
    while year < today.year
        invariant
            2020 <= year,
            today.valid(),
            year <= 2020 || year <= today.year,
            whole == (if today.year > 2020 { (today.year - 2020) as nat } else { 0nat }),
            filters@.len() == year - 2020,
            forall|i: int|
                0 <= i < filters@.len() ==> #[trigger] filters@[i].0@ == mx_date(new_year(2020 + i))
                    && filters@[i].1@ == mx_date(year_end(2020 + i)) && (four_digit_year(today)
                    ==> canonical_mx(filters@[i].0@, new_year(2020 + i)) && canonical_mx(
                    filters@[i].1@,
                    year_end(2020 + i),
                )),
        decreases today.year - year,
    {
        let start = set_mx_date_format(Date { year, month: 1, day: 1 });
        let end = set_mx_date_format(Date { year, month: 12, day: 31 });
        filters.push((start, end));
        year += 1;
    }
    let first = set_mx_date_format(Date { year: today.year, month: 1, day: 1 });
    let last = set_mx_date_format(today);
    filters.push((first, last));
    proof {
        let days = search_days(today);
        assert(filters@.len() == days.len());
        assert forall|i: int| 0 <= i < filters@.len() implies #[trigger] filters@[i].0@ == mx_date(
            days[i].0,
        ) && filters@[i].1@ == mx_date(days[i].1) by {
            if i < filters@.len() - 1 {
                assert(days[i] == (new_year(2020 + i), year_end(2020 + i)));
            }
        }
        if four_digit_year(today) {
            assert forall|i: int| 0 <= i < filters@.len() implies canonical_mx(
                #[trigger] filters@[i].0@,
                days[i].0,
            ) && canonical_mx(filters@[i].1@, days[i].1) by {
                if i < filters@.len() - 1 {
                    assert(days[i] == (new_year(2020 + i), year_end(2020 + i)));
                }
            }
        }
    }
    filters
}

/// The date ranges to search up to today (UTC), as `dd/mm/YYYY` texts.
pub fn get_all_date_filters() -> (r: Vec<(String, String)>)
    ensures
        exists|today: Date| today.valid() && texts_of(search_days(today), r@),
{
    let today = today_utc();
    date_filters_until(today)
}


/// A range cut to the filters: it starts no earlier than the filters' start and ends no later
/// than their end; none when nothing is left.
pub open spec fn clip(range: (Date, Date), f: CrawlerFilters) -> Option<(Date, Date)> {
    let start = match f.start_date {
        Some(fs) => if range.0.le(fs) { fs } else { range.0 },
        None => range.0,
    };
    let end = match f.end_date {
        Some(fe) => if fe.le(range.1) { fe } else { range.1 },
        None => range.1,
    };
    if start.le(end) {
        Some((start, end))
    } else {
        None
    }
}

/// The ranges left of `days` once cut to the filters, in order.
pub open spec fn clip_all(days: Seq<(Date, Date)>, f: CrawlerFilters) -> Seq<(Date, Date)>
    decreases days.len(),
{
    if days.len() == 0 {
        Seq::empty()
    } else {
        clip_all(days.drop_last(), f) + match clip(days.last(), f) {
            Some(r) => seq![r],
            None => Seq::empty(),
        }
    }
}

/// The ranges chrono reads from `ranges`, both ends readable, in order.
pub open spec fn read_ranges(ranges: Seq<(String, String)>) -> Seq<(Date, Date)>
    decreases ranges.len(),
{
    if ranges.len() == 0 {
        Seq::empty()
    } else {
        read_ranges(ranges.drop_last()) + match (
            read_mx_date(ranges.last().0@),
            read_mx_date(ranges.last().1@),
        ) {
            (Some(a), Some(b)) => seq![(a, b)],
            _ => Seq::empty(),
        }
    }
}

/// Cuts each `dd/mm/YYYY` range to the filters; ranges that do not read as dates, or that
/// nothing is left of, are dropped.
pub fn apply_date_filter(ranges: Vec<(String, String)>, filters: &CrawlerFilters) -> (r: Vec<
    (Date, Date),
>)
    ensures
        r@ == clip_all(read_ranges(ranges@), *filters),
        forall|k: int, d: Date|
            0 <= k < ranges@.len() && #[trigger] canonical_mx(ranges@[k].0@, d)
                ==> read_mx_date(ranges@[k].0@) == Some(d),
        forall|k: int, d: Date|
            0 <= k < ranges@.len() && #[trigger] canonical_mx(ranges@[k].1@, d)
                ==> read_mx_date(ranges@[k].1@) == Some(d),
{
    let mut out: Vec<(Date, Date)> = Vec::new();
    let n = ranges.len();
    let mut i: usize = 0;
    let ghost parsed: Seq<(Date, Date)> = Seq::empty();
    assert(ranges@.take(0) =~= Seq::<(String, String)>::empty());
    while i < n
        invariant
            n == ranges@.len(),
            i <= n,
            parsed == read_ranges(ranges@.take(i as int)),
            out@ == clip_all(parsed, *filters),
            forall|k: int, d: Date|
                0 <= k < i && #[trigger] canonical_mx(ranges@[k].0@, d) ==> read_mx_date(
                    ranges@[k].0@,
                ) == Some(d),
            forall|k: int, d: Date|
                0 <= k < i && #[trigger] canonical_mx(ranges@[k].1@, d) ==> read_mx_date(
                    ranges@[k].1@,
                ) == Some(d),
        decreases n - i,
    {
        assert(ranges@.take(i + 1).drop_last() =~= ranges@.take(i as int));
        assert(ranges@.take(i + 1).last() == ranges@[i as int]);
        let a = read_mx(ranges[i].0.as_str());
        let b = read_mx(ranges[i].1.as_str());
        match (a, b) {
            (Some(range_start), Some(range_end)) => {
                proof {
                    parsed = parsed.push((range_start, range_end));
                    assert(parsed.drop_last() =~= read_ranges(ranges@.take(i as int)));
                }
                let start = match filters.start_date {
                    Some(fs) => fs.later(range_start),
                    None => range_start,
                };
                let end = match filters.end_date {
                    Some(fe) => fe.earlier(range_end),
                    None => range_end,
                };
                if start.is_on_or_before(&end) {
                    out.push((start, end));
                }
                assert(out@ =~= clip_all(parsed, *filters));
            },
            _ => {
                assert(read_ranges(ranges@.take(i + 1)) =~= read_ranges(ranges@.take(i as int)));
            },
        }
        i += 1;
    }
    assert(ranges@.take(n as int) =~= ranges@);
    out
}


proof fn lemma_read_canonical(ranges: Seq<(String, String)>, days: Seq<(Date, Date)>)
    requires
        ranges.len() == days.len(),
        forall|i: int|
            0 <= i < ranges.len() ==> read_mx_date(#[trigger] ranges[i].0@) == Some(days[i].0)
                && read_mx_date(ranges[i].1@) == Some(days[i].1),
    ensures
        read_ranges(ranges) == days,
    decreases ranges.len(),
{
    if ranges.len() > 0 {
        let n = ranges.len() - 1;
        assert(read_mx_date(ranges[n].0@) == Some(days[n].0));
        lemma_read_canonical(ranges.drop_last(), days.drop_last());
        assert(days =~= days.drop_last() + seq![days.last()]);
    } else {
        assert(days =~= Seq::<(Date, Date)>::empty());
    }
}

/// The date ranges an invoice download searches when today is `today`: the ranges from 2020 to
/// today, written as `dd/mm/YYYY` and read back, cut to the filters. For a four-digit year the
/// texts read back as the days they were written from, so the ranges are exactly the search
/// days cut to the filters.
pub fn search_ranges_from(today: Date, filters: &CrawlerFilters) -> (r: Vec<(Date, Date)>)
    requires
        today.valid(),
    ensures
        exists|texts: Seq<(String, String)>|
            texts_of(search_days(today), texts) && r@ == clip_all(read_ranges(texts), *filters),
        four_digit_year(today) ==> r@ == clip_all(search_days(today), *filters),
{
    let texts = date_filters_until(today);
    let ghost t = texts@;
    let r = apply_date_filter(texts, filters);
    proof {
        if four_digit_year(today) {
            let days = search_days(today);
            assert forall|i: int| 0 <= i < t.len() implies read_mx_date(#[trigger] t[i].0@) == Some(
                days[i].0,
            ) && read_mx_date(t[i].1@) == Some(days[i].1) by {
                assert(canonical_mx(t[i].0@, days[i].0));
                assert(canonical_mx(t[i].1@, days[i].1));
            }
            lemma_read_canonical(t, days);
        }
    }
    r
}

/// The date ranges an invoice download searches up to today (UTC), cut to the filters.
pub fn search_ranges(filters: &CrawlerFilters) -> (r: Vec<(Date, Date)>)
    ensures
        exists|today: Date, texts: Seq<(String, String)>|
            today.valid() && texts_of(search_days(today), texts) && r@ == clip_all(
                read_ranges(texts),
                *filters,
            ) && (four_digit_year(today) ==> r@ == clip_all(search_days(today), *filters)),
{
    let today = today_utc();
    search_ranges_from(today, filters)
}

/// Whether day `d` lies in the range `r`, both ends included.
pub open spec fn in_range(d: Date, r: (Date, Date)) -> bool {
    r.0.le(d) && d.le(r.1)
}

/// Whether the filters keep day `d`: it is not before the start filter nor after the end one.
pub open spec fn kept_by(d: Date, f: CrawlerFilters) -> bool {
    &&& (f.start_date matches Some(s) ==> s.le(d))
    &&& (f.end_date matches Some(e) ==> d.le(e))
}

/// The searches skip what the filters skip: each range left after cutting to the filters
/// starts no earlier than the start filter, ends no later than the end filter, does not end
/// before it starts, and lies inside one of the ranges it was cut from.
pub proof fn lemma_clipped_ranges_within_filters(days: Seq<(Date, Date)>, f: CrawlerFilters, k: int)
    requires
        0 <= k < clip_all(days, f).len(),
    ensures
        clip_all(days, f)[k].0.le(clip_all(days, f)[k].1),
        kept_by(clip_all(days, f)[k].0, f),
        kept_by(clip_all(days, f)[k].1, f),
        exists|i: int|
            0 <= i < days.len() && in_range(clip_all(days, f)[k].0, #[trigger] days[i]) && in_range(
                clip_all(days, f)[k].1,
                days[i],
            ),
    decreases days.len(),
{
    let rest = clip_all(days.drop_last(), f);
    let n = days.len() - 1;
    if k < rest.len() {
        lemma_clipped_ranges_within_filters(days.drop_last(), f, k);
        assert(clip_all(days, f)[k] == rest[k]);
        let i = choose|i: int|
            0 <= i < days.drop_last().len() && in_range(rest[k].0, #[trigger] days.drop_last()[i])
                && in_range(rest[k].1, days.drop_last()[i]);
        assert(days[i] == days.drop_last()[i]);
    } else {
        assert(clip(days.last(), f) is Some);
        assert(clip_all(days, f)[k] == clip(days.last(), f)->0);
        assert(days[n] == days.last());
    }
}

/// The searches miss nothing the filters keep: a day inside one of the ranges that the filters
/// keep lies inside one of the ranges left after cutting.
pub proof fn lemma_clipped_ranges_cover(days: Seq<(Date, Date)>, f: CrawlerFilters, i: int, d: Date)
    requires
        0 <= i < days.len(),
        in_range(d, days[i]),
        kept_by(d, f),
    ensures
        exists|k: int| 0 <= k < clip_all(days, f).len() && in_range(d, #[trigger] clip_all(days, f)[k]),
    decreases days.len(),
{
    let rest = clip_all(days.drop_last(), f);
    if i < days.len() - 1 {
        assert(days.drop_last()[i] == days[i]);
        lemma_clipped_ranges_cover(days.drop_last(), f, i, d);
        let k = choose|k: int| 0 <= k < rest.len() && in_range(d, #[trigger] rest[k]);
        assert(clip_all(days, f)[k] == rest[k]);
    } else {
        assert(days.last() == days[i]);
        assert(clip(days.last(), f) is Some);
        assert(clip_all(days, f)[rest.len() as int] == clip(days.last(), f)->0);
    }
}

/// The searches reach back to 2020: every real day from January 1st, 2020, to today lies in one
/// of the ranges searched when today is `today`.
pub proof fn lemma_search_days_cover(today: Date, d: Date)
    requires
        today.valid(),
        d.valid(),
        new_year(2020).le(d),
        d.le(today),
    ensures
        exists|i: int| 0 <= i < search_days(today).len() && in_range(d, #[trigger] search_days(today)[i]),
{
    let days = search_days(today);
    let whole: int = if today.year > 2020 { today.year - 2020 } else { 0 };
    assert(days.len() == whole + 1);
    if d.year < today.year {
        let i = d.year - 2020;
        assert(0 <= i < whole);
        assert(days[i] == (new_year(2020 + i), year_end(2020 + i)));
        assert(in_range(d, days[i]));
    } else {
        assert(days[whole] == (new_year(today.year as int), today));
        assert(in_range(d, days[whole]));
    }
}

/// The (year, month) searches of the received-invoices page for `ranges`: for each range, every
/// month from its start's to its end's, in the year of its start.
pub open spec fn months_of(ranges: Seq<(Date, Date)>) -> Seq<(u32, u32)>
    decreases ranges.len(),
{
    if ranges.len() == 0 {
        Seq::empty()
    } else {
        let r = ranges.last();
        months_of(ranges.drop_last()) + Seq::new(
            if r.1.month >= r.0.month { (r.1.month - r.0.month + 1) as nat } else { 0 },
            |i: int| (r.0.year as u32, (r.0.month + i) as u32),
        )
    }
}

/// The searched ranges run from January 1st, 2020, to today in order and without overlap: each
/// starts no later than it ends, none starts before 2020 or ends after today, each ends before
/// the next starts, and each lies within a single year.
pub proof fn lemma_search_days_ordered(today: Date)
    requires
        today.valid(),
        new_year(2020).le(today),
    ensures
        forall|i: int|
            0 <= i < search_days(today).len() ==> (#[trigger] search_days(today)[i]).0.le(
                search_days(today)[i].1,
            ) && new_year(2020).le(search_days(today)[i].0) && search_days(today)[i].1.le(today)
                && search_days(today)[i].0.year == search_days(today)[i].1.year,
        forall|i: int|
            0 <= i < search_days(today).len() - 1 ==> (#[trigger] search_days(today)[i]).1.le(
                search_days(today)[i + 1].0,
            ) && search_days(today)[i].1 != search_days(today)[i + 1].0,
{
    let days = search_days(today);
    let whole: int = if today.year > 2020 { today.year - 2020 } else { 0 };
    assert(days.len() == whole + 1);
    assert forall|i: int| 0 <= i < days.len() implies (#[trigger] days[i]).0.le(days[i].1)
        && new_year(2020).le(days[i].0) && days[i].1.le(today) && days[i].0.year == days[i].1.year by {
        if i < whole {
            assert(days[i] == (new_year(2020 + i), year_end(2020 + i)));
        } else {
            assert(days[i] == (new_year(today.year as int), today));
        }
    }
    assert forall|i: int| 0 <= i < days.len() - 1 implies (#[trigger] days[i]).1.le(days[i + 1].0)
        && days[i].1 != days[i + 1].0 by {
        assert(days[i] == (new_year(2020 + i), year_end(2020 + i)));
        if i + 1 < whole {
            assert(days[i + 1] == (new_year(2020 + i + 1), year_end(2020 + i + 1)));
        } else {
            assert(days[i + 1] == (new_year(today.year as int), today));
        }
    }
}

/// The searches of several ranges are those of each range, one range after the other.
pub proof fn lemma_months_of_concat(a: Seq<(Date, Date)>, b: Seq<(Date, Date)>)
    ensures
        months_of(a + b) == months_of(a) + months_of(b),
    decreases b.len(),
{
    if b.len() == 0 {
        assert(a + b =~= a);
        assert(months_of(a) + months_of(b) =~= months_of(a));
    } else {
        lemma_months_of_concat(a, b.drop_last());
        assert((a + b).drop_last() =~= a + b.drop_last());
        assert((a + b).last() == b.last());
    }
}

/// The searches of one range of real days: when its start month is not after its end month,
/// one search per month from the start month through the end month, in increasing order and
/// all in the year of its start, so that every such month is searched (twelve searches for a
/// January-to-December range); otherwise none.
pub proof fn lemma_months_of_range(s: Date, e: Date)
    requires
        s.valid(),
        e.valid(),
    ensures
        s.month <= e.month ==> months_of(seq![(s, e)]).len() == e.month - s.month + 1,
        e.month < s.month ==> months_of(seq![(s, e)]).len() == 0,
        forall|i: int|
            0 <= i < months_of(seq![(s, e)]).len() ==> (#[trigger] months_of(seq![(s, e)])[i]).0
                == s.year as u32 && s.month <= months_of(seq![(s, e)])[i].1 <= e.month,
        forall|i: int, j: int|
            0 <= i < j < months_of(seq![(s, e)]).len() ==> (#[trigger] months_of(seq![(s, e)])[i]).1
                < (#[trigger] months_of(seq![(s, e)])[j]).1,
        forall|m: u32| s.month <= m <= e.month ==> #[trigger] months_of(seq![(s, e)]).contains(
            (s.year as u32, m),
        ),
{
    let r = seq![(s, e)];
    assert(r.drop_last() =~= Seq::<(Date, Date)>::empty());
    assert(r.last() == (s, e));
    let ms = months_of(r);
    let tail = Seq::new(
        if e.month >= s.month { (e.month - s.month + 1) as nat } else { 0 },
        |i: int| (s.year as u32, (s.month + i) as u32),
    );
    assert(months_of(r.drop_last()) == Seq::<(u32, u32)>::empty());
    assert(ms == months_of(r.drop_last()) + tail);
    assert(ms =~= tail);
    assert forall|m: u32| s.month <= m <= e.month implies #[trigger] ms.contains((s.year as u32, m)) by {
        assert(ms[m - s.month] == (s.year as u32, m));
    }
}

/// The (year, month) pairs the received-invoices page is searched by for `ranges`.
pub fn received_months(ranges: &[(Date, Date)]) -> (r: Vec<(u32, u32)>)
    ensures
        r@ == months_of(ranges@),
{
    let mut out: Vec<(u32, u32)> = Vec::new();
    let n = ranges.len();
    let mut i: usize = 0;
    assert(ranges@.take(0) =~= Seq::<(Date, Date)>::empty());
    while i < n
        invariant
            n == ranges@.len(),
            i <= n,
            out@ == months_of(ranges@.take(i as int)),
        decreases n - i,
    {
        assert(ranges@.take(i + 1).drop_last() =~= ranges@.take(i as int));
        assert(ranges@.take(i + 1).last() == ranges@[i as int]);
        let (start, end) = ranges[i];
        let year = start.year as u32;
        let ghost before = out@;
        let count: u64 = if start.month <= end.month {
            (end.month - start.month) as u64 + 1
        } else {
            0
        };
        let mut k: u64 = 0;
        while k < count
            invariant
                k <= count,
                count == (if start.month <= end.month { (end.month - start.month) as int + 1 } else { 0 }),
                out@ == before + Seq::new(k as nat, |j: int| (year, (start.month + j) as u32)),
            decreases count - k,
        {
            out.push((year, start.month + k as u32));
            k += 1;
            assert(out@ =~= before + Seq::new(k as nat, |j: int| (year, (start.month + j) as u32)));
        }
        assert(out@ =~= months_of(ranges@.take(i + 1)));
        i += 1;
    }
    assert(ranges@.take(n as int) =~= ranges@);
    out
}

} // verus!
