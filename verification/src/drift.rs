//! DRIFT IN TIME: has coverage shifted against its own series of observations. Here lives the
//! POINT of a series and its row: one line of the series file, fields separated by tabs. Reading
//! and writing the file itself is the storage's business, not the instrument's.
use vstd::prelude::*;

use crate::text::{decimal, digit_char, push_decimal};
use crate::{Cadence, Instrument, Layer, Protocol, Rung, Shape, Sheet, Silence, Subject};

verus! {

/// One point of a series: what was measured and what was got.
#[derive(Debug, Clone, PartialEq, Eq)]
pub struct Point {
    /// Seconds of the epoch: the instrument does not interpret time zones, the reader does.
    pub at: u64,
    pub technique: String,
    pub profile: String,
    /// The denominator: targets with a living DNS at the time of the run.
    pub alive: usize,
    pub pierced: usize,
    pub clean: usize,
    pub content: usize,
}

/// What a point says, by value.
pub struct PointView {
    pub at: u64,
    pub technique: Seq<char>,
    pub profile: Seq<char>,
    pub alive: usize,
    pub pierced: usize,
    pub clean: usize,
    pub content: usize,
}

impl View for Point {
    type V = PointView;

    open spec fn view(&self) -> PointView {
        PointView {
            at: self.at,
            technique: self.technique@,
            profile: self.profile@,
            alive: self.alive,
            pierced: self.pierced,
            clean: self.clean,
            content: self.content,
        }
    }
}

/// The row of a point: its seven fields, separated by tabs, numbers in decimal.
pub open spec fn row_of(p: PointView) -> Seq<char> {
    decimal(p.at as nat) + seq!['\t'] + p.technique + seq!['\t'] + p.profile + seq!['\t']
        + decimal(p.alive as nat) + seq!['\t'] + decimal(p.pierced as nat) + seq!['\t']
        + decimal(p.clean as nat) + seq!['\t'] + decimal(p.content as nat)
}

/// The positions of the tabs in a text, in order.
pub open spec fn tabs_in(s: Seq<char>) -> Seq<int>
    decreases s.len(),
{
    if s.len() == 0 {
        Seq::empty()
    } else {
        tabs_in(s.drop_last()) + if s.last() == '\t' { seq![s.len() - 1] } else { Seq::empty() }
    }
}

/// Field `k` of a row with tabs at `ts`: from after the previous tab to the next one.
pub open spec fn field(s: Seq<char>, ts: Seq<int>, k: int) -> Seq<char> {
    let start = if k == 0 { 0 } else { ts[k - 1] + 1 };
    let end = if k == ts.len() { s.len() as int } else { ts[k] };
    s.subrange(start, end)
}

/// The value of a digit character.
pub open spec fn digit_value(c: char) -> nat {
    (c as nat - 48) as nat
}

/// Whether every character is an ASCII digit.
pub open spec fn all_digits(s: Seq<char>) -> bool {
    forall|i: int| 0 <= i < s.len() ==> '0' <= #[trigger] s[i] <= '9'
}

/// The value of a sequence of digits.
pub open spec fn digits_value(s: Seq<char>) -> nat
    decreases s.len(),
{
    if s.len() == 0 {
        0
    } else {
        digits_value(s.drop_last()) * 10 + digit_value(s.last())
    }
}

/// The number a field reads as, the way an unsigned integer is parsed: an optional `+`, then at
/// least one digit and nothing else.
pub open spec fn number_of(s: Seq<char>) -> Option<nat> {
    let digits = if s.len() > 0 && s[0] == '+' { s.drop_first() } else { s };
    if digits.len() == 0 || !all_digits(digits) {
        None
    } else {
        Some(digits_value(digits))
    }
}

/// The number a field reads as, if it fits under `max`.
pub open spec fn bounded(s: Seq<char>, max: nat) -> Option<nat> {
    match number_of(s) {
        Some(n) => if n <= max { Some(n) } else { None },
        None => None,
    }
}

/// The point a row reads as: exactly seven fields, the first and the last four numbers that fit.
pub open spec fn point_of(s: Seq<char>) -> Option<PointView> {
    let ts = tabs_in(s);
    if ts.len() != 6 {
        None
    } else {
        let at = bounded(field(s, ts, 0), u64::MAX as nat);
        let alive = bounded(field(s, ts, 3), usize::MAX as nat);
        let pierced = bounded(field(s, ts, 4), usize::MAX as nat);
        let clean = bounded(field(s, ts, 5), usize::MAX as nat);
        let content = bounded(field(s, ts, 6), usize::MAX as nat);
        if at is Some && alive is Some && pierced is Some && clean is Some && content is Some {
            Some(PointView {
                at: at.unwrap() as u64,
                technique: field(s, ts, 1),
                profile: field(s, ts, 2),
                alive: alive.unwrap() as usize,
                pierced: pierced.unwrap() as usize,
                clean: clean.unwrap() as usize,
                content: content.unwrap() as usize,
            })
        } else {
            None
        }
    }
}

proof fn lemma_digits_prefix(s: Seq<char>, i: int)
    requires
        0 <= i <= s.len(),
    ensures
        digits_value(s.take(i)) <= digits_value(s),
    decreases s.len() - i,
{
    if i == s.len() {
        assert(s.take(i) =~= s);
    } else {
        lemma_digits_prefix(s, i + 1);
        assert(s.take(i + 1).drop_last() =~= s.take(i));
    }
}

/// Read a field as a number not above `max`.
fn parse_number(s: &str, max: u64) -> (r: Option<u64>)
    requires
        max >= 9,
    ensures
        match r {
            Some(n) => bounded(s@, max as nat) == Some(n as nat),
            None => bounded(s@, max as nat) is None,
        },
{
    let n = s.unicode_len();
    let mut i: usize = 0;
    if n > 0 && s.get_char(0) == '+' {
        i = 1;
    }
    let ghost digits = if s@.len() > 0 && s@[0] == '+' { s@.drop_first() } else { s@ };
    let start = i;
    assert(digits =~= s@.subrange(start as int, n as int));
    if start == n {
        return None;
    }
    let mut acc: u64 = 0;
    while i < n
        invariant
            n == s@.len(),
            start <= i <= n,
            digits == s@.subrange(start as int, n as int),
            digits == (if s@.len() > 0 && s@[0] == '+' { s@.drop_first() } else { s@ }),
            start < n,
            all_digits(s@.subrange(start as int, i as int)),
            acc as nat == digits_value(s@.subrange(start as int, i as int)),
            acc <= max,
            max >= 9,
        decreases n - i,
    {
        let c = s.get_char(i);
        assert(s@.subrange(start as int, i + 1).drop_last() =~= s@.subrange(start as int, i as int));
        assert(s@.subrange(start as int, i + 1).last() == c);
        if c < '0' || c > '9' {
            assert(digits[i - start] == c);
            assert(!all_digits(digits));
            return None;
        }
        let d: u64 = (c as u32 - 48) as u64;
        assert(digit_value(c) == d);
        if acc > (max - d) / 10 {
            let ghost prefix = s@.subrange(start as int, i + 1);
            proof {
                assert(acc * 10 + d > max) by (nonlinear_arith)
                    requires
                        acc > (max - d) / 10,
                        d <= 9,
                        max >= 9,
                ;
                assert(digits_value(prefix) == acc * 10 + d);
                assert(digits.take(i + 1 - start) =~= prefix);
                lemma_digits_prefix(digits, i + 1 - start);
            }
            return None;
        }
        assert(acc * 10 + d <= max) by (nonlinear_arith)
            requires
                acc <= (max - d) / 10,
                d <= 9,
                max >= 9,
        ;
        acc = acc * 10 + d;
        i += 1;
    }
    Some(acc)
}

/// The positions of the tabs in a row.
fn tab_positions(s: &str) -> (r: Vec<usize>)
    ensures
        r@.len() == tabs_in(s@).len(),
        forall|k: int| 0 <= k < r@.len() ==> r@[k] as int == #[trigger] tabs_in(s@)[k],
{
    let n = s.unicode_len();
    let mut tabs: Vec<usize> = Vec::new();
    let mut i: usize = 0;
    while i < n
        invariant
            n == s@.len(),
            i <= n,
            tabs@.len() == tabs_in(s@.take(i as int)).len(),
            forall|k: int| 0 <= k < tabs@.len() ==> tabs@[k] as int == #[trigger] tabs_in(s@.take(i as int))[k],
        decreases n - i,
    {
        assert(s@.take(i + 1).drop_last() =~= s@.take(i as int));
        if s.get_char(i) == '\t' {
            tabs.push(i);
        }
        i += 1;
    }
    assert(s@.take(n as int) =~= s@);
    tabs
}

proof fn lemma_tabs_ordered(s: Seq<char>)
    ensures
        forall|k: int| 0 <= k < tabs_in(s).len() ==> 0 <= #[trigger] tabs_in(s)[k] < s.len(),
        forall|j: int, k: int| 0 <= j < k < tabs_in(s).len() ==> tabs_in(s)[j] < tabs_in(s)[k],
    decreases s.len(),
{
    if s.len() > 0 {
        let before = tabs_in(s.drop_last());
        lemma_tabs_ordered(s.drop_last());
        assert forall|k: int| 0 <= k < before.len() implies tabs_in(s)[k] == before[k] by {}
        if s.last() == '\t' {
            assert(tabs_in(s)[before.len() as int] == s.len() - 1);
        } else {
            assert(tabs_in(s) =~= before);
        }
    }
}

/// Fields joined by tabs.
pub open spec fn joined(fields: Seq<Seq<char>>) -> Seq<char>
    decreases fields.len(),
{
    if fields.len() <= 1 {
        if fields.len() == 1 { fields[0] } else { Seq::empty() }
    } else {
        joined(fields.drop_last()) + seq!['\t'] + fields.last()
    }
}

proof fn lemma_tabs_concat(a: Seq<char>, b: Seq<char>)
    ensures
        tabs_in(a + b) == tabs_in(a) + tabs_in(b).map_values(|x: int| x + a.len()),
    decreases b.len(),
{
    if b.len() == 0 {
        assert(a + b =~= a);
        assert(tabs_in(b).map_values(|x: int| x + a.len()) =~= Seq::<int>::empty());
        assert(tabs_in(a) + Seq::<int>::empty() =~= tabs_in(a));
    } else {
        lemma_tabs_concat(a, b.drop_last());
        assert((a + b).drop_last() =~= a + b.drop_last());
        assert((a + b).last() == b.last());
        let tb = tabs_in(b.drop_last());
        if b.last() == '\t' {
            assert(tabs_in(b).map_values(|x: int| x + a.len())
                =~= tb.map_values(|x: int| x + a.len()) + seq![(a + b).len() - 1]);
        } else {
            assert(tabs_in(b).map_values(|x: int| x + a.len()) =~= tb.map_values(|x: int| x + a.len()));
        }
    }
}

proof fn lemma_tab_free(s: Seq<char>)
    requires
        !s.contains('\t'),
    ensures
        tabs_in(s) == Seq::<int>::empty(),
    decreases s.len(),
{
    if s.len() > 0 {
        assert(s[s.len() - 1] == s.last());
        assert(!s.drop_last().contains('\t')) by {
            if s.drop_last().contains('\t') {
                let k = choose|k: int| 0 <= k < s.drop_last().len() && s.drop_last()[k] == '\t';
                assert(s[k] == '\t');
            }
        }
        lemma_tab_free(s.drop_last());
    }
}

proof fn lemma_joined_fields(f: Seq<Seq<char>>)
    requires
        f.len() >= 1,
        forall|k: int| 0 <= k < f.len() ==> !(#[trigger] f[k]).contains('\t'),
    ensures
        tabs_in(joined(f)).len() == f.len() - 1,
        forall|k: int| 0 <= k < f.len() ==> field(joined(f), tabs_in(joined(f)), k) == #[trigger] f[k],
    decreases f.len(),
{
    if f.len() == 1 {
        lemma_tab_free(f[0]);
        assert(joined(f) == f[0]);
        assert(field(joined(f), tabs_in(joined(f)), 0) =~= f[0]);
    } else {
        let g = f.drop_last();
        let jg = joined(g);
        let last = f.last();
        assert forall|k: int| 0 <= k < g.len() implies !(#[trigger] g[k]).contains('\t') by {
            assert(g[k] == f[k]);
        }
        lemma_joined_fields(g);
        lemma_tab_free(last);
        assert(!f[f.len() - 1].contains('\t'));
        let whole = joined(f);
        assert(whole == jg + seq!['\t'] + last);
        lemma_tabs_concat(jg + seq!['\t'], last);
        lemma_tabs_concat(jg, seq!['\t']);
        reveal_with_fuel(tabs_in, 2);
        assert(tabs_in(seq!['\t']) =~= seq![0int]) by {
            assert(seq!['\t'].drop_last() =~= Seq::<char>::empty());
        }
        let tg = tabs_in(jg);
        assert(tabs_in(last).map_values(|x: int| x + (jg + seq!['\t']).len()) =~= Seq::<int>::empty());
        assert(tabs_in(seq!['\t']).map_values(|x: int| x + jg.len()) =~= seq![jg.len() as int]);
        let ts = tabs_in(whole);
        assert(ts =~= tg.push(jg.len() as int));
        lemma_tabs_ordered(jg);
        assert forall|k: int| 0 <= k < f.len() implies field(whole, ts, k) == #[trigger] f[k] by {
            if k == f.len() - 1 {
                assert(field(whole, ts, k) =~= last);
            } else {
                let start = if k == 0 { 0 } else { tg[k - 1] + 1 };
                let end = if k == tg.len() { jg.len() as int } else { tg[k] };
                assert(field(jg, tg, k) == g[k]);
                if k > 0 {
                    assert(0 <= tg[k - 1] < jg.len());
                }
                if k < tg.len() {
                    assert(0 <= tg[k] < jg.len());
                }
                assert(field(whole, ts, k) =~= field(jg, tg, k));
                assert(g[k] == f[k]);
            }
        }
    }
}

proof fn lemma_decimal(n: nat)
    ensures
        decimal(n).len() >= 1,
        all_digits(decimal(n)),
        digits_value(decimal(n)) == n,
        !decimal(n).contains('\t'),
        decimal(n)[0] != '+',
    decreases n,
{
    let last = (n % 10) as int;
    assert(digit_value(digit_char(last)) == last);
    if n < 10 {
        assert(decimal(n).drop_last() =~= Seq::<char>::empty());
        assert(n % 10 == n);
        assert(digits_value(decimal(n)) == digits_value(Seq::<char>::empty()) * 10 + last);
    }
    if n >= 10 {
        lemma_decimal(n / 10);
        let d = decimal(n / 10);
        assert(decimal(n) == d.push(digit_char((n % 10) as int)));
        assert(decimal(n).drop_last() =~= d);
        assert(decimal(n)[0] == d[0]);
        assert(decimal(n).last() == digit_char(last));
        assert(digits_value(decimal(n)) == digits_value(d) * 10 + last);
        assert(n == (n / 10) * 10 + n % 10);
    }
    assert(!decimal(n).contains('\t')) by {
        if decimal(n).contains('\t') {
            let k = choose|k: int| 0 <= k < decimal(n).len() && decimal(n)[k] == '\t';
            assert('0' <= decimal(n)[k] <= '9');
        }
    }
}

proof fn lemma_number_of_decimal(n: nat)
    ensures
        number_of(decimal(n)) == Some(n),
{
    lemma_decimal(n);
}

/// A point survives write and read: the row of a point reads back as that very point, whenever its
/// technique and profile hold no tab (a tab inside them would split one field into two).
pub proof fn point_survives_write_and_read(p: PointView)
    requires
        !p.technique.contains('\t'),
        !p.profile.contains('\t'),
    ensures
        point_of(row_of(p)) == Some(p),
{
    let f = seq![
        decimal(p.at as nat), p.technique, p.profile, decimal(p.alive as nat),
        decimal(p.pierced as nat), decimal(p.clean as nat), decimal(p.content as nat),
    ];
    lemma_decimal(p.at as nat);
    lemma_decimal(p.alive as nat);
    lemma_decimal(p.pierced as nat);
    lemma_decimal(p.clean as nat);
    lemma_decimal(p.content as nat);
    reveal_with_fuel(joined, 7);
    assert(joined(f) =~= row_of(p)) by {
        assert(f.drop_last().drop_last().drop_last().drop_last().drop_last().drop_last() =~= seq![f[0]]);
        assert(joined(f) == joined(f.drop_last()) + seq!['\t'] + f[6]);
    }
    assert forall|k: int| 0 <= k < f.len() implies !(#[trigger] f[k]).contains('\t') by {}
    lemma_joined_fields(f);
    let ts = tabs_in(row_of(p));
    assert(field(row_of(p), ts, 0) == f[0]);
    assert(field(row_of(p), ts, 1) == f[1]);
    assert(field(row_of(p), ts, 2) == f[2]);
    assert(field(row_of(p), ts, 3) == f[3]);
    assert(field(row_of(p), ts, 4) == f[4]);
    assert(field(row_of(p), ts, 5) == f[5]);
    assert(field(row_of(p), ts, 6) == f[6]);
    lemma_number_of_decimal(p.at as nat);
    lemma_number_of_decimal(p.alive as nat);
    lemma_number_of_decimal(p.pierced as nat);
    lemma_number_of_decimal(p.clean as nat);
    lemma_number_of_decimal(p.content as nat);
}

impl Point {
    /// The row of the point: seven fields separated by tabs.
    pub fn to_row(&self) -> (r: String)
        ensures
            r@ == row_of(self@),
    {
        proof {
            reveal_strlit("\t");
        }
        let mut s = String::new();
        push_decimal(&mut s, self.at);
        s.append("\t");
        s.append(self.technique.as_str());
        s.append("\t");
        s.append(self.profile.as_str());
        s.append("\t");
        push_decimal(&mut s, self.alive as u64);
        s.append("\t");
        push_decimal(&mut s, self.pierced as u64);
        s.append("\t");
        push_decimal(&mut s, self.clean as u64);
        s.append("\t");
        push_decimal(&mut s, self.content as u64);
        assert(s@ =~= row_of(self@));
        s
    }

    /// The point a row reads as: `None` for any other number of fields, or a number field that
    /// does not read or does not fit.
    pub fn from_row(row: &str) -> (r: Option<Point>)
        ensures
            match r {
                Some(p) => point_of(row@) == Some(p@),
                None => point_of(row@) is None,
            },
    {
        let n = row.unicode_len();
        let tabs = tab_positions(row);
        if tabs.len() != 6 {
            return None;
        }
        let ghost ts = tabs_in(row@);
        proof {
            lemma_tabs_ordered(row@);
        }
        let t0 = tabs[0];
        let t1 = tabs[1];
        let t2 = tabs[2];
        let t3 = tabs[3];
        let t4 = tabs[4];
        let t5 = tabs[5];
        assert(ts[0] < ts[1] && ts[1] < ts[2] && ts[2] < ts[3] && ts[3] < ts[4] && ts[4] < ts[5]);
        assert(0 <= ts[0] && ts[5] < n);
        let at = parse_number(row.substring_char(0, t0), u64::MAX);
        let technique = String::from_str(row.substring_char(t0 + 1, t1));
        let profile = String::from_str(row.substring_char(t1 + 1, t2));
        let alive = parse_number(row.substring_char(t2 + 1, t3), usize::MAX as u64);
        let pierced = parse_number(row.substring_char(t3 + 1, t4), usize::MAX as u64);
        let clean = parse_number(row.substring_char(t4 + 1, t5), usize::MAX as u64);
        let content = parse_number(row.substring_char(t5 + 1, n), usize::MAX as u64);
        assert(field(row@, ts, 0) == row@.subrange(0, t0 as int));
        assert(field(row@, ts, 6) == row@.subrange(t5 + 1, n as int));
        match (at, alive, pierced, clean, content) {
            (Some(at), Some(alive), Some(pierced), Some(clean), Some(content)) => Some(Point {
                at,
                technique,
                profile,
                alive: alive as usize,
                pierced: pierced as usize,
                clean: clean as usize,
                content: content as usize,
            }),
            _ => None,
        }
    }
}


/// The kind of a comparison of a fresh point with its series: no series to compare with (which is
/// NOT "all is well"), a deviation within the observed spread, or a shift beyond it. The deviation
/// and the spread themselves are computed by the reader of the series.
#[derive(Debug, Clone, Copy, PartialEq, Eq, Structural)]
pub enum ShiftKind {
    NoSeries,
    WithinNoise,
    Shifted,
}

/// Whether a point of the series is comparable with the fresh one: the same technique and profile,
/// and a living denominator.
pub open spec fn own_point(t: PointView, fresh: PointView) -> bool {
    t.technique == fresh.technique && t.profile == fresh.profile && t.alive > 0
}

/// A point of the fresh run's own series has the fresh point's technique and profile, and living
/// targets; a point that differs in technique or profile, or has no living target, is not of it.
pub proof fn own_points_share_technique_and_profile(t: PointView, fresh: PointView)
    ensures
        own_point(t, fresh) <==> (t.technique == fresh.technique && t.profile == fresh.profile && t.alive > 0),
        t.profile != fresh.profile ==> !own_point(t, fresh),
        t.technique != fresh.technique ==> !own_point(t, fresh),
{
}

/// The indices of the points of `series` comparable with `fresh` (`own_point`), in order. Fewer than
/// two of them is no series at all.
pub fn own_series(series: &[Point], fresh: &Point) -> (r: Vec<usize>)
    ensures
        forall|k: int| 0 <= k < r@.len() ==> (#[trigger] r@[k]) < series@.len() && own_point(series@[r@[k] as int]@, fresh@),
        // Every point named has the fresh point's technique and profile, and living targets.
        forall|k: int| 0 <= k < r@.len() ==> {
            let t = #[trigger] series@[r@[k] as int];
            &&& t.technique@ == fresh.technique@
            &&& t.profile@ == fresh.profile@
            &&& t.alive > 0
        },
        forall|k: int, l: int| 0 <= k < l < r@.len() ==> (#[trigger] r@[k]) < (#[trigger] r@[l]),
        forall|i: int| 0 <= i < series@.len() && own_point(#[trigger] series@[i]@, fresh@)
            ==> exists|k: int| 0 <= k < r@.len() && r@[k] == i,
        // Every point with the fresh point's technique and profile, and living targets, is named.
        forall|i: int| 0 <= i < series@.len() && (#[trigger] series@[i]).technique@ == fresh.technique@
            && series@[i].profile@ == fresh.profile@ && series@[i].alive > 0
            ==> exists|k: int| 0 <= k < r@.len() && r@[k] == i,
{
    let mut r: Vec<usize> = Vec::new();
    let mut i: usize = 0;
    while i < series.len()
        invariant
            i <= series@.len(),
            forall|k: int| 0 <= k < r@.len() ==> (#[trigger] r@[k]) < i && own_point(series@[r@[k] as int]@, fresh@),
            forall|k: int, l: int| 0 <= k < l < r@.len() ==> (#[trigger] r@[k]) < (#[trigger] r@[l]),
            forall|m: int| 0 <= m < i && own_point(#[trigger] series@[m]@, fresh@)
                ==> exists|k: int| 0 <= k < r@.len() && r@[k] == m,
        decreases series@.len() - i,
    {
        let t = &series[i];
        if t.technique == fresh.technique && t.profile == fresh.profile && t.alive > 0 {
            let ghost before = r@;
            r.push(i);
            proof {
                assert forall|m: int| 0 <= m < i + 1 && own_point(#[trigger] series@[m]@, fresh@)
                    implies exists|k: int| 0 <= k < r@.len() && r@[k] == m by {
                    if m == i {
                        assert(r@[before.len() as int] == m);
                    } else {
                        let k = choose|k: int| 0 <= k < before.len() && before[k] == m;
                        assert(r@[k] == m);
                    }
                }
            }
        }
        i = i + 1;
    }
    assert forall|i: int| 0 <= i < series@.len() && (#[trigger] series@[i]).technique@ == fresh.technique@
        && series@[i].profile@ == fresh.profile@ && series@[i].alive > 0
        implies exists|k: int| 0 <= k < r@.len() && r@[k] == i by {
        assert(own_point(series@[i]@, fresh@));
    }
    r
}

/// The passport of the series of runs: the only instrument of the fleet whose subject is CHANGE, not
/// state.
pub struct HistoryInstrument;

impl Instrument for HistoryInstrument {
    type Signal = ShiftKind;

    open spec fn public_name() -> Seq<char> {
        "history"@
    }

    fn sheet() -> (r: Sheet) {
        let protocols: &'static [Protocol] = &[];
        assert(protocols@ =~= Seq::<Protocol>::empty());
        Sheet {
            instrument: "history",
            subject: Subject::World,
            layer: Layer::Session,
            protocols,
            type_path: "reflex_instrument::drift::HistoryInstrument",
            rung: None,
            cadence: Cadence::Series,
            shape: Shape::Series,
            silence: Some(Silence::Blind),
            lies: &[
        "СРАВНИВАЕТ ДОЛЮ, А НЕ АБСОЛЮТ, и это лечение прошлой беды: знаменатель (живых целей) \
         меняется от прогона к прогону, и абсолютное число упало бы вместе с ним, не сказав о ТСПУ \
         ничего.",
        "ПОРОГ — УТРОЕННЫЙ РАЗБРОС, и он не защищает от СВЕРХБИНОМИАЛЬНОСТИ. Замер показал \
         дисперсию ×1,55 против биномиальной: изменчивость сидит во ВРЕМЕНИ, а не в пробах, и \
         больше проб её не лечат. Порог, поставленный по разбросу проб, окажется у́же настоящего.",
        "РЯД ЖИВЁТ ФАЙЛОМ И ПЕРЕЖИВАЕТ КОД. Точка, записанная старой техникой под тем же именем, \
         сравнивается со свежей как своя — а измеряют они разное. Сверка идёт по имени техники и \
         профиля, но не по их версии.",
    ],
            oracles: &["pass", "sni_drop(rutracker.org)"],
            death: "точка ряда несёт версию техники, а не только её имя",
            events: &["drift_no_series", "drift_within_noise", "drift_shifted"],
        }
    }

    fn name(signal: &ShiftKind) -> (r: &'static str)
        ensures
            r@ == (match *signal {
                ShiftKind::NoSeries => "drift_no_series"@,
                ShiftKind::WithinNoise => "drift_within_noise"@,
                ShiftKind::Shifted => "drift_shifted"@,
            }),
    {
        match signal {
            ShiftKind::NoSeries => "drift_no_series",
            ShiftKind::WithinNoise => "drift_within_noise",
            ShiftKind::Shifted => "drift_shifted",
        }
    }

    fn alarming(signal: &ShiftKind) -> (r: bool)
        ensures
            r == (*signal == ShiftKind::Shifted),
    {
        match signal {
            ShiftKind::Shifted => true,
            ShiftKind::WithinNoise | ShiftKind::NoSeries => false,
        }
    }
}

} // verus!
