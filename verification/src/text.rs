//! Plain-text helpers: decimal rendering of integers and the conversion
//! between `String` and `Vec<char>` that the rest of the library builds on.

use vstd::prelude::*;

verus! {

/// The character for one decimal digit.
pub open spec fn spec_digit(d: int) -> char {
    if d == 0 {
        '0'
    } else if d == 1 {
        '1'
    } else if d == 2 {
        '2'
    } else if d == 3 {
        '3'
    } else if d == 4 {
        '4'
    } else if d == 5 {
        '5'
    } else if d == 6 {
        '6'
    } else if d == 7 {
        '7'
    } else if d == 8 {
        '8'
    } else {
        '9'
    }
}

/// The decimal rendering of a non-negative integer, most significant
/// digit first, with no leading zeroes (except for zero itself).
pub open spec fn spec_dec(n: int) -> Seq<char>
    decreases n,
{
    if n < 10 {
        seq![spec_digit(n)]
    } else {
        spec_dec(n / 10).push(spec_digit(n % 10))
    }
}

/// The decimal rendering of a signed integer: a minus sign in front of
/// the magnitude when the value is negative.
pub open spec fn spec_dec_signed(n: int) -> Seq<char> {
    if n >= 0 {
        spec_dec(n)
    } else {
        seq!['-'] + spec_dec(-n)
    }
}

fn digit_char(d: u64) -> (c: char)
    requires
        d < 10,
    ensures
        c == spec_digit(d as int),
{
    if d == 0 {
        '0'
    } else if d == 1 {
        '1'
    } else if d == 2 {
        '2'
    } else if d == 3 {
        '3'
    } else if d == 4 {
        '4'
    } else if d == 5 {
        '5'
    } else if d == 6 {
        '6'
    } else if d == 7 {
        '7'
    } else if d == 8 {
        '8'
    } else {
        '9'
    }
}

/// The decimal digits of `n`, as characters.
pub fn dec_chars(n: u64) -> (r: Vec<char>)
    ensures
        r@ == spec_dec(n as int),
    decreases n,
{
    if n < 10 {
        let mut v: Vec<char> = Vec::new();
        v.push(digit_char(n));
        v
    } else {
        let mut v = dec_chars(n / 10);
        v.push(digit_char(n % 10));
        v
    }
}

/// The decimal rendering of `n` as a string.
pub fn dec_string(n: u64) -> (r: String)
    ensures
        r@ == spec_dec(n as int),
{
    let v = dec_chars(n);
    string_from_chars(&v)
}

/// The decimal rendering of a signed value as a string.
pub fn dec_string_signed(n: i64) -> (r: String)
    ensures
        r@ == spec_dec_signed(n as int),
{
    if n >= 0 {
        dec_string(n as u64)
    } else {
        let magnitude: u64 = (-(n as i128)) as u64;
        let mut v: Vec<char> = Vec::new();
        v.push('-');
        let mut digits = dec_chars(magnitude);
        v.append(&mut digits);
        string_from_chars(&v)
    }
}

/// The first `n` characters, or the whole sequence when it is shorter.
pub open spec fn spec_take(s: Seq<char>, n: int) -> Seq<char> {
    if n <= s.len() {
        s.take(n)
    } else {
        s
    }
}

/// Keeps the first `n` characters, or everything when `n` is larger.
pub fn take_prefix(v: &Vec<char>, n: usize) -> (r: Vec<char>)
    ensures
        r@ == spec_take(v@, n as int),
{
    let mut r: Vec<char> = Vec::new();
    let mut i: usize = 0;
    while i < n && i < v.len()
        invariant
            i <= v@.len(),
            i <= n,
            r@ == v@.subrange(0, i as int),
        decreases v@.len() - i,
    {
        r.push(v[i]);
        i = i + 1;
    }
    proof {
        if n <= v@.len() {
            assert(r@ =~= spec_take(v@, n as int));
        } else {
            assert(r@ =~= v@);
        }
    }
    r
}

/// The characters of a cluster sequence, in order.
pub open spec fn flatten_chars(cl: Seq<Seq<char>>) -> Seq<char>
    decreases cl.len(),
{
    if cl.len() == 0 {
        Seq::empty()
    } else {
        flatten_chars(cl.drop_last()) + cl.last()
    }
}

/// What the grapheme segmentation of a string returns; a function of the
/// characters alone.
pub uninterp spec fn clusters_of(s: Seq<char>) -> Seq<Seq<char>>;

/// Relies on unicode-segmentation's `UnicodeSegmentation::graphemes`
/// with extended cluster boundaries: the clusters are consecutive,
/// non-empty substrings whose concatenation is the original string.
#[verifier::external_body]
pub fn grapheme_clusters(s: &str) -> (r: Vec<String>)
    ensures
        r.deep_view() == clusters_of(s@),
        flatten_chars(r.deep_view()) == s@,
        forall|i: int| 0 <= i < r.deep_view().len() ==> r.deep_view()[i].len() > 0,
{
    unicode_segmentation::UnicodeSegmentation::graphemes(s, true).map(|g| g.to_string()).collect()
}

/// The rows a cluster sequence wraps into at width `w`: each row takes
/// up to `w` clusters; no row for an empty sequence.
pub open spec fn spec_wrap_rows(cl: Seq<Seq<char>>, w: int) -> Seq<Seq<char>>
    decreases cl.len(),
{
    if w < 1 || cl.len() == 0 {
        Seq::empty()
    } else if cl.len() <= w {
        seq![flatten_chars(cl)]
    } else {
        seq![flatten_chars(cl.take(w))] + spec_wrap_rows(cl.skip(w), w)
    }
}

/// Wraps a string into rows of at most `w` grapheme clusters each.
pub fn chunk_clusters(s: &str, w: usize) -> (r: Vec<String>)
    requires
        w >= 1,
    ensures
        r.deep_view() == spec_wrap_rows(clusters_of(s@), w as int),
        s@.len() > 0 ==> r@.len() >= 1,
{
    let clusters = grapheme_clusters(s);
    proof {
        assert(clusters.deep_view().skip(0) =~= clusters.deep_view());
        if s@.len() > 0 {
            assert(clusters_of(s@).len() > 0) by {
                if clusters_of(s@).len() == 0 {
                    assert(flatten_chars(clusters_of(s@)) =~= Seq::<char>::empty());
                }
            }
        }
    }
    let r = wrap_from(&clusters, 0, w);
    proof {
        assert(r@.len() == r.deep_view().len());
    }
    r
}

fn wrap_from(clusters: &Vec<String>, start: usize, w: usize) -> (r: Vec<String>)
    requires
        w >= 1,
        start <= clusters@.len(),
    ensures
        r.deep_view() == spec_wrap_rows(clusters.deep_view().skip(start as int), w as int),
    decreases clusters@.len() - start,
{
    let ghost sub: Seq<Seq<char>> = clusters.deep_view().skip(start as int);
    if start >= clusters.len() {
        let empty_rows: Vec<String> = Vec::new();
        proof {
            assert(sub.len() == 0);
            assert(empty_rows.deep_view() =~= spec_wrap_rows(sub, w as int));
        }
        return empty_rows;
    }
    let end: usize = if clusters.len() - start <= w {
        clusters.len()
    } else {
        start + w
    };
    let mut row: Vec<char> = Vec::new();
    let mut k: usize = start;
    proof {
        assert(sub.take(0) =~= Seq::<Seq<char>>::empty());
    }
    while k < end
        invariant
            start <= k <= end,
            end <= clusters@.len(),
            sub == clusters.deep_view().skip(start as int),
            row@ == flatten_chars(sub.take(k - start)),
        decreases end - k,
    {
        let mut piece = str_chars(clusters[k].as_str());
        proof {
            assert(clusters.deep_view()[k as int] == clusters@[k as int]@);
            assert(sub.take(k - start + 1).drop_last() =~= sub.take(k - start));
            assert(sub.take(k - start + 1).last() == clusters.deep_view()[k as int]);
        }
        row.append(&mut piece);
        k = k + 1;
    }
    let row_s = string_from_chars(&row);
    let mut r: Vec<String> = Vec::new();
    if end == clusters.len() {
        r.push(row_s);
        proof {
            assert(sub.take(end - start) =~= sub);
            assert(r.deep_view() =~= spec_wrap_rows(sub, w as int));
        }
        r
    } else {
        r.push(row_s);
        let mut rest = wrap_from(clusters, end, w);
        r.append(&mut rest);
        proof {
            assert(sub.take(w as int) =~= sub.take(end - start));
            assert(clusters.deep_view().skip(end as int) =~= sub.skip(w as int));
            assert(r.deep_view() =~= spec_wrap_rows(sub, w as int));
        }
        r
    }
}

/// What padding a string to `w` clusters yields: its first `w` clusters,
/// filled up with spaces when there are fewer.
pub open spec fn spec_fit(cl: Seq<Seq<char>>, w: int) -> Seq<char> {
    if w <= cl.len() {
        flatten_chars(cl.take(w))
    } else {
        flatten_chars(cl) + Seq::new((w - cl.len()) as nat, |i: int| ' ')
    }
}

/// Cuts or pads a string to exactly `w` grapheme clusters.
pub fn pad_to_width(s: &str, w: usize) -> (r: String)
    ensures
        r@ == spec_fit(clusters_of(s@), w as int),
{
    let clusters = grapheme_clusters(s);
    let ghost cl = clusters.deep_view();
    let take_n: usize = if w <= clusters.len() {
        w
    } else {
        clusters.len()
    };
    let mut out: Vec<char> = Vec::new();
    let mut k: usize = 0;
    proof {
        assert(cl.take(0) =~= Seq::<Seq<char>>::empty());
    }
    while k < take_n
        invariant
            k <= take_n,
            take_n <= cl.len(),
            cl == clusters.deep_view(),
            out@ == flatten_chars(cl.take(k as int)),
        decreases take_n - k,
    {
        let mut piece = str_chars(clusters[k].as_str());
        proof {
            assert(clusters.deep_view()[k as int] == clusters@[k as int]@);
            assert(cl.take(k + 1).drop_last() =~= cl.take(k as int));
            assert(cl.take(k + 1).last() == cl[k as int]);
        }
        out.append(&mut piece);
        k = k + 1;
    }
    let mut fill: usize = take_n;
    proof {
        assert(out@ =~= flatten_chars(cl.take(take_n as int)) + Seq::new(0nat, |i: int| ' '));
    }
    while fill < w
        invariant
            take_n <= fill <= w || (w <= take_n && fill == take_n),
            cl == clusters.deep_view(),
            take_n <= cl.len(),
            out@ == flatten_chars(cl.take(take_n as int)) + Seq::new(
                (fill - take_n) as nat,
                |i: int| ' ',
            ),
        decreases w - fill,
    {
        out.push(' ');
        fill = fill + 1;
        proof {
            assert(flatten_chars(cl.take(take_n as int)) + Seq::new(
                (fill - take_n) as nat,
                |i: int| ' ',
            ) =~= (flatten_chars(cl.take(take_n as int)) + Seq::new(
                (fill - 1 - take_n) as nat,
                |i: int| ' ',
            )).push(' '));
        }
    }
    proof {
        if w <= cl.len() {
            assert(out@ =~= spec_fit(cl, w as int));
        } else {
            assert(cl.take(take_n as int) =~= cl);
            assert(out@ =~= spec_fit(cl, w as int));
        }
    }
    string_from_chars(&out)
}

/// Relies on std's `str::chars`: yields exactly the characters of the
/// string, in order.
#[verifier::external_body]
pub fn str_chars(s: &str) -> (r: Vec<char>)
    ensures
        r@ == s@,
{
    s.chars().collect()
}

/// Relies on std's `FromIterator for String`: collecting characters
/// builds the string made of exactly those characters, in order.
#[verifier::external_body]
pub fn string_from_chars(v: &Vec<char>) -> (r: String)
    ensures
        r@ == v@,
{
    v.iter().collect()
}

} // verus!
