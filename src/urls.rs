//! Endpoint templates and how their date tokens are filled in.
use vstd::prelude::*;
use vstd::string::*;

verus! {

/// Base of the Astronomy Picture of the Day endpoint; the key is appended.
pub const APOD: &'static str = "https://api.nasa.gov/planetary/apod?api_key=";

/// NeoWs feed endpoint; both date tokens are filled in and the key appended.
pub const NEOWS: &'static str = "https://api.nasa.gov/neo/rest/v1/feed?start_date=START_DATE&end_date=END_DATE&api_key=";

/// DONKI coronal mass ejection endpoint (kept as a template only).
pub const DONKI: &'static str = "https://api.nasa.gov/DONKI/CME?startDate=yyyy-MM-dd&endDate=yyyy-MM-dd&api_key=";

/// Token of a template that stands for the first day of a range.
pub const START_DATE: &'static str = "START_DATE";

/// Token of a template that stands for the last day of a range.
pub const END_DATE: &'static str = "END_DATE";

/// The URL templates of the three endpoints.
#[derive(Clone, Debug)]
pub struct Urls {
    pub apod: String,
    pub neows: String,
    pub donki: String,
}

pub open spec fn start_token() -> Seq<char> {
    seq!['S', 'T', 'A', 'R', 'T', '_', 'D', 'A', 'T', 'E']
}

pub open spec fn end_token() -> Seq<char> {
    seq!['E', 'N', 'D', '_', 'D', 'A', 'T', 'E']
}

/// Whether `tok` occurs in `t` starting at position `i`.
pub open spec fn occurs_at(t: Seq<char>, i: int, tok: Seq<char>) -> bool {
    0 <= i && i + tok.len() <= t.len() && t.subrange(i, i + tok.len()) == tok
}

/// The template `t` with every date token replaced by `d`, scanning left to
/// right; text that is substituted is never scanned again.
pub open spec fn fill_dates(t: Seq<char>, d: Seq<char>) -> Seq<char>
    decreases t.len(),
{
    if t.len() == 0 {
        t
    } else if occurs_at(t, 0, start_token()) {
        d + fill_dates(t.skip(start_token().len() as int), d)
    } else if occurs_at(t, 0, end_token()) {
        d + fill_dates(t.skip(end_token().len() as int), d)
    } else {
        seq![t[0]] + fill_dates(t.skip(1), d)
    }
}

/// Whether `p` occurs anywhere in `s`.
pub open spec fn contains_seq(s: Seq<char>, p: Seq<char>) -> bool {
    exists|i: int| occurs_at(s, i, p)
}

/// The NeoWs request for one day with the default template.
pub open spec fn neows_request(d: Seq<char>, k: Seq<char>) -> Seq<char> {
    "https://api.nasa.gov/neo/rest/v1/feed?start_date="@ + d + "&end_date="@ + d + "&api_key="@
        + k
}

impl Default for Urls {
    fn default() -> (r: Self)
        ensures
            r.apod@ == APOD@,
            r.neows@ == NEOWS@,
            r.donki@ == DONKI@,
    {
        Urls {
            apod: String::from_str(APOD),
            neows: String::from_str(NEOWS),
            donki: String::from_str(DONKI),
        }
    }
}

/// Whether `tok` occurs in `t` at character position `i`.
fn token_at(t: &str, i: usize, tok: &str) -> (r: bool)
    requires
        i <= t@.len(),
    ensures
        r == occurs_at(t@, i as int, tok@),
{
    let n = t.unicode_len();
    let m = tok.unicode_len();
    if m > n - i {
        return false;
    }
    let mut j: usize = 0;
    while j < m
        invariant
            n == t@.len(),
            m == tok@.len(),
            i + m <= n,
            j <= m,
            forall|k: int| 0 <= k < j ==> t@[i + k] == tok@[k],
        decreases m - j,
    {
        if t.get_char(i + j) != tok.get_char(j) {
            assert(t@.subrange(i as int, i + m)[j as int] != tok@[j as int]);
            return false;
        }
        j = j + 1;
    }
    assert(t@.subrange(i as int, i + m) =~= tok@);
    true
}

proof fn lemma_fill_step(t: Seq<char>, i: int, d: Seq<char>)
    requires
        0 <= i < t.len(),
    ensures
        occurs_at(t, i, start_token()) ==> fill_dates(t.skip(i), d) == d + fill_dates(
            t.skip(i + 10),
            d,
        ),
        !occurs_at(t, i, start_token()) && occurs_at(t, i, end_token()) ==> fill_dates(
            t.skip(i),
            d,
        ) == d + fill_dates(t.skip(i + 8), d),
        !occurs_at(t, i, start_token()) && !occurs_at(t, i, end_token()) ==> fill_dates(
            t.skip(i),
            d,
        ) == seq![t[i]] + fill_dates(t.skip(i + 1), d),
{
    let s = t.skip(i);
    if i + 10 <= t.len() {
        assert(s.skip(10) =~= t.skip(i + 10));
    }
    if i + 8 <= t.len() {
        assert(s.skip(8) =~= t.skip(i + 8));
    }
    assert(s.skip(1) =~= t.skip(i + 1));
    assert(occurs_at(t, i, start_token()) == occurs_at(s, 0, start_token())) by {
        if i + 10 <= t.len() {
            assert(s.subrange(0, 10) =~= t.subrange(i, i + 10));
        }
    }
    assert(occurs_at(t, i, end_token()) == occurs_at(s, 0, end_token())) by {
        if i + 8 <= t.len() {
            assert(s.subrange(0, 8) =~= t.subrange(i, i + 8));
        }
    }
}

/// Text without the letters that begin a token passes through unchanged.
proof fn lemma_fill_plain(p: Seq<char>, r: Seq<char>, d: Seq<char>)
    requires
        forall|i: int| 0 <= i < p.len() ==> p[i] != 'S' && p[i] != 'E',
    ensures
        fill_dates(p + r, d) == p + fill_dates(r, d),
    decreases p.len(),
{
    if p.len() == 0 {
        assert(p + r =~= r);
        assert(p + fill_dates(r, d) =~= fill_dates(r, d));
    } else {
        let t = p + r;
        if t.len() >= 10 {
            assert(t.subrange(0, 10)[0] == p[0]);
        }
        if t.len() >= 8 {
            assert(t.subrange(0, 8)[0] == p[0]);
        }
        assert(t.skip(1) =~= p.skip(1) + r);
        lemma_fill_plain(p.skip(1), r, d);
        assert(p =~= seq![p[0]] + p.skip(1));
        assert(seq![p[0]] + (p.skip(1) + fill_dates(r, d)) =~= p + fill_dates(r, d));
    }
}

proof fn lemma_fill_start(r: Seq<char>, d: Seq<char>)
    ensures
        fill_dates(start_token() + r, d) == d + fill_dates(r, d),
{
    let t = start_token() + r;
    assert(t.subrange(0, 10) =~= start_token());
    assert(t.skip(10) =~= r);
}

proof fn lemma_fill_end(r: Seq<char>, d: Seq<char>)
    ensures
        fill_dates(end_token() + r, d) == d + fill_dates(r, d),
{
    let t = end_token() + r;
    if t.len() >= 10 {
        assert(t.subrange(0, 10)[0] == 'E');
    }
    assert(t.subrange(0, 8) =~= end_token());
    assert(t.skip(8) =~= r);
}

/// The default NeoWs template filled with `d` is the feed request for the
/// single day `d` once the key `k` is appended.
pub proof fn lemma_default_neows_filled(d: Seq<char>, k: Seq<char>)
    ensures
        fill_dates(NEOWS@, d) + k == neows_request(d, k),
{
    let p1 = "https://api.nasa.gov/neo/rest/v1/feed?start_date="@;
    let p2 = "&end_date="@;
    let p3 = "&api_key="@;
    reveal_strlit("https://api.nasa.gov/neo/rest/v1/feed?start_date=");
    reveal_strlit("&end_date=");
    reveal_strlit("&api_key=");
    reveal_strlit("https://api.nasa.gov/neo/rest/v1/feed?start_date=START_DATE&end_date=END_DATE&api_key=");
    assert(NEOWS@ =~= p1 + (start_token() + (p2 + (end_token() + p3))));
    lemma_fill_plain(p3, seq![], d);
    assert(p3 + seq![] =~= p3);
    assert(fill_dates(seq![], d) =~= seq![]);
    lemma_fill_end(p3, d);
    lemma_fill_plain(p2, end_token() + p3, d);
    lemma_fill_start(p2 + (end_token() + p3), d);
    lemma_fill_plain(p1, start_token() + (p2 + (end_token() + p3)), d);
    assert(fill_dates(NEOWS@, d) + k =~= neows_request(d, k));
}

/// Neither date token is left in a NeoWs request for a day and a key that hold
/// none themselves.
pub proof fn lemma_neows_request_has_no_token(d: Seq<char>, k: Seq<char>, tok: Seq<char>)
    requires
        tok == start_token() || tok == end_token(),
        !contains_seq(d, tok),
        !contains_seq(k, tok),
    ensures
        !contains_seq(neows_request(d, k), tok),
{
    let p1 = "https://api.nasa.gov/neo/rest/v1/feed?start_date="@;
    let p2 = "&end_date="@;
    let p3 = "&api_key="@;
    reveal_strlit("https://api.nasa.gov/neo/rest/v1/feed?start_date=");
    reveal_strlit("&end_date=");
    reveal_strlit("&api_key=");
    let u = neows_request(d, k);
    let n = tok.len() as int;
    let a = p1.len() as int;
    let b = a + d.len();
    let c = b + p2.len();
    let e = c + d.len();
    let f = e + p3.len();
    assert(u =~= p1 + d + p2 + d + p3 + k);
    assert(forall|j: int| 0 <= j < p1.len() ==> p1[j] != 'S' && p1[j] != 'E');
    assert(forall|j: int| 0 <= j < p2.len() ==> p2[j] != 'S' && p2[j] != 'E');
    assert(forall|j: int| 0 <= j < p3.len() ==> p3[j] != 'S' && p3[j] != 'E');
    assert(forall|j: int| 0 <= j < n ==> tok[j] != '&');
    assert forall|i: int| !occurs_at(u, i, tok) by {
        if occurs_at(u, i, tok) {
            assert(u.subrange(i, i + n)[0] == u[i]);
            assert(u[i] == 'S' || u[i] == 'E');
            if i < a {
                assert(u[i] == p1[i]);
            } else if i < b {
                if i + n <= b {
                    assert(d.subrange(i - a, i - a + n) =~= u.subrange(i, i + n));
                    assert(occurs_at(d, i - a, tok));
                } else {
                    assert(u.subrange(i, i + n)[b - i] == u[b]);
                    assert(u[b] == '&');
                }
            } else if i < c {
                assert(u[i] == p2[i - b]);
            } else if i < e {
                if i + n <= e {
                    assert(d.subrange(i - c, i - c + n) =~= u.subrange(i, i + n));
                    assert(occurs_at(d, i - c, tok));
                } else {
                    assert(u.subrange(i, i + n)[e - i] == u[e]);
                    assert(u[e] == '&');
                }
            } else if i < f {
                assert(u[i] == p3[i - e]);
            } else {
                assert(k.subrange(i - f, i - f + n) =~= u.subrange(i, i + n));
                assert(occurs_at(k, i - f, tok));
            }
        }
    }
}

/// Replaces every date token of `template` by `date`, in one pass.
pub fn fill_template(template: &str, date: &str) -> (r: String)
    ensures
        r@ == fill_dates(template@, date@),
{
    let n = template.unicode_len();
    let mut out = String::new();
    let mut start: usize = 0;
    let mut i: usize = 0;
    proof {
        reveal_strlit("START_DATE");
        reveal_strlit("END_DATE");
        assert(template@.skip(0) =~= template@);
    }
    while i < n
        invariant
            n == template@.len(),
            start <= i <= n,
            START_DATE@ == start_token(),
            END_DATE@ == end_token(),
            fill_dates(template@, date@) == out@ + template@.subrange(start as int, i as int)
                + fill_dates(template@.skip(i as int), date@),
        decreases n - i,
    {
        proof {
            lemma_fill_step(template@, i as int, date@);
        }
        let ghost before = out@;
        if token_at(template, i, START_DATE) {
            out.append(template.substring_char(start, i));
            out.append(date);
            i = i + 10;
            start = i;
            assert(template@.subrange(i as int, i as int) =~= Seq::<char>::empty());
        } else if token_at(template, i, END_DATE) {
            out.append(template.substring_char(start, i));
            out.append(date);
            i = i + 8;
            start = i;
            assert(template@.subrange(i as int, i as int) =~= Seq::<char>::empty());
        } else {
            assert(template@.subrange(start as int, i + 1) =~= template@.subrange(
                start as int,
                i as int,
            ).push(template@[i as int]));
            i = i + 1;
        }
        assert(fill_dates(template@, date@) == out@ + template@.subrange(start as int, i as int)
            + fill_dates(template@.skip(i as int), date@)) by {
            assert(forall|a: Seq<char>, b: Seq<char>, c: Seq<char>| (a + b) + c =~= a + (b + c));
            assert(forall|a: Seq<char>, x: char| a.push(x) =~= a + seq![x]);
        }
    }
    out.append(template.substring_char(start, n));
    proof {
        assert(template@.skip(n as int) =~= Seq::<char>::empty());
        assert(out@ =~= fill_dates(template@, date@));
    }
    out
}

} // verus!
