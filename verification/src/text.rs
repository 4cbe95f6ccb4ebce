//! Verified text utilities: character-wise string equality and leftmost,
//! non-overlapping substring replacement. Instruction-template rendering and
//! URL-to-filename sanitizing are built on these.

use vstd::prelude::*;
use vstd::string::*;

verus! {

/// The result of replacing, left to right and without overlap, every
/// occurrence of `pat` in `s` by `to`. An empty `pat` replaces nothing.
pub open spec fn spec_replace_all(s: Seq<char>, pat: Seq<char>, to: Seq<char>) -> Seq<char>
    decreases s.len(),
{
    if pat.len() == 0 || s.len() < pat.len() {
        s
    } else if s.subrange(0, pat.len() as int) == pat {
        to + spec_replace_all(s.skip(pat.len() as int), pat, to)
    } else {
        seq![s[0]] + spec_replace_all(s.skip(1), pat, to)
    }
}

/// Character-wise string equality, decided without trusting any outside code.
pub fn str_eq(a: &str, b: &str) -> (r: bool)
    ensures
        r == (a@ == b@),
{
    let alen = a.unicode_len();
    let blen = b.unicode_len();
    if alen != blen {
        return false;
    }
    let mut i: usize = 0;
    while i < alen
        invariant
            i <= alen,
            alen == a@.len(),
            alen == b@.len(),
            forall|j: int| 0 <= j < i ==> a@[j] == b@[j],
        decreases alen - i,
    {
        if a.get_char(i) != b.get_char(i) {
            return false;
        }
        i = i + 1;
    }
    proof {
        assert(a@ =~= b@);
    }
    true
}

/// Whether `pat` occurs in `s` starting at character position `i`.
fn matches_at(s: &str, i: usize, pat: &str) -> (r: bool)
    requires
        i + pat@.len() <= s@.len(),
        s@.len() <= usize::MAX,
    ensures
        r == (s@.subrange(i as int, i as int + pat@.len() as int) == pat@),
{
    let m = pat.unicode_len();
    let mut j: usize = 0;
    while j < m
        invariant
            j <= m,
            m == pat@.len(),
            i + m <= s@.len(),
            s@.len() <= usize::MAX,
            forall|k: int| 0 <= k < j ==> s@[i + k] == pat@[k],
        decreases m - j,
    {
        if s.get_char(i + j) != pat.get_char(j) {
            proof {
                assert(s@.subrange(i as int, i as int + m as int)[j as int] == s@[i + j]);
            }
            return false;
        }
        j = j + 1;
    }
    proof {
        assert(s@.subrange(i as int, i as int + m as int) =~= pat@);
    }
    true
}

proof fn lemma_replace_step_match(s: Seq<char>, pat: Seq<char>, to: Seq<char>)
    requires
        pat.len() > 0,
        s.len() >= pat.len(),
        s.subrange(0, pat.len() as int) == pat,
    ensures
        spec_replace_all(s, pat, to) == to + spec_replace_all(s.skip(pat.len() as int), pat, to),
{
}

proof fn lemma_replace_step_copy(s: Seq<char>, pat: Seq<char>, to: Seq<char>)
    requires
        pat.len() > 0,
        s.len() > 0,
        s.len() < pat.len() || s.subrange(0, pat.len() as int) != pat,
    ensures
        spec_replace_all(s, pat, to) == seq![s[0]] + spec_replace_all(s.skip(1), pat, to),
{
    if s.len() < pat.len() {
        assert(s.skip(1).len() < pat.len());
        assert(s =~= seq![s[0]] + s.skip(1));
    }
}

/// Replaces every occurrence of `pat` in `s` by `to`, scanning left to right
/// and never re-scanning replaced text.
pub fn replace_all(s: &str, pat: &str, to: &str) -> (r: String)
    requires
        pat@.len() > 0,
    ensures
        r@ == spec_replace_all(s@, pat@, to@),
{
    let n = s.unicode_len();
    let m = pat.unicode_len();
    let mut out = String::new();
    let mut i: usize = 0;
    proof {
        assert(s@.skip(0) =~= s@);
        assert(out@ + spec_replace_all(s@, pat@, to@) =~= spec_replace_all(s@, pat@, to@));
    }
    while i < n
        invariant
            i <= n,
            n == s@.len(),
            m == pat@.len(),
            m > 0,
            spec_replace_all(s@, pat@, to@) == out@ + spec_replace_all(
                s@.skip(i as int),
                pat@,
                to@,
            ),
        decreases n - i,
    {
        let ghost tail = s@.skip(i as int);
        let ghost out0 = out@;
        if m <= n - i && matches_at(s, i, pat) {
            out.append(to);
            proof {
                assert(tail.subrange(0, m as int) =~= s@.subrange(i as int, i as int + m as int));
                lemma_replace_step_match(tail, pat@, to@);
                assert(tail.skip(m as int) =~= s@.skip(i as int + m as int));
                assert(out0 + (to@ + spec_replace_all(tail.skip(m as int), pat@, to@)) =~= (out0
                    + to@) + spec_replace_all(tail.skip(m as int), pat@, to@));
            }
            i = i + m;
        } else {
            let piece = s.substring_char(i, i + 1);
            out.append(piece);
            proof {
                assert(tail.len() > 0);
                if m <= n - i {
                    assert(tail.subrange(0, m as int) =~= s@.subrange(
                        i as int,
                        i as int + m as int,
                    ));
                }
                lemma_replace_step_copy(tail, pat@, to@);
                assert(piece@ =~= seq![tail[0]]);
                assert(tail.skip(1) =~= s@.skip(i as int + 1));
                assert(out0 + (piece@ + spec_replace_all(tail.skip(1), pat@, to@)) =~= (out0
                    + piece@) + spec_replace_all(tail.skip(1), pat@, to@));
            }
            i = i + 1;
        }
    }
    proof {
        assert(s@.skip(n as int) =~= Seq::<char>::empty());
        assert(out@ + spec_replace_all(Seq::<char>::empty(), pat@, to@) =~= out@);
    }
    out
}

/// The local file name a scraped page is stored under: the URL with its
/// scheme stripped, every slash turned into an underscore, and `.html`
/// appended.
pub open spec fn spec_scrape_file_name(url: Seq<char>) -> Seq<char> {
    spec_replace_all(
        spec_replace_all(spec_replace_all(url, "https://"@, ""@), "http://"@, ""@),
        "/"@,
        "_"@,
    ) + ".html"@
}

pub fn scrape_file_name(url: &str) -> (r: String)
    ensures
        r@ == spec_scrape_file_name(url@),
{
    proof {
        reveal_strlit("https://");
        reveal_strlit("http://");
        reveal_strlit("/");
    }
    let step1 = replace_all(url, "https://", "");
    let step2 = replace_all(step1.as_str(), "http://", "");
    let mut r = replace_all(step2.as_str(), "/", "_");
    r.append(".html");
    r
}

/// The name of a freshly provisioned assistant generation, tagged with the
/// timestamp the refresh ran at.
pub fn generation_name(timestamp: &str) -> (r: String)
    ensures
        r@ == "Assistant_"@ + timestamp@,
{
    let mut r = String::from_str("Assistant_");
    r.append(timestamp);
    r
}

pub open spec fn spec_is_digit(c: char) -> bool {
    '0' as u32 <= c as u32 <= '9' as u32
}

/// Whether a string is one or more decimal digits.
pub open spec fn spec_all_digits(s: Seq<char>) -> bool {
    s.len() > 0 && forall|i: int| 0 <= i < s.len() ==> spec_is_digit(#[trigger] s[i])
}

/// The number a digit string denotes.
pub open spec fn spec_decimal_value(s: Seq<char>) -> int
    decreases s.len(),
{
    if s.len() == 0 {
        0
    } else {
        spec_decimal_value(s.drop_last()) * 10 + (s.last() as u32 - '0' as u32)
    }
}

proof fn lemma_decimal_value_nonneg(s: Seq<char>)
    requires
        forall|i: int| 0 <= i < s.len() ==> spec_is_digit(#[trigger] s[i]),
    ensures
        spec_decimal_value(s) >= 0,
    decreases s.len(),
{
    if s.len() > 0 {
        lemma_decimal_value_nonneg(s.drop_last());
    }
}

proof fn lemma_decimal_prefix_le(s: Seq<char>, i: int)
    requires
        forall|j: int| 0 <= j < s.len() ==> spec_is_digit(#[trigger] s[j]),
        0 <= i <= s.len(),
    ensures
        spec_decimal_value(s.subrange(0, i)) <= spec_decimal_value(s),
    decreases s.len() - i,
{
    if i == s.len() {
        assert(s.subrange(0, i) =~= s);
    } else {
        lemma_decimal_prefix_le(s, i + 1);
        let prefix = s.subrange(0, i);
        assert(s.subrange(0, i + 1).drop_last() =~= prefix);
        assert(s.subrange(0, i + 1).last() == s[i]);
        lemma_decimal_value_nonneg(prefix);
    }
}

/// Reads a user identifier as a plain decimal number: one or more digits,
/// nothing else, and a value that fits. Anything else is rejected.
pub fn parse_user_key(s: &str) -> (r: Option<u64>)
    ensures
        match r {
            Some(n) => spec_all_digits(s@) && n as int == spec_decimal_value(s@),
            None => !spec_all_digits(s@) || spec_decimal_value(s@) > u64::MAX,
        },
{
    let n = s.unicode_len();
    if n == 0 {
        return None;
    }
    let mut acc: u64 = 0;
    let mut i: usize = 0;
    proof {
        assert(s@.subrange(0, 0) =~= Seq::<char>::empty());
    }
    while i < n
        invariant
            i <= n,
            n == s@.len(),
            forall|j: int| 0 <= j < i ==> spec_is_digit(#[trigger] s@[j]),
            acc as int == spec_decimal_value(s@.subrange(0, i as int)),
        decreases n - i,
    {
        let c = s.get_char(i);
        let cu = c as u32;
        if cu < '0' as u32 || cu > '9' as u32 {
            return None;
        }
        let d = (cu - '0' as u32) as u64;
        let ghost prefix = s@.subrange(0, i as int);
        proof {
            assert(s@.subrange(0, i as int + 1).drop_last() =~= prefix);
            assert(s@.subrange(0, i as int + 1).last() == s@[i as int]);
        }
        let grown = match acc.checked_mul(10) {
            Some(t) => t.checked_add(d),
            None => None,
        };
        match grown {
            Some(v) => {
                acc = v;
            },
            None => {
                proof {
                    assert(spec_decimal_value(s@.subrange(0, i as int + 1)) > u64::MAX);
                    if spec_all_digits(s@) {
                        lemma_decimal_prefix_le(s@, i as int + 1);
                    }
                }
                return None;
            },
        }
        i = i + 1;
    }
    proof {
        assert(s@.subrange(0, n as int) =~= s@);
    }
    Some(acc)
}

/// The `{name}` placeholder token an instruction template marks a file by.
pub open spec fn spec_placeholder(name: Seq<char>) -> Seq<char> {
    "{"@ + name + "}"@
}

pub fn placeholder(name: &str) -> (r: String)
    ensures
        r@ == spec_placeholder(name@),
{
    let mut r = String::from_str("{");
    r.append(name);
    r.append("}");
    r
}

} // verus!
