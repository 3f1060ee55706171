//! Verified text scanning: substring search, splitting on a
//! separator, whitespace-delimited fields, trimming, and decimal
//! parsing.  The process-table output a guarded engine is found in is
//! read with these.

use vstd::prelude::*;

verus! {

use vstd::string::StrSliceExecFns;
use vstd::string::StringExecFns;

/// Whether `pat` occurs in `s` starting at position `i`.
pub open spec fn spec_pat_at(s: Seq<char>, pat: Seq<char>, i: int) -> bool {
    pat.is_prefix_of(s.skip(i))
}

/// The least position at which `pat` occurs in `s`, or `-1` when it
/// does not occur.
pub open spec fn spec_find(s: Seq<char>, pat: Seq<char>) -> int
    decreases s.len(),
{
    if pat.len() > s.len() {
        -1
    } else if pat.is_prefix_of(s) {
        0
    } else {
        let r = spec_find(s.drop_first(), pat);
        if r == -1 {
            -1
        } else {
            r + 1
        }
    }
}

/// What `spec_find` returns: the least occurrence position, within
/// bounds, or `-1` when there is no occurrence at all.
pub proof fn lemma_find_characterization(s: Seq<char>, pat: Seq<char>)
    ensures
        spec_find(s, pat) == -1 ==> forall|i: int| 0 <= i <= s.len() ==> !spec_pat_at(s, pat, i),
        spec_find(s, pat) != -1 ==> {
            let r = spec_find(s, pat);
            &&& 0 <= r
            &&& r + pat.len() <= s.len()
            &&& spec_pat_at(s, pat, r)
            &&& forall|i: int| 0 <= i < r ==> !spec_pat_at(s, pat, i)
        },
    decreases s.len(),
{
    if pat.len() > s.len() {
        assert forall|i: int| 0 <= i <= s.len() implies !spec_pat_at(s, pat, i) by {
            assert(s.skip(i).len() < pat.len());
        }
    } else if pat.is_prefix_of(s) {
        assert(s.skip(0) =~= s);
    } else {
        lemma_find_characterization(s.drop_first(), pat);
        assert forall|i: int| 1 <= i <= s.len() implies spec_pat_at(s, pat, i) == spec_pat_at(
            s.drop_first(),
            pat,
            i - 1,
        ) by {
            assert(s.drop_first().skip(i - 1) =~= s.skip(i));
        }
        assert(!spec_pat_at(s, pat, 0)) by {
            assert(s.skip(0) =~= s);
        }
    }
}

/// Whether `pat` stands at position `i` of `s`.
fn match_at(s: &str, pat: &str, i: usize) -> (b: bool)
    requires
        i + pat@.len() <= s@.len(),
        s@.len() <= usize::MAX,
    ensures
        b == spec_pat_at(s@, pat@, i as int),
{
    let m = pat.unicode_len();
    let mut k: usize = 0;
    while k < m
        invariant
            k <= m,
            m == pat@.len(),
            i + m <= s@.len(),
            s@.len() <= usize::MAX,
            forall|l: int| 0 <= l < k ==> s@[i + l] == pat@[l],
        decreases m - k,
    {
        if s.get_char(i + k) != pat.get_char(k) {
            assert(!spec_pat_at(s@, pat@, i as int)) by {
                assert(s@.skip(i as int).subrange(0, m as int)[k as int] != pat@[k as int]);
            }
            return false;
        }
        k += 1;
    }
    assert(pat@ =~= s@.skip(i as int).subrange(0, m as int));
    true
}

/// The least position at which `pat` occurs in `s`, if any.
pub fn str_find(s: &str, pat: &str) -> (r: Option<usize>)
    ensures
        match r {
            Some(i) => spec_find(s@, pat@) == i,
            None => spec_find(s@, pat@) == -1,
        },
{
    let n = s.unicode_len();
    let m = pat.unicode_len();
    if m > n {
        proof {
            lemma_find_characterization(s@, pat@);
        }
        return None;
    }
    let mut i: usize = 0;
    while i <= n - m
        invariant
            m <= n,
            n == s@.len(),
            m == pat@.len(),
            i <= n - m + 1,
            forall|j: int| 0 <= j < i ==> !spec_pat_at(s@, pat@, j),
        decreases n + 1 - i,
    {
        if match_at(s, pat, i) {
            proof {
                lemma_find_characterization(s@, pat@);
            }
            return Some(i);
        }
        i += 1;
    }
    proof {
        lemma_find_characterization(s@, pat@);
        assert forall|j: int| 0 <= j <= s@.len() implies !spec_pat_at(s@, pat@, j) by {
            if j > n - m {
                assert(s@.skip(j).len() < pat@.len());
            }
        }
    }
    None
}

/// `s` cut at every occurrence of `sep`, left to right; the separator
/// itself appears in no piece.  A sequence without the separator is
/// one piece, so the result is never empty.
pub open spec fn spec_split(s: Seq<char>, sep: Seq<char>) -> Seq<Seq<char>>
    decreases s.len(),
{
    let i = spec_find(s, sep);
    if sep.len() == 0 || i < 0 || i + sep.len() > s.len() {
        seq![s]
    } else {
        seq![s.take(i)] + spec_split(s.skip(i + sep.len()), sep)
    }
}

/// Splits `s` at every occurrence of `sep`.
pub fn split_str(s: &str, sep: &str) -> (r: Vec<String>)
    requires
        sep@.len() >= 1,
    ensures
        r.deep_view() == spec_split(s@, sep@),
{
    let n = s.unicode_len();
    let m = sep.unicode_len();
    let mut parts: Vec<String> = Vec::new();
    let mut cur: usize = 0;
    proof {
        assert(s@.skip(0) =~= s@);
        assert(parts.deep_view() =~= Seq::<Seq<char>>::empty());
        assert(parts.deep_view() + spec_split(s@.skip(0), sep@) =~= spec_split(s@, sep@));
    }
    loop
        invariant
            cur <= n,
            n == s@.len(),
            m == sep@.len(),
            m >= 1,
            spec_split(s@, sep@) =~= parts.deep_view() + spec_split(s@.skip(cur as int), sep@),
        decreases n - cur,
    {
        let ghost old_parts = parts.deep_view();
        let rest = s.substring_char(cur, n);
        match str_find(rest, sep) {
            Some(i) => {
                proof {
                    lemma_find_characterization(rest@, sep@);
                }
                let piece = rest.substring_char(0, i).to_owned();
                proof {
                    assert(rest@.take(i as int) =~= piece@);
                }
                parts.push(piece);
                proof {
                    assert(parts.deep_view() =~= old_parts.push(piece@));
                    assert(rest@.skip(i as int + m as int) =~= s@.skip(
                        cur as int + i as int + m as int,
                    ));
                    assert(spec_split(s@.skip(cur as int), sep@) =~= seq![piece@] + spec_split(
                        s@.skip(cur as int + i as int + m as int),
                        sep@,
                    ));
                    assert(spec_split(s@, sep@) =~= parts.deep_view() + spec_split(
                        s@.skip(cur as int + i as int + m as int),
                        sep@,
                    ));
                }
                cur = cur + i + m;
            },
            None => {
                let piece = rest.to_owned();
                parts.push(piece);
                proof {
                    assert(parts.deep_view() =~= old_parts.push(piece@));
                    assert(spec_split(s@.skip(cur as int), sep@) =~= seq![piece@]);
                    assert(spec_split(s@, sep@) =~= parts.deep_view());
                }
                return parts;
            },
        }
    }
}

/// The four ASCII whitespace characters the field splitter knows.
pub open spec fn is_ascii_ws(c: char) -> bool {
    c == ' ' || c == '\t' || c == '\r' || c == '\n'
}

/// Executable test of `is_ascii_ws`.
pub fn is_ascii_ws_exec(c: char) -> (b: bool)
    ensures
        b == is_ascii_ws(c),
{
    c == ' ' || c == '\t' || c == '\r' || c == '\n'
}

/// The whitespace-delimited words of `s`, in order: maximal runs of
/// non-whitespace characters.
pub open spec fn spec_fields(s: Seq<char>) -> Seq<Seq<char>>
    decreases s.len(),
{
    if s.len() == 0 {
        Seq::empty()
    } else {
        let rest = spec_fields(s.drop_first());
        if is_ascii_ws(s[0]) {
            rest
        } else if s.len() > 1 && !is_ascii_ws(s[1]) {
            seq![seq![s[0]] + rest.first()] + rest.drop_first()
        } else {
            seq![seq![s[0]]] + rest
        }
    }
}

/// A run of non-whitespace characters followed by whitespace (or the
/// end) is the first field, whole.
proof fn lemma_fields_word(w: Seq<char>, s: Seq<char>)
    requires
        w.len() >= 1,
        forall|i: int| 0 <= i < w.len() ==> !is_ascii_ws(w[i]),
        s.len() == 0 || is_ascii_ws(s[0]),
    ensures
        spec_fields(w + s) == seq![w] + spec_fields(s),
    decreases w.len(),
{
    let t = w + s;
    assert(t[0] == w[0]);
    assert(!is_ascii_ws(t[0]));
    if w.len() == 1 {
        assert(t.drop_first() =~= s);
        if s.len() == 0 {
            assert(spec_fields(t) =~= seq![seq![t[0]]] + spec_fields(s));
            assert(seq![t[0]] =~= w);
        } else {
            assert(t.len() > 1 && is_ascii_ws(t[1]));
            assert(spec_fields(t) =~= seq![seq![t[0]]] + spec_fields(s));
            assert(seq![t[0]] =~= w);
        }
        assert(spec_fields(w + s) =~= seq![w] + spec_fields(s));
    } else {
        assert(t.len() > 1);
        assert(t[1] == w[1]);
        assert(!is_ascii_ws(t[1]));
        assert(t.drop_first() =~= w.drop_first() + s);
        lemma_fields_word(w.drop_first(), s);
        let rest = spec_fields(w.drop_first() + s);
        assert(rest == seq![w.drop_first()] + spec_fields(s));
        assert(rest.first() == w.drop_first());
        assert(rest.drop_first() =~= spec_fields(s));
        assert(spec_fields(t) == seq![seq![t[0]] + rest.first()] + rest.drop_first());
        assert(seq![t[0]] + rest.first() =~= w);
        assert(spec_fields(w + s) =~= seq![w] + spec_fields(s));
    }
}

/// The whitespace-delimited words of `s`, in order.
pub fn ascii_fields(s: &str) -> (r: Vec<String>)
    ensures
        r.deep_view() == spec_fields(s@),
{
    let n = s.unicode_len();
    let mut out: Vec<String> = Vec::new();
    let mut cur = String::new();
    let mut i: usize = 0;
    proof {
        assert(s@.skip(0) =~= s@);
        assert(cur@ + s@.skip(0) =~= s@);
        assert(out.deep_view() =~= Seq::<Seq<char>>::empty());
        assert(out.deep_view() + spec_fields(cur@ + s@.skip(0)) =~= spec_fields(s@));
    }
    while i < n
        invariant
            i <= n,
            n == s@.len(),
            forall|k: int| 0 <= k < cur@.len() ==> !is_ascii_ws(cur@[k]),
            spec_fields(s@) =~= out.deep_view() + spec_fields(cur@ + s@.skip(i as int)),
        decreases n - i,
    {
        let ghost old_out = out.deep_view();
        let ghost old_cur = cur@;
        let c = s.get_char(i);
        if is_ascii_ws_exec(c) {
            proof {
                assert(s@.skip(i as int)[0] == c);
            }
            if cur.unicode_len() > 0 {
                proof {
                    lemma_fields_word(cur@, s@.skip(i as int));
                    assert(s@.skip(i as int).drop_first() =~= s@.skip(i as int + 1));
                }
                let done = cur;
                out.push(done);
                cur = String::new();
                proof {
                    assert(out.deep_view() =~= old_out.push(old_cur));
                    assert(cur@ + s@.skip(i as int + 1) =~= s@.skip(i as int + 1));
                    assert(spec_fields(s@) =~= out.deep_view() + spec_fields(
                        s@.skip(i as int + 1),
                    ));
                }
            } else {
                proof {
                    assert(old_cur + s@.skip(i as int) =~= s@.skip(i as int));
                    assert(s@.skip(i as int).drop_first() =~= s@.skip(i as int + 1));
                    assert(cur@ + s@.skip(i as int + 1) =~= s@.skip(i as int + 1));
                }
            }
        } else {
            let piece = s.substring_char(i, i + 1);
            proof {
                assert(piece@ =~= seq![s@[i as int]]);
            }
            cur.append(piece);
            proof {
                assert(cur@ =~= old_cur.push(s@[i as int]));
                assert(old_cur + s@.skip(i as int) =~= cur@ + s@.skip(i as int + 1));
            }
        }
        i += 1;
    }
    proof {
        assert(s@.skip(n as int).len() == 0);
    }
    if cur.unicode_len() > 0 {
        proof {
            assert(cur@ + s@.skip(n as int) =~= cur@);
            lemma_fields_word(cur@, Seq::<char>::empty());
            assert(cur@ + Seq::<char>::empty() =~= cur@);
            assert(spec_fields(cur@) =~= seq![cur@]);
        }
        let ghost old_out = out.deep_view();
        let ghost last = cur@;
        out.push(cur);
        proof {
            assert(out.deep_view() =~= old_out.push(last));
            assert(out.deep_view() =~= spec_fields(s@));
        }
    } else {
        proof {
            assert(cur@ + s@.skip(n as int) =~= Seq::<char>::empty());
            assert(spec_fields(Seq::<char>::empty()) =~= Seq::<Seq<char>>::empty());
            assert(out.deep_view() =~= spec_fields(s@));
        }
    }
    out
}

/// `s` with leading and trailing ASCII whitespace removed.
pub open spec fn spec_trim(s: Seq<char>) -> Seq<char>
    decreases s.len(),
{
    if s.len() == 0 {
        s
    } else if is_ascii_ws(s[0]) {
        spec_trim(s.drop_first())
    } else if is_ascii_ws(s[s.len() - 1]) {
        spec_trim(s.drop_last())
    } else {
        s
    }
}

/// Removes leading and trailing ASCII whitespace.
pub fn trim_str(s: &str) -> (r: String)
    ensures
        r@ == spec_trim(s@),
{
    let n = s.unicode_len();
    let mut lo: usize = 0;
    let mut hi: usize = n;
    proof {
        assert(s@.subrange(0, n as int) =~= s@);
    }
    while lo < hi && is_ascii_ws_exec(s.get_char(lo))
        invariant
            lo <= hi,
            hi <= n,
            n == s@.len(),
            spec_trim(s@) == spec_trim(s@.subrange(lo as int, hi as int)),
        decreases hi - lo,
    {
        proof {
            assert(s@.subrange(lo as int, hi as int).drop_first() =~= s@.subrange(
                lo as int + 1,
                hi as int,
            ));
        }
        lo += 1;
    }
    while hi > lo && is_ascii_ws_exec(s.get_char(hi - 1))
        invariant
            lo <= hi,
            hi <= n,
            n == s@.len(),
            spec_trim(s@) == spec_trim(s@.subrange(lo as int, hi as int)),
            lo == hi || !is_ascii_ws(s@[lo as int]),
        decreases hi,
    {
        proof {
            let piece = s@.subrange(lo as int, hi as int);
            assert(piece[0] == s@[lo as int]);
            assert(piece[piece.len() - 1] == s@[hi as int - 1]);
            assert(piece.drop_last() =~= s@.subrange(lo as int, hi as int - 1));
        }
        hi -= 1;
    }
    proof {
        let piece = s@.subrange(lo as int, hi as int);
        if lo < hi {
            assert(piece[0] == s@[lo as int]);
            assert(piece[piece.len() - 1] == s@[hi as int - 1]);
            assert(spec_trim(piece) == piece);
        } else {
            assert(piece.len() == 0);
        }
    }
    s.substring_char(lo, hi).to_owned()
}

/// Reads the result of a process-table search: the trimmed output
/// when the search printed anything, or an error naming the keyword
/// when it printed only whitespace.  Running the search itself is the
/// caller's work; its printed output is handed in here.
pub fn grep(output: &str, keyword: &str) -> (r: Result<String, crate::error::Error>)
    ensures
        match r {
            Result::Ok(s) => spec_trim(output@).len() > 0 && s@ == spec_trim(output@),
            Result::Err(e) => spec_trim(output@).len() == 0 && e.spec_message() == keyword@
                + " not found"@,
        },
{
    let trimmed = trim_str(output);
    if trimmed.as_str().unicode_len() == 0 {
        let mut message = keyword.to_owned();
        message.append(" not found");
        Result::Err(crate::error::Error::new(message.as_str()))
    } else {
        Result::Ok(trimmed)
    }
}

/// Whether `c` is a decimal digit.
pub open spec fn spec_is_digit(c: char) -> bool {
    48 <= c as u32 && c as u32 <= 57
}

/// Whether `s` is a non-empty run of decimal digits.
pub open spec fn spec_is_digits(s: Seq<char>) -> bool {
    s.len() >= 1 && forall|i: int| 0 <= i < s.len() ==> spec_is_digit(#[trigger] s[i])
}

/// The value of a run of decimal digits.
pub open spec fn spec_digits_val(s: Seq<char>) -> int
    decreases s.len(),
{
    if s.len() == 0 {
        0
    } else {
        spec_digits_val(s.drop_last()) * 10 + (s.last() as u32 - 48)
    }
}

/// Digit runs have non-negative values.
proof fn lemma_digits_val_nonneg(s: Seq<char>)
    requires
        forall|i: int| 0 <= i < s.len() ==> spec_is_digit(#[trigger] s[i]),
    ensures
        spec_digits_val(s) >= 0,
    decreases s.len(),
{
    if s.len() > 0 {
        lemma_digits_val_nonneg(s.drop_last());
    }
}

/// A digit run is worth at least any of its prefixes.
proof fn lemma_digits_val_mono(s: Seq<char>, k: int)
    requires
        forall|i: int| 0 <= i < s.len() ==> spec_is_digit(#[trigger] s[i]),
        0 <= k <= s.len(),
    ensures
        spec_digits_val(s) >= spec_digits_val(s.take(k)),
    decreases s.len() - k,
{
    if k == s.len() {
        assert(s.take(k) =~= s);
    } else {
        lemma_digits_val_mono(s, k + 1);
        assert(s.take(k + 1).drop_last() =~= s.take(k));
        assert(forall|i: int| 0 <= i < s.take(k).len() ==> spec_is_digit(#[trigger] s.take(k)[i]));
        lemma_digits_val_nonneg(s.take(k));
        assert(spec_digits_val(s.take(k + 1)) == spec_digits_val(s.take(k)) * 10 + (s[k] as u32
            - 48));
    }
}

/// The signed decimal value of `s` when it is a well-formed number
/// that fits a 32-bit integer; `-1` otherwise, which is also what a
/// caller falls back to when the text it wanted is missing.
pub open spec fn spec_parse_i32(s: Seq<char>) -> int {
    if spec_is_digits(s) && spec_digits_val(s) <= 0x7fff_ffff {
        spec_digits_val(s)
    } else if s.len() >= 2 && s[0] == '-' && spec_is_digits(s.skip(1)) && spec_digits_val(s.skip(1))
        <= 0x8000_0000 {
        -spec_digits_val(s.skip(1))
    } else {
        -1
    }
}

/// Parses a signed 32-bit decimal number; anything malformed or out of
/// range comes back as `-1`.
pub fn parse_i32(s: &str) -> (r: i32)
    ensures
        r as int == spec_parse_i32(s@),
{
    let n = s.unicode_len();
    if n == 0 {
        return -1;
    }
    let neg = s.get_char(0) == '-';
    let start: usize = if neg {
        1
    } else {
        0
    };
    if start == n {
        return -1;
    }
    let ghost d = s@.skip(start as int);
    proof {
        if !neg {
            assert(d =~= s@);
        }
    }
    let mut i: usize = start;
    while i < n
        invariant
            start <= i <= n,
            n == s@.len(),
            n >= 1,
            d == s@.skip(start as int),
            neg ==> start == 1 && s@[0] == '-',
            !neg ==> start == 0 && s@[0] != '-',
            forall|j: int| 0 <= j < i - start ==> spec_is_digit(#[trigger] d[j]),
        decreases n - i,
    {
        let c = s.get_char(i);
        let u = c as u32;
        if !(48 <= u && u <= 57) {
            proof {
                assert(d[i - start] == s@[i as int]);
                assert(!spec_is_digits(d));
                if neg {
                    assert(!spec_is_digits(s@)) by {
                        assert(s@[0] == '-');
                        assert(!spec_is_digit(s@[0]));
                    }
                }
            }
            return -1;
        }
        proof {
            assert(d[i - start] == s@[i as int]);
        }
        i += 1;
    }
    proof {
        assert(d.len() == n - start);
        assert(spec_is_digits(d));
        if neg {
            assert(!spec_is_digits(s@)) by {
                assert(s@[0] == '-');
                assert(!spec_is_digit(s@[0]));
            }
        }
    }
    let mut acc: u64 = 0;
    let mut k: usize = start;
    proof {
        assert(d.take(0) =~= Seq::<char>::empty());
    }
    while k < n
        invariant
            start <= k <= n,
            n == s@.len(),
            n >= 1,
            d == s@.skip(start as int),
            neg ==> start == 1 && s@[0] == '-',
            !neg ==> start == 0 && s@[0] != '-',
            spec_is_digits(d),
            acc <= 0x8000_0000,
            acc as int == spec_digits_val(d.take(k - start)),
        decreases n - k,
    {
        let c = s.get_char(k);
        let u = c as u32;
        proof {
            assert(d[k - start] == s@[k as int]);
        }
        let dig = (u - 48) as u64;
        let next: u64 = acc * 10 + dig;
        proof {
            assert(d.take(k - start + 1).drop_last() =~= d.take(k - start));
            assert(d.take(k - start + 1).last() == d[k - start]);
        }
        if next > 0x8000_0000 {
            proof {
                lemma_digits_val_mono(d, k - start + 1);
                assert(spec_digits_val(d) >= next);
                assert(spec_digits_val(d) > 0x7fff_ffff);
                assert(spec_digits_val(d) > 0x8000_0000);
                if neg {
                    assert(!spec_is_digits(s@)) by {
                        assert(!spec_is_digit(s@[0]));
                    }
                } else {
                    assert(d =~= s@);
                }
            }
            return -1;
        }
        acc = next;
        k += 1;
    }
    proof {
        assert(d.take(n - start) =~= d);
        assert(acc as int == spec_digits_val(d));
        if neg {
            assert(!spec_is_digits(s@)) by {
                assert(!spec_is_digit(s@[0]));
            }
        }
    }
    if neg {
        if acc == 0x8000_0000 {
            i32::MIN
        } else {
            -(acc as i32)
        }
    } else {
        if acc > 0x7fff_ffff {
            proof {
                assert(acc == 0x8000_0000);
            }
            -1
        } else {
            acc as i32
        }
    }
}

} // verus!
