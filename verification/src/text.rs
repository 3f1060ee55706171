//! Character-level helpers: prefix and suffix tests, ASCII case
//! folding, and the lexicographic order used to sort backup names.

use vstd::prelude::*;

verus! {

use vstd::multiset::Multiset;

broadcast use {vstd::seq_lib::group_to_multiset_ensures, vstd::multiset::group_multiset_axioms};

/// ASCII case folding of one character; anything outside `A`..`Z` is
/// left alone.
pub open spec fn lower_char(c: char) -> char {
    if 65 <= c as u32 && c as u32 <= 90 {
        ((c as u32 + 32) as u8) as char
    } else {
        c
    }
}

/// ASCII case folding of a character sequence.
pub open spec fn lower_chars(s: Seq<char>) -> Seq<char> {
    s.map_values(|c: char| lower_char(c))
}

/// Executable ASCII case folding of one character.
pub fn lower_char_exec(c: char) -> (r: char)
    ensures
        r == lower_char(c),
{
    let u = c as u32;
    if 65 <= u && u <= 90 {
        ((u + 32) as u8) as char
    } else {
        c
    }
}

/// Whether `s` begins with `prefix`.
pub fn str_starts_with(s: &str, prefix: &str) -> (r: bool)
    ensures
        r == prefix@.is_prefix_of(s@),
{
    let n = prefix.unicode_len();
    if s.unicode_len() < n {
        return false;
    }
    let mut i: usize = 0;
    while i < n
        invariant
            n == prefix@.len(),
            n <= s@.len(),
            i <= n,
            forall|j: int| 0 <= j < i ==> s@[j] == prefix@[j],
        decreases n - i,
    {
        if s.get_char(i) != prefix.get_char(i) {
            assert(!prefix@.is_prefix_of(s@)) by {
                assert(s@.subrange(0, n as int)[i as int] != prefix@[i as int]);
            }
            return false;
        }
        i += 1;
    }
    assert(prefix@ =~= s@.subrange(0, n as int));
    true
}

/// Whether `s` begins with the ASCII-lowered form of `prefix`.
pub fn str_starts_with_lower(s: &str, prefix: &str) -> (r: bool)
    ensures
        r == lower_chars(prefix@).is_prefix_of(s@),
{
    let n = prefix.unicode_len();
    if s.unicode_len() < n {
        return false;
    }
    let mut i: usize = 0;
    while i < n
        invariant
            n == prefix@.len(),
            n <= s@.len(),
            i <= n,
            forall|j: int| 0 <= j < i ==> s@[j] == lower_chars(prefix@)[j],
        decreases n - i,
    {
        if s.get_char(i) != lower_char_exec(prefix.get_char(i)) {
            assert(!lower_chars(prefix@).is_prefix_of(s@)) by {
                assert(s@.subrange(0, n as int)[i as int] != lower_chars(prefix@)[i as int]);
            }
            return false;
        }
        i += 1;
    }
    assert(lower_chars(prefix@) =~= s@.subrange(0, n as int));
    true
}

/// Whether `s` ends with `suffix`.
pub fn str_ends_with(s: &str, suffix: &str) -> (r: bool)
    ensures
        r == suffix@.is_suffix_of(s@),
{
    let n = suffix.unicode_len();
    let len = s.unicode_len();
    if len < n {
        return false;
    }
    let off: usize = len - n;
    let mut i: usize = 0;
    while i < n
        invariant
            n == suffix@.len(),
            len == s@.len(),
            off == len - n,
            i <= n,
            forall|j: int| 0 <= j < i ==> s@[off + j] == suffix@[j],
        decreases n - i,
    {
        if s.get_char(off + i) != suffix.get_char(i) {
            assert(!suffix@.is_suffix_of(s@)) by {
                assert(s@.subrange(off as int, len as int)[i as int] != suffix@[i as int]);
            }
            return false;
        }
        i += 1;
    }
    assert(suffix@ =~= s@.subrange(off as int, len as int));
    true
}

/// Lexicographic order on character sequences, by unicode scalar
/// value: the order in which backup names are kept.
pub open spec fn chars_le(a: Seq<char>, b: Seq<char>) -> bool
    decreases a.len(),
{
    if a.len() == 0 {
        true
    } else if b.len() == 0 {
        false
    } else if (a[0] as u32) < (b[0] as u32) {
        true
    } else if (b[0] as u32) < (a[0] as u32) {
        false
    } else {
        chars_le(a.drop_first(), b.drop_first())
    }
}

/// `chars_le` is total: any two sequences are comparable.
pub proof fn lemma_chars_le_total(a: Seq<char>, b: Seq<char>)
    ensures
        chars_le(a, b) || chars_le(b, a),
    decreases a.len(),
{
    if a.len() == 0 || b.len() == 0 {
    } else if (a[0] as u32) == (b[0] as u32) {
        lemma_chars_le_total(a.drop_first(), b.drop_first());
    }
}

/// `chars_le` is transitive.
pub proof fn lemma_chars_le_trans(a: Seq<char>, b: Seq<char>, c: Seq<char>)
    requires
        chars_le(a, b),
        chars_le(b, c),
    ensures
        chars_le(a, c),
    decreases a.len(),
{
    if a.len() == 0 {
    } else {
        assert(b.len() > 0);
        assert(c.len() > 0);
        if (a[0] as u32) == (b[0] as u32) && (b[0] as u32) == (c[0] as u32) {
            lemma_chars_le_trans(a.drop_first(), b.drop_first(), c.drop_first());
        }
    }
}

/// Whether `a` comes no later than `b` in lexicographic order.
pub fn str_le(a: &str, b: &str) -> (r: bool)
    ensures
        r == chars_le(a@, b@),
{
    let alen = a.unicode_len();
    let blen = b.unicode_len();
    let mut i: usize = 0;
    proof {
        assert(a@.skip(0) =~= a@);
        assert(b@.skip(0) =~= b@);
    }
    while i < alen && i < blen
        invariant
            alen == a@.len(),
            blen == b@.len(),
            i <= alen,
            i <= blen,
            chars_le(a@, b@) == chars_le(a@.skip(i as int), b@.skip(i as int)),
            chars_le(b@, a@) == chars_le(b@.skip(i as int), a@.skip(i as int)),
        decreases alen - i,
    {
        let ca = a.get_char(i);
        let cb = b.get_char(i);
        if (ca as u32) < (cb as u32) {
            return true;
        }
        if (cb as u32) < (ca as u32) {
            return false;
        }
        proof {
            assert(a@.skip(i as int).drop_first() =~= a@.skip(i as int + 1));
            assert(b@.skip(i as int).drop_first() =~= b@.skip(i as int + 1));
        }
        i += 1;
    }
    proof {
        if i == alen {
            assert(a@.skip(i as int).len() == 0);
        } else {
            assert(b@.skip(i as int).len() == 0);
            assert(a@.skip(i as int).len() > 0);
        }
    }
    i == alen
}

/// Whether a sequence of names is in ascending lexicographic order.
pub open spec fn strings_sorted(s: Seq<String>) -> bool {
    forall|i: int, j: int| 0 <= i < j < s.len() ==> chars_le(s[i]@, s[j]@)
}

/// The index of a least element of a non-empty list of names.
fn min_index(v: &Vec<String>) -> (mi: usize)
    requires
        v@.len() > 0,
    ensures
        mi < v@.len(),
        forall|j: int| 0 <= j < v@.len() ==> chars_le(v@[mi as int]@, v@[j]@),
{
    let mut best: usize = 0;
    let mut i: usize = 1;
    proof {
        lemma_chars_le_total(v@[0]@, v@[0]@);
    }
    while i < v.len()
        invariant
            best < i,
            i <= v@.len(),
            forall|j: int| 0 <= j < i ==> chars_le(v@[best as int]@, v@[j]@),
        decreases v@.len() - i,
    {
        if !str_le(v[best].as_str(), v[i].as_str()) {
            proof {
                lemma_chars_le_total(v@[best as int]@, v@[i as int]@);
                assert forall|j: int| 0 <= j < i + 1 implies chars_le(
                    v@[i as int]@,
                    v@[j]@,
                ) by {
                    if j < i {
                        lemma_chars_le_trans(v@[i as int]@, v@[best as int]@, v@[j]@);
                    } else {
                        lemma_chars_le_total(v@[i as int]@, v@[i as int]@);
                    }
                }
            }
            best = i;
        }
        i += 1;
    }
    best
}

/// Sorts a list of names into ascending lexicographic order.
pub fn sort_strings(v: &Vec<String>) -> (r: Vec<String>)
    ensures
        strings_sorted(r@),
        r@.to_multiset() == v@.to_multiset(),
        r@.len() == v@.len(),
{
    let mut work: Vec<String> = Vec::new();
    let mut k: usize = 0;
    while k < v.len()
        invariant
            k <= v@.len(),
            work@.len() == k,
            forall|j: int| 0 <= j < k ==> work@[j] == v@[j],
        decreases v@.len() - k,
    {
        work.push(v[k].clone());
        k += 1;
    }
    assert(work@ =~= v@);

    let mut out: Vec<String> = Vec::new();
    while work.len() > 0
        invariant
            out@.len() + work@.len() == v@.len(),
            out@.to_multiset().add(work@.to_multiset()) =~= v@.to_multiset(),
            strings_sorted(out@),
            forall|i: int, j: int|
                0 <= i < out@.len() && 0 <= j < work@.len() ==> chars_le(out@[i]@, work@[j]@),
        decreases work@.len(),
    {
        let ghost old_out = out@;
        let ghost old_work = work@;
        let mi = min_index(&work);
        let x = work.remove(mi);
        out.push(x);
        proof {
            assert(work@ =~= old_work.remove(mi as int));
            assert(out@ =~= old_out.push(x));
            assert(x == old_work[mi as int]);
            assert(old_work.to_multiset().count(x) >= 1) by {
                assert(old_work[mi as int] == x);
                assert(old_work.contains(x));
            }
            assert(out@.to_multiset() =~= old_out.push(x).to_multiset());
            assert(out@.to_multiset() =~= old_out.to_multiset().insert(x));
            assert(work@.to_multiset() =~= old_work.remove(mi as int).to_multiset());
            assert(work@.to_multiset() =~= old_work.to_multiset().remove(x));
            assert(out@.to_multiset().add(work@.to_multiset()) =~= old_out.to_multiset().add(
                old_work.to_multiset(),
            ));
            assert(out@.to_multiset().add(work@.to_multiset()) =~= v@.to_multiset());
            assert forall|i: int, j: int|
                0 <= i < out@.len() && 0 <= j < work@.len() implies chars_le(
                out@[i]@,
                work@[j]@,
            ) by {
                if i < old_out.len() {
                } else {
                    assert(out@[i] == x);
                    if j < mi {
                        assert(work@[j] == old_work[j]);
                    } else {
                        assert(work@[j] == old_work[j + 1]);
                    }
                }
            }
        }
    }
    proof {
        assert(work@.to_multiset() =~= Multiset::<String>::empty()) by {
            assert(work@ =~= Seq::<String>::empty());
        }
        assert(out@.to_multiset() =~= v@.to_multiset());
    }
    out
}

/// The position of the first name that begins with `prefix`, if any.
pub fn find_first_with_prefix(names: &Vec<String>, prefix: &str) -> (r: Option<usize>)
    ensures
        match r {
            Some(i) => i < names@.len() && prefix@.is_prefix_of(names@[i as int]@) && forall|
                j: int,
            | 0 <= j < i ==> !prefix@.is_prefix_of(names@[j]@),
            None => forall|j: int| 0 <= j < names@.len() ==> !prefix@.is_prefix_of(names@[j]@),
        },
{
    let mut i: usize = 0;
    while i < names.len()
        invariant
            i <= names@.len(),
            forall|j: int| 0 <= j < i ==> !prefix@.is_prefix_of(names@[j]@),
        decreases names@.len() - i,
    {
        if str_starts_with(names[i].as_str(), prefix) {
            return Some(i);
        }
        i += 1;
    }
    None
}

/// The position of the first name that ends with `suffix`, if any.
pub fn find_first_with_suffix(names: &Vec<String>, suffix: &str) -> (r: Option<usize>)
    ensures
        match r {
            Some(i) => i < names@.len() && suffix@.is_suffix_of(names@[i as int]@) && forall|
                j: int,
            | 0 <= j < i ==> !suffix@.is_suffix_of(names@[j]@),
            None => forall|j: int| 0 <= j < names@.len() ==> !suffix@.is_suffix_of(names@[j]@),
        },
{
    let mut i: usize = 0;
    while i < names.len()
        invariant
            i <= names@.len(),
            forall|j: int| 0 <= j < i ==> !suffix@.is_suffix_of(names@[j]@),
        decreases names@.len() - i,
    {
        if str_ends_with(names[i].as_str(), suffix) {
            return Some(i);
        }
        i += 1;
    }
    None
}

/// Whether the two strings hold the same characters.
pub fn str_eq(a: &str, b: &str) -> (r: bool)
    ensures
        r == (a@ == b@),
{
    let n = a.unicode_len();
    if b.unicode_len() != n {
        return false;
    }
    let mut i: usize = 0;
    while i < n
        invariant
            n == a@.len(),
            n == b@.len(),
            i <= n,
            forall|j: int| 0 <= j < i ==> a@[j] == b@[j],
        decreases n - i,
    {
        if a.get_char(i) != b.get_char(i) {
            return false;
        }
        i += 1;
    }
    assert(a@ =~= b@);
    true
}

} // verus!
