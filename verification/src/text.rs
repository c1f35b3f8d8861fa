//! Verified text helpers shared by the endpoint templates, the credential
//! scraper and the menu reduction: literal substring search and replacement,
//! ASCII case folding, and whitespace trimming, all specified over `Seq<char>`.

use vstd::prelude::*;

verus! {

/// The pattern occurs in `text` starting at index `i`.
pub open spec fn spec_match_at(text: Seq<char>, pat: Seq<char>, i: int) -> bool {
    0 <= i && i + pat.len() <= text.len() && text.subrange(i, i + pat.len() as int) == pat
}

/// The pattern occurs somewhere in `text` (literal substring containment).
pub open spec fn spec_contains(text: Seq<char>, pat: Seq<char>) -> bool {
    exists|i: int| spec_match_at(text, pat, i)
}

/// Literal, leftmost, non-overlapping replacement of every occurrence of
/// `pat` in `text` by `val`. For an empty pattern the text is left unchanged;
/// the callers in this crate only use non-empty patterns.
pub open spec fn spec_replace(text: Seq<char>, pat: Seq<char>, val: Seq<char>) -> Seq<char>
    decreases text.len(),
{
    if pat.len() == 0 || text.len() < pat.len() {
        text
    } else if text.subrange(0, pat.len() as int) == pat {
        val + spec_replace(text.skip(pat.len() as int), pat, val)
    } else {
        seq![text[0]] + spec_replace(text.skip(1), pat, val)
    }
}

/// ASCII lower-casing of one character; other characters are unchanged.
pub open spec fn spec_lower_char(c: char) -> char {
    if 'A' <= c && c <= 'Z' {
        (((c as u8) + 32) as char)
    } else {
        c
    }
}

/// ASCII lower-casing of a character sequence.
pub open spec fn spec_lower(text: Seq<char>) -> Seq<char> {
    text.map_values(|c: char| spec_lower_char(c))
}

/// ASCII whitespace. Matching in this crate is deliberately limited to the
/// ASCII repertoire: the keys compared against are ASCII.
pub open spec fn spec_is_space(c: char) -> bool {
    c == ' ' || c == '\t' || c == '\n' || c == '\r' || c == '\u{b}' || c == '\u{c}'
}

/// The sequence with its leading whitespace removed.
pub open spec fn spec_trim_start(text: Seq<char>) -> Seq<char>
    decreases text.len(),
{
    if text.len() > 0 && spec_is_space(text[0]) {
        spec_trim_start(text.drop_first())
    } else {
        text
    }
}

/// The sequence with its trailing whitespace removed.
pub open spec fn spec_trim_end(text: Seq<char>) -> Seq<char>
    decreases text.len(),
{
    if text.len() > 0 && spec_is_space(text.last()) {
        spec_trim_end(text.drop_last())
    } else {
        text
    }
}

/// The sequence with surrounding whitespace removed.
pub open spec fn spec_trim(text: Seq<char>) -> Seq<char> {
    spec_trim_end(spec_trim_start(text))
}

/// Does `pat` occur in `text` at character position `i`?
pub fn match_at(text: &str, pat: &str, i: usize, text_len: usize, pat_len: usize) -> (r: bool)
    requires
        text_len == text@.len(),
        pat_len == pat@.len(),
        i + pat_len <= text_len,
    ensures
        r == spec_match_at(text@, pat@, i as int),
{
    let mut k: usize = 0;
    while k < pat_len
        invariant
            text_len == text@.len(),
            pat_len == pat@.len(),
            i + pat_len <= text_len,
            0 <= k <= pat_len,
            forall|j: int| 0 <= j < k ==> text@[i + j] == pat@[j],
        decreases pat_len - k,
    {
        if text.get_char(i + k) != pat.get_char(k) {
            proof {
                assert(text@.subrange(i as int, i + pat@.len())[k as int] == text@[i + k]);
            }
            return false;
        }
        k += 1;
    }
    proof {
        assert(text@.subrange(i as int, i + pat@.len()) =~= pat@);
    }
    true
}

/// Literal substring search: does `pat` occur anywhere in `text`?
pub fn contains_sub(text: &str, pat: &str) -> (r: bool)
    ensures
        r == spec_contains(text@, pat@),
{
    let text_len = text.unicode_len();
    let pat_len = pat.unicode_len();
    if pat_len > text_len {
        assert(forall|i: int| !spec_match_at(text@, pat@, i));
        return false;
    }
    if pat_len == 0 {
        proof {
            assert(text@.subrange(0, 0) =~= pat@);
            assert(spec_match_at(text@, pat@, 0));
        }
        return true;
    }
    let mut i: usize = 0;
    while i <= text_len - pat_len
        invariant
            text_len == text@.len(),
            pat_len == pat@.len(),
            0 < pat_len <= text_len,
            0 <= i <= text_len - pat_len + 1,
            forall|j: int| 0 <= j < i ==> !spec_match_at(text@, pat@, j),
        decreases text_len - i,
    {
        if match_at(text, pat, i, text_len, pat_len) {
            return true;
        }
        i += 1;
    }
    assert(forall|j: int| !spec_match_at(text@, pat@, j));
    false
}

/// Replaces every occurrence of the non-empty pattern `pat` in `text` with
/// `val`, scanning left to right without overlap.
pub fn replace_sub(text: &str, pat: &str, val: &str) -> (r: String)
    requires
        pat@.len() > 0,
    ensures
        r@ == spec_replace(text@, pat@, val@),
{
    let text_len = text.unicode_len();
    let pat_len = pat.unicode_len();
    let mut out = String::new();
    let mut i: usize = 0;
    proof {
        assert(text@.skip(0) =~= text@);
        assert(out@ + spec_replace(text@, pat@, val@) =~= spec_replace(text@, pat@, val@));
    }
    while i < text_len
        invariant
            text_len == text@.len(),
            pat_len == pat@.len(),
            pat_len > 0,
            0 <= i <= text_len,
            spec_replace(text@, pat@, val@) == out@ + spec_replace(
                text@.skip(i as int),
                pat@,
                val@,
            ),
        decreases text_len - i,
    {
        let ghost rest = text@.skip(i as int);
        if pat_len <= text_len - i && match_at(text, pat, i, text_len, pat_len) {
            proof {
                assert(rest.subrange(0, pat@.len() as int) =~= text@.subrange(
                    i as int,
                    i + pat@.len(),
                ));
                assert(rest.skip(pat@.len() as int) =~= text@.skip(i + pat@.len()));
            }
            out.append(val);
            i += pat_len;
        } else {
            proof {
                if i + pat@.len() <= text@.len() {
                    assert(rest.subrange(0, pat@.len() as int) =~= text@.subrange(
                        i as int,
                        i + pat@.len(),
                    ));
                }
                assert(rest.skip(1) =~= text@.skip(i + 1));
                assert(seq![rest[0]] =~= text@.subrange(i as int, i + 1));
            }
            let piece = text.substring_char(i, i + 1);
            out.append(piece);
            i += 1;
        }
    }
    proof {
        assert(text@.skip(text@.len() as int) =~= Seq::<char>::empty());
        assert(out@ + Seq::<char>::empty() =~= out@);
    }
    out
}

/// ASCII lower-casing of one character.
pub fn lower_char(c: char) -> (r: char)
    ensures
        r == spec_lower_char(c),
{
    if 'A' <= c && c <= 'Z' {
        ((c as u8) + 32) as char
    } else {
        c
    }
}

/// The characters of `s`, ASCII lower-cased.
pub fn lower_chars(s: &str) -> (v: Vec<char>)
    ensures
        v@ == spec_lower(s@),
{
    let len = s.unicode_len();
    let mut v: Vec<char> = Vec::new();
    let mut i: usize = 0;
    while i < len
        invariant
            len == s@.len(),
            0 <= i <= len,
            v@.len() == i,
            forall|j: int| 0 <= j < i ==> v@[j] == spec_lower_char(s@[j]),
        decreases len - i,
    {
        v.push(lower_char(s.get_char(i)));
        i += 1;
    }
    proof {
        assert(v@ =~= spec_lower(s@));
    }
    v
}

/// Does the ASCII lower-casing of `s` equal `key`?
pub fn eq_lower_key(s: &str, key: &str) -> (r: bool)
    ensures
        r == (spec_lower(s@) == key@),
{
    let len = s.unicode_len();
    let key_len = key.unicode_len();
    if len != key_len {
        return false;
    }
    let mut i: usize = 0;
    while i < len
        invariant
            len == s@.len() == key@.len(),
            0 <= i <= len,
            forall|j: int| 0 <= j < i ==> spec_lower_char(s@[j]) == key@[j],
        decreases len - i,
    {
        if lower_char(s.get_char(i)) != key.get_char(i) {
            proof {
                assert(spec_lower(s@)[i as int] == spec_lower_char(s@[i as int]));
            }
            return false;
        }
        i += 1;
    }
    proof {
        assert(spec_lower(s@) =~= key@);
    }
    true
}

/// Does `pat` occur in the character vector `v` at position `i`?
fn match_at_chars(v: &Vec<char>, pat: &str, i: usize, pat_len: usize) -> (r: bool)
    requires
        pat_len == pat@.len(),
        i + pat_len <= v@.len(),
    ensures
        r == spec_match_at(v@, pat@, i as int),
{
    let v_len = v.len();
    let mut k: usize = 0;
    while k < pat_len
        invariant
            pat_len == pat@.len(),
            i + pat_len <= v@.len() <= usize::MAX,
            0 <= k <= pat_len,
            forall|j: int| 0 <= j < k ==> v@[i + j] == pat@[j],
        decreases pat_len - k,
    {
        if v[i + k] != pat.get_char(k) {
            proof {
                assert(v@.subrange(i as int, i + pat@.len())[k as int] == v@[i + k]);
            }
            return false;
        }
        k += 1;
    }
    proof {
        assert(v@.subrange(i as int, i + pat@.len()) =~= pat@);
    }
    true
}

/// Removes every occurrence of the non-empty pattern `pat` from `v`,
/// scanning left to right without overlap.
pub fn remove_sub_chars(v: &Vec<char>, pat: &str) -> (out: Vec<char>)
    requires
        pat@.len() > 0,
    ensures
        out@ == spec_replace(v@, pat@, Seq::<char>::empty()),
{
    let len = v.len();
    let pat_len = pat.unicode_len();
    let mut out: Vec<char> = Vec::new();
    let mut i: usize = 0;
    proof {
        assert(v@.skip(0) =~= v@);
        assert(out@ + spec_replace(v@, pat@, Seq::<char>::empty()) =~= spec_replace(
            v@,
            pat@,
            Seq::<char>::empty(),
        ));
    }
    while i < len
        invariant
            len == v@.len(),
            pat_len == pat@.len(),
            pat_len > 0,
            0 <= i <= len,
            spec_replace(v@, pat@, Seq::<char>::empty()) == out@ + spec_replace(
                v@.skip(i as int),
                pat@,
                Seq::<char>::empty(),
            ),
        decreases len - i,
    {
        let ghost rest = v@.skip(i as int);
        if pat_len <= len - i && match_at_chars(v, pat, i, pat_len) {
            proof {
                assert(rest.subrange(0, pat@.len() as int) =~= v@.subrange(
                    i as int,
                    i + pat@.len(),
                ));
                assert(rest.skip(pat@.len() as int) =~= v@.skip(i + pat@.len()));
                assert(out@ + Seq::<char>::empty() + spec_replace(
                    v@.skip(i + pat@.len()),
                    pat@,
                    Seq::<char>::empty(),
                ) =~= out@ + spec_replace(v@.skip(i + pat@.len()), pat@, Seq::<char>::empty()));
            }
            i += pat_len;
        } else {
            proof {
                if i + pat@.len() <= v@.len() {
                    assert(rest.subrange(0, pat@.len() as int) =~= v@.subrange(
                        i as int,
                        i + pat@.len(),
                    ));
                }
                assert(rest.skip(1) =~= v@.skip(i + 1));
                assert(seq![rest[0]] =~= v@.subrange(i as int, i + 1));
                assert((out@ + seq![v@[i as int]]) + spec_replace(
                    v@.skip(i + 1),
                    pat@,
                    Seq::<char>::empty(),
                ) =~= out@ + (seq![v@[i as int]] + spec_replace(
                    v@.skip(i + 1),
                    pat@,
                    Seq::<char>::empty(),
                )));
            }
            let c = v[i];
            out.push(c);
            i += 1;
        }
    }
    proof {
        assert(v@.skip(v@.len() as int) =~= Seq::<char>::empty());
        assert(out@ + Seq::<char>::empty() =~= out@);
    }
    out
}

/// Trimming a sequence whose first `k` characters are whitespace and whose
/// `k`-th character (if any) is not starts at position `k`.
proof fn lemma_trim_start_skip(s: Seq<char>, k: int)
    requires
        0 <= k <= s.len(),
        forall|j: int| 0 <= j < k ==> spec_is_space(s[j]),
        k < s.len() ==> !spec_is_space(s[k]),
    ensures
        spec_trim_start(s) == s.skip(k),
    decreases k,
{
    if k == 0 {
        assert(s.skip(0) =~= s);
    } else {
        let t = s.drop_first();
        assert(forall|j: int| 0 <= j < k - 1 ==> spec_is_space(t[j]));
        lemma_trim_start_skip(t, k - 1);
        assert(t.skip(k - 1) =~= s.skip(k));
    }
}

/// Trimming the end of a sequence whose characters from `k` on are whitespace
/// and whose `k - 1`-th character (if any) is not ends at position `k`.
proof fn lemma_trim_end_take(s: Seq<char>, k: int)
    requires
        0 <= k <= s.len(),
        forall|j: int| k <= j < s.len() ==> spec_is_space(s[j]),
        k > 0 ==> !spec_is_space(s[k - 1]),
    ensures
        spec_trim_end(s) == s.take(k),
    decreases s.len() - k,
{
    if k == s.len() {
        assert(s.take(k) =~= s);
        if s.len() > 0 && spec_is_space(s.last()) {
            assert(!spec_is_space(s[k - 1]));
            assert(false);
        }
    } else {
        let t = s.drop_last();
        assert(forall|j: int| k <= j < t.len() ==> spec_is_space(t[j]));
        lemma_trim_end_take(t, k);
        assert(t.take(k) =~= s.take(k));
    }
}

/// ASCII whitespace test for one character.
pub fn is_space_char(c: char) -> (r: bool)
    ensures
        r == spec_is_space(c),
{
    c == ' ' || c == '\t' || c == '\n' || c == '\r' || c == '\u{b}' || c == '\u{c}'
}

/// The surrounding-whitespace trim of `v`, as a fresh character vector.
pub fn trim_chars(v: &Vec<char>) -> (out: Vec<char>)
    ensures
        out@ == spec_trim(v@),
{
    let len = v.len();
    let mut a: usize = 0;
    while a < len && is_space_char(v[a])
        invariant
            len == v@.len(),
            0 <= a <= len,
            forall|j: int| 0 <= j < a ==> spec_is_space(v@[j]),
        decreases len - a,
    {
        a += 1;
    }
    proof {
        lemma_trim_start_skip(v@, a as int);
    }
    let ghost started = v@.skip(a as int);
    let mut b: usize = len;
    while b > a && is_space_char(v[b - 1])
        invariant
            len == v@.len(),
            a <= b <= len,
            forall|j: int| b <= j < len ==> spec_is_space(v@[j]),
        decreases b,
    {
        b -= 1;
    }
    proof {
        assert(forall|j: int| b - a <= j < started.len() ==> spec_is_space(started[j]));
        if b > a {
            assert(!spec_is_space(started[b - a - 1]));
        }
        lemma_trim_end_take(started, b - a);
    }
    let mut out: Vec<char> = Vec::new();
    let mut i: usize = a;
    while i < b
        invariant
            a <= i <= b <= v@.len(),
            out@.len() == i - a,
            forall|j: int| 0 <= j < i - a ==> out@[j] == v@[a + j],
        decreases b - i,
    {
        let c = v[i];
        out.push(c);
        i += 1;
    }
    proof {
        assert(out@ =~= started.take(b - a as int));
    }
    out
}

/// Do two string slices hold the same characters?
pub fn str_eq(a: &str, b: &str) -> (r: bool)
    ensures
        r == (a@ == b@),
{
    let a_len = a.unicode_len();
    let b_len = b.unicode_len();
    if a_len != b_len {
        return false;
    }
    let mut i: usize = 0;
    while i < a_len
        invariant
            a_len == a@.len() == b@.len(),
            0 <= i <= a_len,
            forall|j: int| 0 <= j < i ==> a@[j] == b@[j],
        decreases a_len - i,
    {
        if a.get_char(i) != b.get_char(i) {
            return false;
        }
        i += 1;
    }
    proof {
        assert(a@ =~= b@);
    }
    true
}

/// Does the character vector equal the characters of `s`?
pub fn chars_eq_str(v: &Vec<char>, s: &str) -> (r: bool)
    ensures
        r == (v@ == s@),
{
    let len = v.len();
    let s_len = s.unicode_len();
    if len != s_len {
        return false;
    }
    let mut i: usize = 0;
    while i < len
        invariant
            len == v@.len() == s@.len(),
            0 <= i <= len,
            forall|j: int| 0 <= j < i ==> v@[j] == s@[j],
        decreases len - i,
    {
        if v[i] != s.get_char(i) {
            return false;
        }
        i += 1;
    }
    proof {
        assert(v@ =~= s@);
    }
    true
}

} // verus!
