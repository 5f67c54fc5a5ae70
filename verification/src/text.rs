//! Character-level helpers: lenient UTF-8 decoding of captured process
//! output, whitespace trimming, and extraction of a path's final component.

use vstd::prelude::*;

verus! {

/// The character sequence that lenient UTF-8 decoding yields for a given
/// byte sequence: invalid sequences are replaced, never rejected.
pub uninterp spec fn lossy_decoding(bytes: Seq<u8>) -> Seq<char>;

/// Relies on `String::from_utf8_lossy`: the decoding is a function of the
/// bytes alone; an empty input decodes to an empty string, and a sequence of
/// ASCII bytes (all below 128) is valid UTF-8 and decodes to the same
/// characters, one per byte.
#[verifier::external_body]
pub fn lossy_utf8(bytes: &Vec<u8>) -> (r: String)
    ensures
        r@ == lossy_decoding(bytes@),
        bytes@.len() == 0 ==> r@.len() == 0,
        (forall|i: int| 0 <= i < bytes@.len() ==> bytes@[i] < 128) ==> (r@.len() == bytes@.len()
            && forall|i: int| 0 <= i < bytes@.len() ==> r@[i] == bytes@[i] as char),
{
    String::from_utf8_lossy(bytes).into_owned()
}

/// An ASCII whitespace character (the whitespace characters that can occur
/// in the tool's single-line query output).
pub open spec fn is_space_char(c: char) -> bool {
    c == ' ' || c == '\t' || c == '\n' || c == '\r' || c == '\u{b}' || c == '\u{c}'
}

/// `s` without its leading whitespace characters.
pub open spec fn spec_trim_front(s: Seq<char>) -> Seq<char>
    decreases s.len(),
{
    if s.len() > 0 && is_space_char(s[0]) {
        spec_trim_front(s.drop_first())
    } else {
        s
    }
}

/// `s` without its trailing whitespace characters.
pub open spec fn spec_trim_back(s: Seq<char>) -> Seq<char>
    decreases s.len(),
{
    if s.len() > 0 && is_space_char(s.last()) {
        spec_trim_back(s.drop_last())
    } else {
        s
    }
}

/// `s` without leading and trailing whitespace.
pub open spec fn spec_trim(s: Seq<char>) -> Seq<char> {
    spec_trim_back(spec_trim_front(s))
}

/// `s` ends with `suffix`.
pub open spec fn ends_with(s: Seq<char>, suffix: Seq<char>) -> bool {
    s.len() >= suffix.len() && s.skip(s.len() - suffix.len()) == suffix
}

/// `s` starts with `prefix`.
pub open spec fn starts_with(s: Seq<char>, prefix: Seq<char>) -> bool {
    s.len() >= prefix.len() && s.take(prefix.len() as int) == prefix
}

proof fn lemma_trim_front_is_skip(s: Seq<char>, i: int)
    requires
        0 <= i <= s.len(),
        forall|j: int| 0 <= j < i ==> is_space_char(s[j]),
        i == s.len() || !is_space_char(s[i]),
    ensures
        spec_trim_front(s) == s.skip(i),
    decreases i,
{
    if i == 0 {
        assert(spec_trim_front(s) == s);
        assert(s.skip(0) =~= s);
    } else {
        let s2 = s.drop_first();
        assert(is_space_char(s[0]));
        lemma_trim_front_is_skip(s2, i - 1);
        assert(s2.skip(i - 1) =~= s.skip(i));
    }
}

proof fn lemma_trim_back_is_take(s: Seq<char>, e: int)
    requires
        0 <= e <= s.len(),
        forall|j: int| e <= j < s.len() ==> is_space_char(s[j]),
        e == 0 || !is_space_char(s[e - 1]),
    ensures
        spec_trim_back(s) == s.take(e),
    decreases s.len() - e,
{
    if e == s.len() {
        if s.len() > 0 && is_space_char(s.last()) {
            assert(!is_space_char(s[e - 1]));
            assert(false);
        }
        assert(spec_trim_back(s) == s);
        assert(s.take(e) =~= s);
    } else {
        let s2 = s.drop_last();
        assert(is_space_char(s.last()));
        lemma_trim_back_is_take(s2, e);
        assert(s2.take(e) =~= s.take(e));
    }
}

/// Returns `c` if it is an ASCII whitespace character.
fn is_space(c: char) -> (r: bool)
    ensures
        r == is_space_char(c),
{
    c == ' ' || c == '\t' || c == '\n' || c == '\r' || c == '\u{b}' || c == '\u{c}'
}

/// `s` with leading and trailing ASCII whitespace removed.
pub fn trim_spaces(s: &str) -> (r: String)
    ensures
        r@ == spec_trim(s@),
{
    let len = s.unicode_len();
    let mut start: usize = 0;
    while start < len && is_space(s.get_char(start))
        invariant
            len == s@.len(),
            0 <= start <= len,
            forall|j: int| 0 <= j < start ==> is_space_char(s@[j]),
        decreases len - start,
    {
        start = start + 1;
    }
    let mut end: usize = len;
    while end > start && is_space(s.get_char(end - 1))
        invariant
            len == s@.len(),
            0 <= start <= end <= len,
            forall|j: int| end <= j < len ==> is_space_char(s@[j]),
        decreases end,
    {
        end = end - 1;
    }
    proof {
        lemma_trim_front_is_skip(s@, start as int);
        let t = s@.skip(start as int);
        lemma_trim_back_is_take(t, end - start);
        assert(t.take(end - start) =~= s@.subrange(start as int, end as int));
    }
    let r = s.substring_char(start, end);
    r.to_owned()
}

/// `s` with its trailing `/` characters removed.
pub open spec fn spec_strip_trailing_slashes(s: Seq<char>) -> Seq<char>
    decreases s.len(),
{
    if s.len() > 0 && s.last() == '/' {
        spec_strip_trailing_slashes(s.drop_last())
    } else {
        s
    }
}

/// The suffix of `s` after its last `/`, or all of `s` when it has none.
pub open spec fn spec_after_last_slash(s: Seq<char>) -> Seq<char>
    decreases s.len(),
{
    if s.len() == 0 {
        s
    } else if s.last() == '/' {
        Seq::<char>::empty()
    } else {
        spec_after_last_slash(s.drop_last()).push(s.last())
    }
}

/// The final component of a path written with `/` separators: trailing
/// separators are ignored, and an empty remainder or a final component of
/// `.` or `..` names no file.
pub open spec fn spec_file_name(path: Seq<char>) -> Option<Seq<char>> {
    let name = spec_after_last_slash(spec_strip_trailing_slashes(path));
    if name.len() == 0 || name == seq!['.'] || name == seq!['.', '.'] {
        None
    } else {
        Some(name)
    }
}

proof fn lemma_strip_trailing_is_take(s: Seq<char>, e: int)
    requires
        0 <= e <= s.len(),
        forall|j: int| e <= j < s.len() ==> s[j] == '/',
        e == 0 || s[e - 1] != '/',
    ensures
        spec_strip_trailing_slashes(s) == s.take(e),
    decreases s.len() - e,
{
    if e == s.len() {
        if s.len() > 0 && s.last() == '/' {
            assert(s[e - 1] != '/');
            assert(false);
        }
        assert(spec_strip_trailing_slashes(s) == s);
        assert(s.take(e) =~= s);
    } else {
        let s2 = s.drop_last();
        assert(s.last() == '/');
        lemma_strip_trailing_is_take(s2, e);
        assert(s2.take(e) =~= s.take(e));
    }
}

proof fn lemma_after_last_slash_is_skip(s: Seq<char>, k: int)
    requires
        0 <= k <= s.len(),
        forall|j: int| k <= j < s.len() ==> s[j] != '/',
        k == 0 || s[k - 1] == '/',
    ensures
        spec_after_last_slash(s) == s.skip(k),
    decreases s.len(),
{
    if s.len() == 0 {
        assert(s.skip(0) =~= s);
    } else if s.last() == '/' {
        assert(k == s.len());
        assert(s.skip(k) =~= Seq::<char>::empty());
    } else {
        let s2 = s.drop_last();
        assert(k <= s2.len());
        lemma_after_last_slash_is_skip(s2, k);
        assert(s2.skip(k).push(s.last()) =~= s.skip(k));
    }
}

/// The final component of `path`, under the reading of `spec_file_name`:
/// trailing `/` separators are ignored; `None` when nothing is left or the
/// last component is `.` or `..`.
pub fn file_name_of(path: &str) -> (r: Option<String>)
    ensures
        r is Some <==> spec_file_name(path@) is Some,
        r matches Some(n) ==> spec_file_name(path@) == Some(n@),
{
    let len = path.unicode_len();
    let mut end: usize = len;
    while end > 0 && path.get_char(end - 1) == '/'
        invariant
            len == path@.len(),
            0 <= end <= len,
            forall|j: int| end <= j < len ==> path@[j] == '/',
        decreases end,
    {
        end = end - 1;
    }
    let mut start: usize = end;
    while start > 0 && path.get_char(start - 1) != '/'
        invariant
            len == path@.len(),
            0 <= start <= end <= len,
            forall|j: int| start <= j < end ==> path@[j] != '/',
        decreases start,
    {
        start = start - 1;
    }
    proof {
        lemma_strip_trailing_is_take(path@, end as int);
        let t = path@.take(end as int);
        assert(forall|j: int| start <= j < t.len() ==> t[j] != '/');
        lemma_after_last_slash_is_skip(t, start as int);
        assert(t.skip(start as int) =~= path@.subrange(start as int, end as int));
    }
    let n: usize = end - start;
    if n == 0 {
        return None;
    }
    if n == 1 && path.get_char(start) == '.' {
        proof {
            assert(path@.subrange(start as int, end as int) =~= seq!['.']);
        }
        return None;
    }
    if n == 2 && path.get_char(start) == '.' && path.get_char(start + 1) == '.' {
        proof {
            assert(path@.subrange(start as int, end as int) =~= seq!['.', '.']);
        }
        return None;
    }
    let name = path.substring_char(start, end);
    proof {
        let sub = path@.subrange(start as int, end as int);
        assert(sub.len() == n);
        assert(sub != seq!['.'] && sub != seq!['.', '.']) by {
            if sub == seq!['.'] {
                assert(sub.len() == 1 && sub[0] == '.');
            }
            if sub == seq!['.', '.'] {
                assert(sub.len() == 2 && sub[0] == '.' && sub[1] == '.');
            }
        }
    }
    Some(name.to_owned())
}

} // verus!
