//! A reader for the flat `key : value` text of `/proc/cpuinfo`.
use crate::text::{
    chars_of, copy_range, is_whitespace, is_whitespace_char, same_chars, trim, trim_bounds,
};
use vstd::prelude::*;

verus! {

/// The index of the first line feed at or after `p`, or the length of `s`.
pub open spec fn line_end(s: Seq<char>, p: int) -> int
    decreases s.len() - p,
{
    if p >= s.len() {
        s.len() as int
    } else if s[p] == '\n' {
        p
    } else {
        line_end(s, p + 1)
    }
}

/// The text of the line that starts at `p`, without its `\n` or `\r\n`
/// terminator.
pub open spec fn line_at(s: Seq<char>, p: int) -> Seq<char> {
    let e = line_end(s, p);
    if e < s.len() && e > p && s[e - 1] == '\r' {
        s.subrange(p, e - 1)
    } else {
        s.subrange(p, e)
    }
}

/// Whether `prefix` begins `s`.
pub open spec fn starts_with(s: Seq<char>, prefix: Seq<char>) -> bool {
    prefix.len() <= s.len() && s.subrange(0, prefix.len() as int) == prefix
}

/// The index of the first `": "` in `l` at or after `k`.
pub open spec fn separator_from(l: Seq<char>, k: int) -> Option<int>
    decreases l.len() - k,
{
    if k < 0 || k + 1 >= l.len() {
        None
    } else if l[k] == ':' && l[k + 1] == ' ' {
        Some(k)
    } else {
        separator_from(l, k + 1)
    }
}

/// The value a line holds: everything after its first `": "`, trimmed;
/// `None` where the line has no such separator.
pub open spec fn line_value(l: Seq<char>) -> Option<Seq<char>> {
    match separator_from(l, 0) {
        Some(k) => Some(trim(l.subrange(k + 2, l.len() as int))),
        None => None,
    }
}

/// The value of field `name` looked up from the line that starts at `p` on:
/// taken from the first line that begins with `name`.
pub open spec fn field_from(s: Seq<char>, p: int, name: Seq<char>) -> Option<Seq<char>>
    decreases s.len() + 1 - p,
    via field_from_decreases
{
    if p < 0 || p >= s.len() {
        None
    } else if starts_with(line_at(s, p), name) {
        line_value(line_at(s, p))
    } else {
        field_from(s, line_end(s, p) + 1, name)
    }
}

#[via_fn]
proof fn field_from_decreases(s: Seq<char>, p: int, name: Seq<char>) {
    if 0 <= p < s.len() {
        lemma_line_end(s, p);
    }
}

/// The value of field `name` in the text `s`.
pub open spec fn field_value(s: Seq<char>, name: Seq<char>) -> Option<Seq<char>> {
    field_from(s, 0, name)
}

/// Where a line ends.
pub proof fn lemma_line_end(s: Seq<char>, p: int)
    requires
        0 <= p <= s.len(),
    ensures
        p <= line_end(s, p) <= s.len(),
        line_end(s, p) < s.len() ==> s[line_end(s, p)] == '\n',
        forall|k: int| p <= k < line_end(s, p) ==> s[k] != '\n',
    decreases s.len() - p,
{
    if p < s.len() && s[p] != '\n' {
        lemma_line_end(s, p + 1);
    }
}

/// Whether a line of `s` starts at `p`.
pub open spec fn is_line_start(s: Seq<char>, p: int) -> bool {
    0 <= p < s.len() && (p == 0 || s[p - 1] == '\n')
}

/// A name that no line begins with names no field: looking it up gives an
/// absent field.
pub proof fn lemma_missing_field(s: Seq<char>, name: Seq<char>)
    requires
        forall|p: int| is_line_start(s, p) ==> !starts_with(#[trigger] line_at(s, p), name),
    ensures
        field_value(s, name) is None,
{
    lemma_missing_field_from(s, name, 0);
}

proof fn lemma_missing_field_from(s: Seq<char>, name: Seq<char>, p: int)
    requires
        0 <= p,
        p >= s.len() || is_line_start(s, p),
        forall|q: int| is_line_start(s, q) ==> !starts_with(#[trigger] line_at(s, q), name),
    ensures
        field_from(s, p, name) is None,
    decreases s.len() + 1 - p,
{
    if p < s.len() {
        lemma_line_end(s, p);
        assert(!starts_with(line_at(s, p), name));
        lemma_missing_field_from(s, name, line_end(s, p) + 1);
    }
}

/// Whether `t` occurs in `v` at `i` as a whole token: bounded on each side
/// by whitespace or by an end of `v`.
pub open spec fn token_at(v: Seq<char>, t: Seq<char>, i: int) -> bool {
    &&& 0 <= i
    &&& i + t.len() <= v.len()
    &&& v.subrange(i, i + t.len()) == t
    &&& (i == 0 || is_whitespace(v[i - 1]))
    &&& (i + t.len() == v.len() || is_whitespace(v[i + t.len()]))
}

/// Whether `t` is one of the whitespace-separated tokens of `v`.
pub open spec fn is_token_of(v: Seq<char>, t: Seq<char>) -> bool {
    &&& t.len() > 0
    &&& forall|k: int| 0 <= k < t.len() ==> !is_whitespace(#[trigger] t[k])
    &&& exists|i: int| token_at(v, t, i)
}

/// What `has(token)` answers for a field value.
pub open spec fn field_has(f: Option<Seq<char>>, token: Seq<char>) -> bool {
    match f {
        None => token.len() == 0,
        Some(v) => is_token_of(v, trim(token)),
    }
}

/// What `field == other` answers for a field value.
pub open spec fn field_equals(f: Option<Seq<char>>, other: Seq<char>) -> bool {
    match f {
        None => other.len() == 0,
        Some(v) => v == trim(other),
    }
}

/// The text of a system-information resource in the `/proc/cpuinfo` format.
pub struct CpuInfo {
    raw: String,
    text: Vec<char>,
}

/// The value of one field of a `CpuInfo`: absent, or present with its
/// trimmed value.
pub struct CpuInfoField {
    value: Option<Vec<char>>,
}

impl View for CpuInfo {
    type V = Seq<char>;

    closed spec fn view(&self) -> Seq<char> {
        self.text@
    }
}

impl View for CpuInfoField {
    type V = Option<Seq<char>>;

    closed spec fn view(&self) -> Option<Seq<char>> {
        match self.value {
            Some(v) => Some(v@),
            None => None,
        }
    }
}

impl CpuInfo {
    #[verifier::type_invariant]
    spec fn raw_matches_text(&self) -> bool {
        self.raw@ == self.text@
    }

    /// Builds a `CpuInfo` over the text `other`.
    pub fn from_str(other: &str) -> (r: CpuInfo)
        ensures
            r@ == other@,
    {
        CpuInfo { raw: other.to_owned(), text: chars_of(other) }
    }

    /// Returns the raw text.
    pub fn raw(&self) -> (r: &String)
        ensures
            r@ == self@,
    {
        proof {
            use_type_invariant(self);
        }
        &self.raw
    }

    /// Returns the value of the field `field`: the text after the first
    /// `": "` of the first line that begins with `field`, trimmed.
    pub fn field(&self, field: &str) -> (r: CpuInfoField)
        ensures
            r@ == field_value(self@, field@),
    {
        let name = chars_of(field);
        let s = &self.text;
        let len = s.len();
        let mut p: usize = 0;
        while p < len
            invariant
                p <= len,
                len == s@.len(),
                s@ == self@,
                name@ == field@,
                field_from(s@, p as int, name@) == field_value(s@, name@),
            decreases len - p,
        {
            let e = next_line_feed(s, p);
            let le: usize = if e < len && e > p && s[e - 1] == '\r' {
                e - 1
            } else {
                e
            };
            assert(line_at(s@, p as int) == s@.subrange(p as int, le as int));
            if begins_with(s, p, le, &name) {
                assert(field_from(s@, p as int, name@) == line_value(line_at(s@, p as int)));
                let value = line_value_in(s, p, le);
                let r = CpuInfoField { value };
                assert(r@ == line_value(s@.subrange(p as int, le as int)));
                return r;
            }
            assert(field_from(s@, p as int, name@) == field_from(s@, e + 1, name@));
            if e == len {
                p = len;
            } else {
                p = e + 1;
            }
        }
        CpuInfoField { value: None }
    }
}

/// The index of the first line feed of `s` at or after `p`, or its length.
fn next_line_feed(s: &Vec<char>, p: usize) -> (e: usize)
    requires
        p <= s@.len(),
    ensures
        e == line_end(s@, p as int),
        p <= e <= s@.len(),
{
    let mut e = p;
    while e < s.len() && s[e] != '\n'
        invariant
            p <= e <= s@.len(),
            line_end(s@, e as int) == line_end(s@, p as int),
        decreases s@.len() - e,
    {
        e = e + 1;
    }
    e
}

/// Whether `s[lo..hi]` begins with `name`.
fn begins_with(s: &Vec<char>, lo: usize, hi: usize, name: &Vec<char>) -> (r: bool)
    requires
        lo <= hi <= s@.len(),
    ensures
        r == starts_with(s@.subrange(lo as int, hi as int), name@),
{
    if name.len() > hi - lo {
        return false;
    }
    let mut i: usize = 0;
    while i < name.len()
        invariant
            name@.len() <= hi - lo,
            lo <= hi <= s@.len(),
            i <= name@.len(),
            forall|k: int| 0 <= k < i ==> s@[lo + k] == name@[k],
        decreases name@.len() - i,
    {
        if s[lo + i] != name[i] {
            assert(s@.subrange(lo as int, hi as int).subrange(0, name@.len() as int)[i as int]
                != name@[i as int]);
            return false;
        }
        i = i + 1;
    }
    assert(s@.subrange(lo as int, hi as int).subrange(0, name@.len() as int) =~= name@);
    true
}

/// The value held by the line `s[lo..hi]`.
fn line_value_in(s: &Vec<char>, lo: usize, hi: usize) -> (r: Option<Vec<char>>)
    requires
        lo <= hi <= s@.len(),
    ensures
        match r {
            Some(v) => line_value(s@.subrange(lo as int, hi as int)) == Some(v@),
            None => line_value(s@.subrange(lo as int, hi as int)) is None,
        },
{
    let ghost l = s@.subrange(lo as int, hi as int);
    let mut k = lo;
    while hi - k >= 2
        invariant
            lo <= k <= hi,
            hi <= s@.len(),
            l == s@.subrange(lo as int, hi as int),
            separator_from(l, k - lo) == separator_from(l, 0),
        decreases hi - k,
    {
        if s[k] == ':' && s[k + 1] == ' ' {
            let (a, b) = trim_bounds(s, k + 2, hi);
            assert(l.subrange(k - lo + 2, l.len() as int) =~= s@.subrange(k + 2, hi as int));
            return Some(copy_range(s, a, b));
        }
        k = k + 1;
    }
    None
}

impl CpuInfoField {
    /// Is the field present in the text?
    pub fn present(&self) -> (r: bool)
        ensures
            r == self@ is Some,
    {
        self.value.is_some()
    }

    /// Does the field hold `other`, trimmed, as one of its
    /// whitespace-separated tokens?
    pub fn has(&self, other: &str) -> (r: bool)
        ensures
            r == field_has(self@, other@),
    {
        match &self.value {
            None => other.is_empty(),
            Some(v) => {
                let t = chars_of(other);
                let (a, b) = trim_bounds(&t, 0, t.len());
                assert(t@.subrange(0, t@.len() as int) =~= other@);
                let token = copy_range(&t, a, b);
                if token.len() == 0 {
                    return false;
                }
                let mut k: usize = 0;
                while k < token.len()
                    invariant
                        k <= token@.len(),
                        self@ == Some(v@),
                        token@ == trim(other@),
                        forall|j: int| 0 <= j < k ==> !is_whitespace(#[trigger] token@[j]),
                    decreases token@.len() - k,
                {
                    if is_whitespace_char(token[k]) {
                        assert(is_whitespace(token@[k as int]));
                        assert(!is_token_of(v@, token@));
                        return false;
                    }
                    k = k + 1;
                }
                contains_token(v, &token)
            },
        }
    }
}

/// Whether `t` occurs in `v` as a whole token.
fn contains_token(v: &Vec<char>, t: &Vec<char>) -> (r: bool)
    requires
        t@.len() > 0,
    ensures
        r == exists|i: int| token_at(v@, t@, i),
{
    if t.len() > v.len() {
        return false;
    }
    let n = v.len();
    let last = n - t.len();
    let mut i: usize = 0;
    while i <= last
        invariant
            n == v@.len(),
            last == v@.len() - t@.len(),
            last < v@.len(),
            i <= last + 1,
            forall|j: int| 0 <= j < i ==> !token_at(v@, t@, j),
        decreases last + 1 - i,
    {
        let left = i == 0 || is_whitespace_char(v[i - 1]);
        let right = i == last || is_whitespace_char(v[i + t.len()]);
        if left && right && matches_at(v, i, t) {
            assert(token_at(v@, t@, i as int));
            return true;
        }
        i = i + 1;
    }
    false
}

/// Whether `v[i..i + t.len()]` is `t`.
fn matches_at(v: &Vec<char>, i: usize, t: &Vec<char>) -> (r: bool)
    requires
        i + t@.len() <= v@.len(),
    ensures
        r == (v@.subrange(i as int, i + t@.len()) == t@),
{
    let n = v.len();
    let mut k: usize = 0;
    while k < t.len()
        invariant
            n == v@.len(),
            i + t@.len() <= v@.len(),
            k <= t@.len(),
            forall|j: int| 0 <= j < k ==> v@[i + j] == t@[j],
        decreases t@.len() - k,
    {
        if v[i + k] != t[k] {
            assert(v@.subrange(i as int, i + t@.len())[k as int] != t@[k as int]);
            return false;
        }
        k = k + 1;
    }
    assert(v@.subrange(i as int, i + t@.len()) =~= t@);
    true
}

impl<'a> PartialEq<&'a str> for CpuInfoField {
    fn eq(&self, other: &&'a str) -> (r: bool) {
        match &self.value {
            None => other.is_empty(),
            Some(v) => {
                let t = chars_of(other);
                let (a, b) = trim_bounds(&t, 0, t.len());
                assert(t@.subrange(0, t@.len() as int) =~= other@);
                let trimmed = copy_range(&t, a, b);
                same_chars(v, &trimmed)
            },
        }
    }
}

impl<'a> vstd::std_specs::cmp::PartialEqSpecImpl<&'a str> for CpuInfoField {
    open spec fn obeys_eq_spec() -> bool {
        true
    }

    open spec fn eq_spec(&self, other: &&'a str) -> bool {
        field_equals(self@, other@)
    }
}

} // verus!
