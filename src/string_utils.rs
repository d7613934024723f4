use vstd::prelude::*;

verus! {

/// `a` and `b` are equal once ASCII letters are folded to lower case.
pub open spec fn chars_eq_ignore_ascii_case(a: char, b: char) -> bool {
    ||| a == b
    ||| (65 <= (a as u32) <= 90 && (a as u32) + 32 == (b as u32))
    ||| (65 <= (b as u32) <= 90 && (b as u32) + 32 == (a as u32))
}

pub open spec fn eq_ignore_ascii_case_spec(a: Seq<char>, b: Seq<char>) -> bool {
    &&& a.len() == b.len()
    &&& forall|i: int| 0 <= i < a.len() ==> #[trigger] chars_eq_ignore_ascii_case(a[i], b[i])
}

/// Relies on `str::eq_ignore_ascii_case`: the two strings are equal after
/// both have their ASCII letters lowered.
#[verifier::external_body]
pub(crate) fn eq_ignore_ascii_case(a: &str, b: &str) -> (r: bool)
    ensures
        r == eq_ignore_ascii_case_spec(a@, b@),
{
    a.eq_ignore_ascii_case(b)
}

/// `s` holds the character `c`.
pub fn contains_char(s: &str, c: char) -> (r: bool)
    ensures
        r == s@.contains(c),
{
    let n = s.unicode_len();
    let mut i: usize = 0;
    while i < n
        invariant
            n == s@.len(),
            i <= n,
            forall|j: int| 0 <= j < i ==> s@[j] != c,
        decreases n - i,
    {
        if s.get_char(i) == c {
            return true;
        }
        i = i + 1;
    }
    false
}

/// `s` begins with `prefix`.
pub fn starts_with(s: &str, prefix: &str) -> (r: bool)
    ensures
        r == (prefix@.len() <= s@.len() && s@.subrange(0, prefix@.len() as int) == prefix@),
{
    let n = s.unicode_len();
    let m = prefix.unicode_len();
    if m > n {
        return false;
    }
    let mut i: usize = 0;
    while i < m
        invariant
            n == s@.len(),
            m == prefix@.len(),
            m <= n,
            i <= m,
            forall|j: int| 0 <= j < i ==> s@[j] == prefix@[j],
        decreases m - i,
    {
        if s.get_char(i) != prefix.get_char(i) {
            assert(s@.subrange(0, m as int)[i as int] != prefix@[i as int]);
            return false;
        }
        i = i + 1;
    }
    assert(s@.subrange(0, m as int) =~= prefix@);
    true
}

/// The position just past the last `\` of `s`, or 0 where it has none.
pub open spec fn unqualified_start(s: Seq<char>) -> int
    decreases s.len(),
{
    if s.len() == 0 {
        0
    } else if s.last() == '\\' {
        s.len() as int
    } else {
        unqualified_start(s.drop_last())
    }
}

/// The name without its namespace: what follows the last `\`.
pub open spec fn strip_ns_spec(s: Seq<char>) -> Seq<char> {
    s.subrange(unqualified_start(s), s.len() as int)
}

pub fn strip_ns(s: &str) -> (r: String)
    ensures
        r@ == strip_ns_spec(s@),
{
    let n = s.unicode_len();
    let mut i: usize = n;
    assert(s@.subrange(0, n as int) =~= s@);
    while i > 0 && s.get_char(i - 1) != '\\'
        invariant
            n == s@.len(),
            i <= n,
            unqualified_start(s@) == unqualified_start(s@.subrange(0, i as int)),
        decreases i,
    {
        assert(s@.subrange(0, i as int).drop_last() =~= s@.subrange(0, i - 1));
        i = i - 1;
    }
    proof {
        if i == 0 {
            assert(s@.subrange(0, 0) =~= Seq::<char>::empty());
        } else {
            assert(s@.subrange(0, i as int).last() == '\\');
        }
    }
    s.substring_char(i, n).to_owned()
}

/// The name without a leading `\`.
pub open spec fn strip_global_ns_spec(s: Seq<char>) -> Seq<char> {
    if s.len() > 0 && s[0] == '\\' {
        s.subrange(1, s.len() as int)
    } else {
        s
    }
}

pub fn strip_global_ns(s: &str) -> (r: String)
    ensures
        r@ == strip_global_ns_spec(s@),
{
    let n = s.unicode_len();
    if n > 0 && s.get_char(0) == '\\' {
        s.substring_char(1, n).to_owned()
    } else {
        s.to_owned()
    }
}

/// `s` is the single character `c`.
pub fn is_single_char(s: &str, c: char) -> (r: bool)
    ensures
        r == (s@ == seq![c]),
{
    if s.unicode_len() == 1 && s.get_char(0) == c {
        assert(s@ =~= seq![c]);
        true
    } else {
        false
    }
}

/// `a` and `b` hold the same characters.
pub fn eq_str(a: &str, b: &str) -> (r: bool)
    ensures
        r == (a@ == b@),
{
    let n = a.unicode_len();
    if n != b.unicode_len() {
        return false;
    }
    let mut i: usize = 0;
    while i < n
        invariant
            n == a@.len(),
            n == b@.len(),
            i <= n,
            forall|j: int| 0 <= j < i ==> a@[j] == b@[j],
        decreases n - i,
    {
        if a.get_char(i) != b.get_char(i) {
            return false;
        }
        i = i + 1;
    }
    assert(a@ =~= b@);
    true
}

/// One of `names` is `name`.
pub open spec fn has_name(names: Seq<String>, name: Seq<char>) -> bool {
    exists|i: int| 0 <= i < names.len() && #[trigger] names[i]@ == name
}

pub fn contains_name(names: &Vec<String>, name: &str) -> (r: bool)
    ensures
        r == has_name(names@, name@),
{
    let mut i: usize = 0;
    while i < names.len()
        invariant
            i <= names.len(),
            forall|j: int| 0 <= j < i ==> #[trigger] names@[j]@ != name@,
        decreases names.len() - i,
    {
        if eq_str(names[i].as_str(), name) {
            return true;
        }
        i = i + 1;
    }
    false
}

} // verus!
