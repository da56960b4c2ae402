use vstd::prelude::*;
use vstd::string::*;

verus! {

/// `text` holds `pat` at position `at`.
pub open spec fn occurs_at(text: Seq<char>, pat: Seq<char>, at: int) -> bool {
    0 <= at && at + pat.len() <= text.len() && text.subrange(at, at + pat.len()) == pat
}

/// `text` begins with `prefix`.
pub open spec fn has_prefix(text: Seq<char>, prefix: Seq<char>) -> bool {
    occurs_at(text, prefix, 0)
}

/// `text` ends with `suffix`.
pub open spec fn has_suffix(text: Seq<char>, suffix: Seq<char>) -> bool {
    occurs_at(text, suffix, text.len() - suffix.len())
}

/// `pat` occurs somewhere in `text`.
pub open spec fn has_infix(text: Seq<char>, pat: Seq<char>) -> bool {
    exists|at: int| occurs_at(text, pat, at)
}

/// Position of the first occurrence of `pat` in `text`, if there is one.
pub open spec fn first_occurrence(text: Seq<char>, pat: Seq<char>) -> Option<int> {
    if has_infix(text, pat) {
        Some(choose|at: int| occurs_at(text, pat, at) && forall|j: int| 0 <= j < at ==> !occurs_at(text, pat, j))
    } else {
        None
    }
}

/// The position reached from `at` by stepping over every repetition of a
/// non-empty `pat` that stands there.
pub open spec fn skip_repeats(text: Seq<char>, pat: Seq<char>, at: int) -> int
    decreases text.len() - at,
{
    if pat.len() > 0 && occurs_at(text, pat, at) {
        skip_repeats(text, pat, at + pat.len())
    } else {
        at
    }
}

/// What is left of `text` once every leading repetition of `pat` is removed.
pub open spec fn without_leading(text: Seq<char>, pat: Seq<char>) -> Seq<char> {
    text.subrange(skip_repeats(text, pat, 0), text.len() as int)
}

/// Copies the characters of a string slice into a vector.
pub fn chars_of(text: &str) -> (out: Vec<char>)
    ensures
        out@ == text@,
{
    let n: usize = text.unicode_len();
    let mut out: Vec<char> = Vec::new();
    let mut i: usize = 0;
    while i < n
        invariant
            n == text@.len(),
            i <= n,
            out@ == text@.subrange(0, i as int),
        decreases n - i,
    {
        out.push(text.get_char(i));
        assert(out@ =~= text@.subrange(0, i + 1));
        i = i + 1;
    }
    assert(text@.subrange(0, n as int) =~= text@);
    out
}

/// Tests whether `pat` stands in `text` at position `at`.
pub fn matches_at(text: &Vec<char>, pat: &Vec<char>, at: usize) -> (r: bool)
    ensures
        r == occurs_at(text@, pat@, at as int),
{
    if pat.len() > text.len() || at > text.len() - pat.len() {
        return false;
    }
    let mut i: usize = 0;
    while i < pat.len()
        invariant
            at + pat.len() <= text.len(),
            i <= pat.len(),
            forall|j: int| 0 <= j < i ==> text@[at + j] == pat@[j],
        decreases pat.len() - i,
    {
        if text[at + i] != pat[i] {
            assert(text@.subrange(at as int, at + pat.len())[i as int] != pat@[i as int]);
            return false;
        }
        i = i + 1;
    }
    assert(text@.subrange(at as int, at + pat.len()) =~= pat@);
    true
}

/// Finds the first position at which `pat` stands in `text`.
pub fn find_first(text: &Vec<char>, pat: &Vec<char>) -> (r: Option<usize>)
    ensures
        r is Some == has_infix(text@, pat@),
        r matches Some(k) ==> occurs_at(text@, pat@, k as int) && forall|j: int|
            0 <= j < k ==> !occurs_at(text@, pat@, j),
        r matches Some(k) ==> first_occurrence(text@, pat@) == Some(k as int),
        r is None ==> first_occurrence(text@, pat@) is None,
{
    if pat.len() > text.len() {
        return None;
    }
    let limit: usize = text.len() - pat.len();
    let mut at: usize = 0;
    loop
        invariant
            limit == text.len() - pat.len(),
            at <= limit,
            forall|j: int| 0 <= j < at ==> !occurs_at(text@, pat@, j),
        decreases limit - at,
    {
        if matches_at(text, pat, at) {
            proof {
                lemma_first_occurrence(text@, pat@, at as int);
            }
            return Some(at);
        }
        if at == limit {
            return None;
        }
        at = at + 1;
    }
}

/// The first occurrence is the one that no earlier occurrence precedes.
pub proof fn lemma_first_occurrence(text: Seq<char>, pat: Seq<char>, at: int)
    requires
        occurs_at(text, pat, at),
        forall|j: int| 0 <= j < at ==> !occurs_at(text, pat, j),
    ensures
        first_occurrence(text, pat) == Some(at),
{
    let k = choose|k: int| occurs_at(text, pat, k) && forall|j: int| 0 <= j < k ==> !occurs_at(text, pat, j);
    assert(occurs_at(text, pat, k) && forall|j: int| 0 <= j < k ==> !occurs_at(text, pat, j));
    if k < at {
        assert(!occurs_at(text, pat, k));
    }
    if at < k {
        assert(!occurs_at(text, pat, at));
    }
}

/// Steps over every repetition of `pat` that stands at the start of `text`.
pub fn skip_leading(text: &Vec<char>, pat: &Vec<char>) -> (at: usize)
    ensures
        at == skip_repeats(text@, pat@, 0),
        at <= text.len(),
{
    let mut at: usize = 0;
    if pat.len() == 0 {
        return at;
    }
    while matches_at(text, pat, at)
        invariant
            pat.len() > 0,
            at <= text.len(),
            skip_repeats(text@, pat@, 0) == skip_repeats(text@, pat@, at as int),
        decreases text.len() - at,
    {
        at = at + pat.len();
    }
    at
}

/// Whether two strings hold the same characters.
pub fn same_text(a: &str, b: &str) -> (r: bool)
    ensures
        r == (a@ == b@),
{
    let x = chars_of(a);
    let y = chars_of(b);
    if x.len() != y.len() {
        return false;
    }
    let r = matches_at(&x, &y, 0);
    assert(x@.subrange(0, x@.len() as int) =~= x@);
    r
}

/// Whether `text` begins with `prefix`.
pub fn starts_with(text: &str, prefix: &str) -> (r: bool)
    ensures
        r == has_prefix(text@, prefix@),
{
    let x = chars_of(text);
    let y = chars_of(prefix);
    matches_at(&x, &y, 0)
}

/// Whether `text` ends with `suffix`.
pub fn ends_with(text: &str, suffix: &str) -> (r: bool)
    ensures
        r == has_suffix(text@, suffix@),
{
    let x = chars_of(text);
    let y = chars_of(suffix);
    if y.len() > x.len() {
        return false;
    }
    matches_at(&x, &y, x.len() - y.len())
}

/// Whether `pat` occurs in `text`.
pub fn contains(text: &str, pat: &str) -> (r: bool)
    ensures
        r == has_infix(text@, pat@),
{
    let x = chars_of(text);
    let y = chars_of(pat);
    find_first(&x, &y).is_some()
}

/// The character of a decimal digit.
pub open spec fn digit_char(d: nat) -> char {
    if d == 0 {
        '0'
    } else if d == 1 {
        '1'
    } else if d == 2 {
        '2'
    } else if d == 3 {
        '3'
    } else if d == 4 {
        '4'
    } else if d == 5 {
        '5'
    } else if d == 6 {
        '6'
    } else if d == 7 {
        '7'
    } else if d == 8 {
        '8'
    } else {
        '9'
    }
}

/// A number written in decimal digits, with no leading zero.
pub open spec fn decimal(n: nat) -> Seq<char>
    decreases n,
{
    if n < 10 {
        seq![digit_char(n)]
    } else {
        decimal(n / 10).push(digit_char(n % 10))
    }
}

/// The text of a decimal digit.
pub fn digit_text(d: usize) -> (r: &'static str)
    requires
        d < 10,
    ensures
        r@ == seq![digit_char(d as nat)],
{
    proof {
        reveal_strlit("0");
        reveal_strlit("1");
        reveal_strlit("2");
        reveal_strlit("3");
        reveal_strlit("4");
        reveal_strlit("5");
        reveal_strlit("6");
        reveal_strlit("7");
        reveal_strlit("8");
        reveal_strlit("9");
    }
    let r = if d == 0 {
        "0"
    } else if d == 1 {
        "1"
    } else if d == 2 {
        "2"
    } else if d == 3 {
        "3"
    } else if d == 4 {
        "4"
    } else if d == 5 {
        "5"
    } else if d == 6 {
        "6"
    } else if d == 7 {
        "7"
    } else if d == 8 {
        "8"
    } else {
        "9"
    };
    assert(r@ =~= seq![digit_char(d as nat)]);
    r
}

/// Writes a number in decimal digits.
pub fn to_decimal(n: usize) -> (r: String)
    ensures
        r@ == decimal(n as nat),
    decreases n,
{
    if n < 10 {
        String::from_str(digit_text(n))
    } else {
        let head = to_decimal(n / 10);
        let r = head.concat(digit_text(n % 10));
        assert(r@ =~= decimal((n / 10) as nat).push(digit_char((n % 10) as nat)));
        r
    }
}

} // verus!
