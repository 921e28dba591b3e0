//! Character-level utilities over `&str` and their specification-level
//! counterparts. Every parser in this crate scans for delimiter characters
//! and takes substrings; the spec functions here are the vocabulary those
//! parsers' contracts are written in.

use vstd::prelude::*;
use vstd::string::StrSliceExecFns;
use vstd::string::StringExecFns;

verus! {

/// Index of the first occurrence of `c` in `s` at or after position `from`,
/// or `None` when there is none.
pub open spec fn first_ix_from(s: Seq<char>, c: char, from: int) -> Option<int>
    decreases s.len() - from,
{
    if from < 0 || from >= s.len() {
        None
    } else if s[from] == c {
        Some(from)
    } else {
        first_ix_from(s, c, from + 1)
    }
}

/// Index of the first occurrence of `c` in `s`.
pub open spec fn first_ix(s: Seq<char>, c: char) -> Option<int> {
    first_ix_from(s, c, 0)
}

/// Index of the last occurrence of `c` in `s` strictly before position `end`,
/// or `None` when there is none.
pub open spec fn last_ix_before(s: Seq<char>, c: char, end: int) -> Option<int>
    decreases end,
{
    if end <= 0 || end > s.len() {
        None
    } else if s[end - 1] == c {
        Some(end - 1)
    } else {
        last_ix_before(s, c, end - 1)
    }
}

/// Whether `c` occurs anywhere in `s`.
pub open spec fn contains_char(s: Seq<char>, c: char) -> bool {
    exists|i: int| 0 <= i < s.len() && s[i] == c
}

/// What `first_ix_from` returns: the found index carries `c`, everything in
/// the scanned range before it does not, and `None` means the range is clean.
pub proof fn lemma_first_ix_from(s: Seq<char>, c: char, from: int)
    requires
        0 <= from <= s.len(),
    ensures
        match first_ix_from(s, c, from) {
            Some(i) => from <= i < s.len() && s[i] == c && forall|j: int|
                from <= j < i ==> s[j] != c,
            None => forall|j: int| from <= j < s.len() ==> s[j] != c,
        },
    decreases s.len() - from,
{
    if from < s.len() && s[from] != c {
        lemma_first_ix_from(s, c, from + 1);
    }
}

/// An index with the `first_ix_from` properties is the one `first_ix_from`
/// returns.
pub proof fn lemma_first_ix_from_complete(s: Seq<char>, c: char, from: int, i: int)
    requires
        0 <= from <= i < s.len(),
        s[i] == c,
        forall|j: int| from <= j < i ==> s[j] != c,
    ensures
        first_ix_from(s, c, from) == Some(i),
    decreases s.len() - from,
{
    if from < i {
        lemma_first_ix_from_complete(s, c, from + 1, i);
    }
}

/// A range free of `c` makes `first_ix_from` return `None`.
pub proof fn lemma_first_ix_from_none(s: Seq<char>, c: char, from: int)
    requires
        0 <= from <= s.len(),
        forall|j: int| from <= j < s.len() ==> s[j] != c,
    ensures
        first_ix_from(s, c, from) == None::<int>,
    decreases s.len() - from,
{
    if from < s.len() {
        lemma_first_ix_from_none(s, c, from + 1);
    }
}

/// What `last_ix_before` returns: the found index carries `c`, everything in
/// the scanned range after it does not, and `None` means the range is clean.
pub proof fn lemma_last_ix_before(s: Seq<char>, c: char, end: int)
    requires
        0 <= end <= s.len(),
    ensures
        match last_ix_before(s, c, end) {
            Some(i) => 0 <= i < end && s[i] == c && forall|j: int|
                i < j < end ==> s[j] != c,
            None => forall|j: int| 0 <= j < end ==> s[j] != c,
        },
    decreases end,
{
    if end > 0 && s[end - 1] != c {
        lemma_last_ix_before(s, c, end - 1);
    }
}

/// An index with the `last_ix_before` properties is the one `last_ix_before`
/// returns.
pub proof fn lemma_last_ix_before_complete(s: Seq<char>, c: char, end: int, i: int)
    requires
        0 <= i < end <= s.len(),
        s[i] == c,
        forall|j: int| i < j < end ==> s[j] != c,
    ensures
        last_ix_before(s, c, end) == Some(i),
    decreases end,
{
    if i < end - 1 {
        lemma_last_ix_before_complete(s, c, end - 1, i);
    }
}

/// A range free of `c` makes `last_ix_before` return `None`.
pub proof fn lemma_last_ix_before_none(s: Seq<char>, c: char, end: int)
    requires
        0 <= end <= s.len(),
        forall|j: int| 0 <= j < end ==> s[j] != c,
    ensures
        last_ix_before(s, c, end) == None::<int>,
    decreases end,
{
    if end > 0 {
        lemma_last_ix_before_none(s, c, end - 1);
    }
}

/// Finds the first occurrence of `c` in `s` at or after character index
/// `from`.
#[verifier::loop_isolation(false)]
pub fn find_first_from(s: &str, c: char, from: usize) -> (r: Option<usize>)
    requires
        from <= s@.len(),
    ensures
        match r {
            Some(i) => {
                &&& first_ix_from(s@, c, from as int) == Some(i as int)
                &&& from <= i < s@.len()
                &&& s@[i as int] == c
                &&& forall|j: int| from <= j < i ==> s@[j] != c
            },
            None => {
                &&& first_ix_from(s@, c, from as int) == None::<int>
                &&& forall|j: int| from <= j < s@.len() ==> s@[j] != c
            },
        },
{
    proof {
        lemma_first_ix_from(s@, c, from as int);
    }
    let n = s.unicode_len();
    let mut i = from;
    while i < n
        invariant
            from <= i <= n,
            n == s@.len(),
            first_ix_from(s@, c, from as int) == first_ix_from(s@, c, i as int),
        decreases n - i,
    {
        if s.get_char(i) == c {
            return Some(i);
        }
        i = i + 1;
    }
    None
}

/// Finds the first occurrence of `c` in `s`.
pub fn find_first(s: &str, c: char) -> (r: Option<usize>)
    ensures
        match r {
            Some(i) => {
                &&& first_ix(s@, c) == Some(i as int)
                &&& i < s@.len()
                &&& s@[i as int] == c
                &&& forall|j: int| 0 <= j < i ==> s@[j] != c
            },
            None => {
                &&& first_ix(s@, c) == None::<int>
                &&& forall|j: int| 0 <= j < s@.len() ==> s@[j] != c
            },
        },
{
    find_first_from(s, c, 0)
}

/// Finds the last occurrence of `c` in `s` strictly before character index
/// `end`.
#[verifier::loop_isolation(false)]
pub fn find_last_before(s: &str, c: char, end: usize) -> (r: Option<usize>)
    requires
        end <= s@.len(),
    ensures
        match r {
            Some(i) => {
                &&& last_ix_before(s@, c, end as int) == Some(i as int)
                &&& i < end
                &&& s@[i as int] == c
                &&& forall|j: int| i < j < end ==> s@[j] != c
            },
            None => {
                &&& last_ix_before(s@, c, end as int) == None::<int>
                &&& forall|j: int| 0 <= j < end ==> s@[j] != c
            },
        },
{
    proof {
        lemma_last_ix_before(s@, c, end as int);
    }
    let mut e = end;
    while e > 0
        invariant
            e <= end <= s@.len(),
            last_ix_before(s@, c, end as int) == last_ix_before(s@, c, e as int),
        decreases e,
    {
        if s.get_char(e - 1) == c {
            return Some(e - 1);
        }
        e = e - 1;
    }
    None
}

/// Whether `c` occurs anywhere in `s`.
#[verifier::loop_isolation(false)]
pub fn str_contains_char(s: &str, c: char) -> (r: bool)
    ensures
        r == contains_char(s@, c),
{
    let n = s.unicode_len();
    let mut i: usize = 0;
    while i < n
        invariant
            i <= n,
            n == s@.len(),
            forall|j: int| 0 <= j < i ==> s@[j] != c,
        decreases n - i,
    {
        if s.get_char(i) == c {
            return true;
        }
        i = i + 1;
    }
    false
}

/// The character of one decimal digit.
pub open spec fn digit_char(d: int) -> char {
    if d == 0 {
        '0'
    } else if d == 1 {
        '1'
    } else if d == 2 {
        '2'
    } else if d == 3 {
        '3'
    } else if d == 4 {
        '4'
    } else if d == 5 {
        '5'
    } else if d == 6 {
        '6'
    } else if d == 7 {
        '7'
    } else if d == 8 {
        '8'
    } else {
        '9'
    }
}

/// The decimal rendering of a non-negative integer, most significant digit
/// first, with no leading zero except for zero itself.
pub open spec fn dec_digits(n: int) -> Seq<char>
    decreases n,
{
    if n < 10 {
        seq![digit_char(n)]
    } else {
        dec_digits(n / 10) + seq![digit_char(n % 10)]
    }
}

/// Renders one decimal digit.
fn digit_str(d: u64) -> (r: &'static str)
    requires
        d < 10,
    ensures
        r@ == seq![digit_char(d as int)],
{
    let r: &'static str = if d == 0 {
        "0"
    } else if d == 1 {
        "1"
    } else if d == 2 {
        "2"
    } else if d == 3 {
        "3"
    } else if d == 4 {
        "4"
    } else if d == 5 {
        "5"
    } else if d == 6 {
        "6"
    } else if d == 7 {
        "7"
    } else if d == 8 {
        "8"
    } else {
        "9"
    };
    proof {
        reveal_strlit("0");
        reveal_strlit("1");
        reveal_strlit("2");
        reveal_strlit("3");
        reveal_strlit("4");
        reveal_strlit("5");
        reveal_strlit("6");
        reveal_strlit("7");
        reveal_strlit("8");
        reveal_strlit("9");
        assert(r@ =~= seq![digit_char(d as int)]);
    }
    r
}

/// Renders a non-negative integer in decimal.
pub fn u64_to_dec(n: u64) -> (r: String)
    ensures
        r@ == dec_digits(n as int),
    decreases n,
{
    if n < 10 {
        digit_str(n).to_owned()
    } else {
        let mut s = u64_to_dec(n / 10);
        s.append(digit_str(n % 10));
        proof {
            assert(dec_digits(n as int) =~= dec_digits(n as int / 10) + seq![
                digit_char(n as int % 10),
            ]);
            assert(s@ =~= dec_digits(n as int));
        }
        s
    }
}

/// Character-for-character string equality, stated over the views.
#[verifier::loop_isolation(false)]
pub fn str_eq(a: &str, b: &str) -> (r: bool)
    ensures
        r == (a@ == b@),
{
    let na = a.unicode_len();
    let nb = b.unicode_len();
    if na != nb {
        proof {
            assert(a@ != b@) by {
                assert(a@.len() != b@.len());
            }
        }
        return false;
    }
    let mut i: usize = 0;
    while i < na
        invariant
            i <= na,
            na == a@.len(),
            na == b@.len(),
            forall|j: int| 0 <= j < i ==> a@[j] == b@[j],
        decreases na - i,
    {
        if a.get_char(i) != b.get_char(i) {
            return false;
        }
        i = i + 1;
    }
    proof {
        assert(a@ =~= b@);
    }
    true
}

} // verus!
