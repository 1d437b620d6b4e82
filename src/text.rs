//! Character-sequence helpers shared by the pattern engine.

use vstd::prelude::*;
use vstd::string::StrSliceExecFns;

verus! {

/// Relies on `Iterator::collect` into `String`: the string holds exactly the given characters.
#[verifier::external_body]
pub(crate) fn string_of(v: &Vec<char>) -> (r: String)
    ensures
        r@ == v@,
{
    v.iter().collect()
}

/// The characters of `s`, in order.
pub fn chars_of(s: &str) -> (r: Vec<char>)
    ensures
        r@ == s@,
{
    let n = s.unicode_len();
    let mut r: Vec<char> = Vec::new();
    for i in 0..n
        invariant
            n == s@.len(),
            r@ == s@.take(i as int),
    {
        r.push(s.get_char(i));
        assert(r@ =~= s@.take(i + 1));
    }
    assert(r@ =~= s@);
    r
}

/// `t` stands in `s` starting at index `i`.
pub open spec fn occurs_at(s: Seq<char>, t: Seq<char>, i: int) -> bool {
    0 <= i && i + t.len() <= s.len() && s.subrange(i, i + t.len()) == t
}

/// `t` stands somewhere in `s`.
pub open spec fn contains_seq(s: Seq<char>, t: Seq<char>) -> bool {
    exists|i: int| occurs_at(s, t, i)
}

/// `i` is where the leftmost occurrence of `t` in `s` begins.
pub open spec fn is_first_occurrence(s: Seq<char>, t: Seq<char>, i: int) -> bool {
    &&& occurs_at(s, t, i)
    &&& forall|j: int| 0 <= j < i ==> !occurs_at(s, t, j)
}

/// `s` with its leftmost occurrence of `t` replaced by `r`; `s` itself when
/// `t` does not occur.
pub open spec fn replace_first(s: Seq<char>, t: Seq<char>, r: Seq<char>) -> Seq<char> {
    if exists|i: int| is_first_occurrence(s, t, i) {
        let i = choose|i: int| is_first_occurrence(s, t, i);
        s.take(i) + r + s.skip(i + t.len())
    } else {
        s
    }
}

/// The decimal digit character for `d < 10`.
pub open spec fn digit_char(d: nat) -> char {
    if d == 0 {
        '0'
    } else if d == 1 {
        '1'
    } else if d == 2 {
        '2'
    } else if d == 3 {
        '3'
    } else if d == 4 {
        '4'
    } else if d == 5 {
        '5'
    } else if d == 6 {
        '6'
    } else if d == 7 {
        '7'
    } else if d == 8 {
        '8'
    } else {
        '9'
    }
}

/// The decimal notation of `n`, without leading zeros.
pub open spec fn decimal(n: nat) -> Seq<char>
    decreases n,
{
    if n < 10 {
        seq![digit_char(n)]
    } else {
        decimal(n / 10).push(digit_char(n % 10))
    }
}

/// Two occurrences of the same text cannot both be leftmost.
pub proof fn lemma_first_occurrence_unique(s: Seq<char>, t: Seq<char>, i: int, j: int)
    requires
        is_first_occurrence(s, t, i),
        is_first_occurrence(s, t, j),
    ensures
        i == j,
{
}

/// What `replace_first` yields once the leftmost occurrence is known.
pub proof fn lemma_replace_at_first(s: Seq<char>, t: Seq<char>, r: Seq<char>, i: int)
    requires
        is_first_occurrence(s, t, i),
    ensures
        replace_first(s, t, r) == s.take(i) + r + s.skip(i + t.len()),
{
    let k = choose|k: int| is_first_occurrence(s, t, k);
    lemma_first_occurrence_unique(s, t, i, k);
}

/// `s` holds no `#`.
pub open spec fn hash_free(s: Seq<char>) -> bool {
    forall|j: int| 0 <= j < s.len() ==> s[j] != '#'
}

/// Where the text before an occurrence of a `#`-led `t` holds no `#`, that
/// occurrence is the one `replace_first` replaces.
pub proof fn lemma_replace_after_hash_free(a: Seq<char>, t: Seq<char>, b: Seq<char>, r: Seq<char>)
    requires
        hash_free(a),
        t.len() > 0,
        t[0] == '#',
    ensures
        replace_first(a + t + b, t, r) == a + r + b,
{
    let s = a + t + b;
    let i = a.len() as int;
    assert(s.subrange(i, i + t.len()) =~= t);
    assert(occurs_at(s, t, i));
    assert forall|j: int| 0 <= j < i implies !occurs_at(s, t, j) by {
        assert(s[j] == a[j]);
        assert(a[j] != '#');
        if occurs_at(s, t, j) {
            let w = s.subrange(j, j + t.len());
            assert(w[0] == s[j]);
            assert(w[0] == t[0]);
        }
    }
    assert(is_first_occurrence(s, t, i));
    lemma_replace_at_first(s, t, r, i);
    assert(s.take(i) =~= a);
    assert(s.skip(i + t.len()) =~= b);
}

/// Whether `t` stands in `s` at index `i`.
pub fn matches_at(s: &Vec<char>, t: &Vec<char>, i: usize) -> (r: bool)
    ensures
        r == occurs_at(s@, t@, i as int),
{
    if t.len() > s.len() || i > s.len() - t.len() {
        return false;
    }
    let mut k: usize = 0;
    while k < t.len()
        invariant
            i + t.len() <= s.len(),
            k <= t.len(),
            forall|m: int| 0 <= m < k ==> s@[i + m] == t@[m],
        decreases t.len() - k,
    {
        if s[i + k] != t[k] {
            assert(s@.subrange(i as int, i + t.len())[k as int] != t@[k as int]);
            return false;
        }
        k = k + 1;
    }
    assert(s@.subrange(i as int, i + t.len()) =~= t@);
    true
}

/// Where the leftmost occurrence of `t` in `s` begins, if there is one.
pub fn find_first(s: &Vec<char>, t: &Vec<char>) -> (r: Option<usize>)
    ensures
        match r {
            Some(i) => is_first_occurrence(s@, t@, i as int),
            None => !contains_seq(s@, t@),
        },
{
    if t.len() > s.len() {
        assert(!contains_seq(s@, t@));
        return None;
    }
    let last = s.len() - t.len();
    let mut i: usize = 0;
    while i <= last
        invariant
            last == s.len() - t.len(),
            forall|j: int| 0 <= j < i ==> !occurs_at(s@, t@, j),
        decreases last + 1 - i,
    {
        if matches_at(s, t, i) {
            return Some(i);
        }
        if i == last {
            assert forall|j: int| !occurs_at(s@, t@, j) by {
                if 0 <= j < i {
                } else if j == i {
                }
            }
            return None;
        }
        i = i + 1;
    }
    None
}

/// `s` with its leftmost occurrence of `t` replaced by `r`.
pub fn replace_first_in(s: &Vec<char>, t: &Vec<char>, r: &Vec<char>) -> (res: Vec<char>)
    ensures
        res@ == replace_first(s@, t@, r@),
{
    match find_first(s, t) {
        None => s.clone(),
        Some(i) => {
            proof {
                lemma_replace_at_first(s@, t@, r@, i as int);
            }
            let mut res: Vec<char> = Vec::new();
            let mut k: usize = 0;
            while k < i
                invariant
                    i + t.len() <= s.len(),
                    k <= i,
                    res@ == s@.take(k as int),
                decreases i - k,
            {
                res.push(s[k]);
                k = k + 1;
                assert(res@ =~= s@.take(k as int));
            }
            let mut k: usize = 0;
            while k < r.len()
                invariant
                    k <= r.len(),
                    res@ == s@.take(i as int) + r@.take(k as int),
                decreases r.len() - k,
            {
                res.push(r[k]);
                k = k + 1;
                assert(res@ =~= s@.take(i as int) + r@.take(k as int));
            }
            let mut k: usize = i + t.len();
            while k < s.len()
                invariant
                    i + t.len() <= k <= s.len(),
                    res@ == s@.take(i as int) + r@ + s@.subrange(i + t.len(), k as int),
                decreases s.len() - k,
            {
                res.push(s[k]);
                k = k + 1;
                assert(res@ =~= s@.take(i as int) + r@ + s@.subrange(i + t.len(), k as int));
            }
            assert(r@.take(r.len() as int) =~= r@);
            assert(res@ =~= s@.take(i as int) + r@ + s@.skip(i + t.len()));
            res
        },
    }
}

/// The digit character for `d`.
fn digit(d: usize) -> (c: char)
    requires
        d < 10,
    ensures
        c == digit_char(d as nat),
{
    match d {
        0 => '0',
        1 => '1',
        2 => '2',
        3 => '3',
        4 => '4',
        5 => '5',
        6 => '6',
        7 => '7',
        8 => '8',
        _ => '9',
    }
}

/// The decimal notation of `n`.
pub fn decimal_of(n: usize) -> (r: Vec<char>)
    ensures
        r@ == decimal(n as nat),
    decreases n,
{
    if n < 10 {
        let mut r: Vec<char> = Vec::new();
        r.push(digit(n));
        assert(r@ =~= seq![digit_char(n as nat)]);
        r
    } else {
        let mut r = decimal_of(n / 10);
        r.push(digit(n % 10));
        r
    }
}

} // verus!
