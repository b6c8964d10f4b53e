use vstd::prelude::*;

verus! {

/// The characters of `s` with every letter mapped to lower case, as std's
/// Unicode case mapping gives them.
pub uninterp spec fn lower_of(s: Seq<char>) -> Seq<char>;

/// Relies on `str::to_lowercase`: the result depends on the characters of `s`
/// alone, and an empty string stays empty.
#[verifier::external_body]
pub(crate) fn lowercase(s: &str) -> (r: Vec<char>)
    ensures
        r@ == lower_of(s@),
        s@.len() == 0 ==> r@.len() == 0,
{
    s.to_lowercase().chars().collect()
}

/// `q` occurs in `t` as a contiguous run of characters.
pub open spec fn occurs_in(q: Seq<char>, t: Seq<char>) -> bool {
    exists|k: int| 0 <= k <= t.len() - q.len() && #[trigger] t.subrange(k, k + q.len()) == q
}

/// Whether `t` holds `q` starting at position `k`.
fn matches_at(t: &Vec<char>, q: &Vec<char>, k: usize) -> (r: bool)
    requires
        k + q@.len() <= t@.len(),
    ensures
        r == (t@.subrange(k as int, k + q@.len()) == q@),
{
    let n: usize = t.len();
    let mut j: usize = 0;
    while j < q.len()
        invariant
            j <= q@.len(),
            k + q@.len() <= t@.len(),
            n == t@.len(),
            forall|m: int| 0 <= m < j ==> t@[k + m] == q@[m],
        decreases q@.len() - j,
    {
        if t[k + j] != q[j] {
            assert(t@.subrange(k as int, k + q@.len())[j as int] != q@[j as int]);
            return false;
        }
        j = j + 1;
    }
    assert(t@.subrange(k as int, k + q@.len()) =~= q@);
    true
}

/// Whether `q` occurs in `t`; the empty sequence occurs everywhere.
pub fn contains_chars(t: &Vec<char>, q: &Vec<char>) -> (r: bool)
    ensures
        r == occurs_in(q@, t@),
{
    if q.len() > t.len() {
        return false;
    }
    let last: usize = t.len() - q.len();
    let mut k: usize = 0;
    loop
        invariant
            k <= last,
            last + q@.len() == t@.len(),
            forall|i: int| 0 <= i < k ==> #[trigger] t@.subrange(i, i + q@.len()) != q@,
        decreases last - k,
    {
        if matches_at(t, q, k) {
            return true;
        }
        if k == last {
            return false;
        }
        k = k + 1;
    }
}

/// Whether `a` and `b` hold the same characters.
pub fn same_chars(a: &Vec<char>, b: &Vec<char>) -> (r: bool)
    ensures
        r == (a@ == b@),
{
    if a.len() != b.len() {
        return false;
    }
    let r = matches_at(a, b, 0);
    assert(a@.subrange(0, b@.len() as int) =~= a@);
    r
}

} // verus!
