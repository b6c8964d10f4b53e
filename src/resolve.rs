use vstd::prelude::*;
use crate::catalog::Accessory;
use crate::text::{contains_chars, lower_of, lowercase, occurs_in, same_chars};

verus! {

/// How a query maps onto the catalog.
#[derive(Clone, Debug, PartialEq, Eq)]
pub enum Resolution {
    /// Exactly one accessory, at this catalog position.
    Found(usize),
    /// No accessory matches.
    NotFound,
    /// Several accessories contain the query; these are their positions, in
    /// catalog order. The caller may show them but must not pick one.
    Ambiguous(Vec<usize>),
}

impl Resolution {
    pub open spec fn spec_is_found(&self) -> bool {
        self is Found
    }

    /// Whether the query named exactly one accessory.
    #[verifier::when_used_as_spec(spec_is_found)]
    pub fn is_found(&self) -> (r: bool)
        ensures
            r == self is Found,
    {
        match self {
            Resolution::Found(_) => true,
            _ => false,
        }
    }
}

/// Whether a folded name matches a folded query: equal in the exact stage,
/// containing it in the partial stage.
pub open spec fn key_hit(key: Seq<char>, q: Seq<char>, exact: bool) -> bool {
    if exact {
        key == q
    } else {
        occurs_in(q, key)
    }
}

/// Positions of the keys that match `q`, in increasing order.
pub open spec fn hits(keys: Seq<Seq<char>>, q: Seq<char>, exact: bool) -> Seq<int>
    decreases keys.len(),
{
    if keys.len() == 0 {
        seq![]
    } else {
        let rest = hits(keys.drop_last(), q, exact);
        if key_hit(keys.last(), q, exact) {
            rest.push(keys.len() - 1)
        } else {
            rest
        }
    }
}

/// The accessory a query resolves to: the single exact match, else the single
/// partial match, else none.
pub open spec fn resolves_to(keys: Seq<Seq<char>>, q: Seq<char>) -> Option<int> {
    let exact = hits(keys, q, true);
    let partial = hits(keys, q, false);
    if exact.len() == 1 {
        Some(exact[0])
    } else if partial.len() == 1 {
        Some(partial[0])
    } else {
        None
    }
}

pub open spec fn views_of(v: Seq<Vec<char>>) -> Seq<Seq<char>> {
    v.map_values(|x: Vec<char>| x@)
}

pub open spec fn positions(v: Seq<usize>) -> Seq<int> {
    v.map_values(|x: usize| x as int)
}

/// The catalog's names, case-folded.
pub open spec fn folded_names(c: Seq<Accessory>) -> Seq<Seq<char>> {
    c.map_values(|a: Accessory| lower_of(a.name@))
}

/// The full outcome of resolving `q` against `keys`.
pub open spec fn resolution_matches(keys: Seq<Seq<char>>, q: Seq<char>, r: Resolution) -> bool {
    match r {
        Resolution::Found(i) => resolves_to(keys, q) == Some(i as int),
        Resolution::NotFound => resolves_to(keys, q) is None && hits(keys, q, false).len() == 0,
        Resolution::Ambiguous(v) => resolves_to(keys, q) is None && hits(keys, q, false).len() > 1
            && positions(v@) == hits(keys, q, false),
    }
}

/// Resolves a case-folded query against case-folded names.
pub fn resolve_folded(keys: &Vec<Vec<char>>, q: &Vec<char>) -> (r: Resolution)
    ensures
        resolution_matches(views_of(keys@), q@, r),
{
    let ghost ks = views_of(keys@);
    let n: usize = keys.len();
    let mut exact: Vec<usize> = Vec::new();
    let mut partial: Vec<usize> = Vec::new();
    let mut i: usize = 0;
    while i < n
        invariant
            n == keys@.len(),
            ks == views_of(keys@),
            i <= n,
            positions(exact@) == hits(ks.take(i as int), q@, true),
            positions(partial@) == hits(ks.take(i as int), q@, false),
        decreases n - i,
    {
        assert(ks.take(i + 1).drop_last() =~= ks.take(i as int));
        assert(ks.take(i + 1).last() == keys@[i as int]@);
        if same_chars(&keys[i], q) {
            exact.push(i);
        }
        if contains_chars(&keys[i], q) {
            partial.push(i);
        }
        assert(positions(exact@) =~= hits(ks.take(i + 1), q@, true));
        assert(positions(partial@) =~= hits(ks.take(i + 1), q@, false));
        i = i + 1;
    }
    assert(ks.take(n as int) =~= ks);
    if exact.len() == 1 {
        Resolution::Found(exact[0])
    } else if partial.len() == 1 {
        Resolution::Found(partial[0])
    } else if partial.len() == 0 {
        Resolution::NotFound
    } else {
        Resolution::Ambiguous(partial)
    }
}

/// Resolves a device name or fragment against the catalog, ignoring case.
pub fn find_device(catalog: &Vec<Accessory>, query: &str) -> (r: Resolution)
    ensures
        resolution_matches(folded_names(catalog@), lower_of(query@), r),
{
    let n: usize = catalog.len();
    let mut keys: Vec<Vec<char>> = Vec::new();
    let mut i: usize = 0;
    while i < n
        invariant
            n == catalog@.len(),
            i <= n,
            keys@.len() == i,
            forall|j: int| 0 <= j < i ==> (#[trigger] keys@[j])@ == lower_of(catalog@[j].name@),
        decreases n - i,
    {
        keys.push(lowercase(catalog[i].name.as_str()));
        i = i + 1;
    }
    assert(views_of(keys@) =~= folded_names(catalog@));
    let q = lowercase(query);
    resolve_folded(&keys, &q)
}

proof fn lemma_hits_none(keys: Seq<Seq<char>>, q: Seq<char>, exact: bool)
    requires
        forall|j: int| 0 <= j < keys.len() ==> !key_hit(#[trigger] keys[j], q, exact),
    ensures
        hits(keys, q, exact) == Seq::<int>::empty(),
    decreases keys.len(),
{
    if keys.len() > 0 {
        let init = keys.drop_last();
        assert forall|j: int| 0 <= j < init.len() implies !key_hit(#[trigger] init[j], q, exact) by {
            assert(init[j] == keys[j]);
        }
        lemma_hits_none(init, q, exact);
    }
}

proof fn lemma_hits_single(keys: Seq<Seq<char>>, q: Seq<char>, exact: bool, i: int)
    requires
        0 <= i < keys.len(),
        key_hit(keys[i], q, exact),
        forall|j: int| 0 <= j < keys.len() && j != i ==> !key_hit(#[trigger] keys[j], q, exact),
    ensures
        hits(keys, q, exact) == seq![i],
    decreases keys.len(),
{
    let init = keys.drop_last();
    if i == keys.len() - 1 {
        assert forall|j: int| 0 <= j < init.len() implies !key_hit(#[trigger] init[j], q, exact) by {
            assert(init[j] == keys[j]);
        }
        lemma_hits_none(init, q, exact);
        assert(hits(keys, q, exact) =~= seq![i]);
    } else {
        assert forall|j: int| 0 <= j < init.len() && j != i implies !key_hit(
            #[trigger] init[j],
            q,
            exact,
        ) by {
            assert(init[j] == keys[j]);
        }
        assert(init[i] == keys[i]);
        lemma_hits_single(init, q, exact, i);
    }
}

proof fn lemma_hits_contain(keys: Seq<Seq<char>>, q: Seq<char>, exact: bool, i: int)
    requires
        0 <= i < keys.len(),
        key_hit(keys[i], q, exact),
    ensures
        hits(keys, q, exact).contains(i),
    decreases keys.len(),
{
    let init = keys.drop_last();
    if i == keys.len() - 1 {
        let h = hits(keys, q, exact);
        assert(h[h.len() - 1] == i);
    } else {
        assert(init[i] == keys[i]);
        lemma_hits_contain(init, q, exact, i);
        let h0 = hits(init, q, exact);
        let k = choose|k: int| 0 <= k < h0.len() && h0[k] == i;
        if key_hit(keys.last(), q, exact) {
            assert(h0.push(keys.len() - 1)[k] == i);
        }
    }
}

/// Exactly one accessory whose name equals the query, ignoring case, is the
/// one the query resolves to, whatever else contains the query.
pub proof fn exact_match_wins(catalog: Seq<Accessory>, query: Seq<char>, i: int)
    requires
        0 <= i < catalog.len(),
        lower_of(catalog[i].name@) == lower_of(query),
        forall|j: int|
            0 <= j < catalog.len() && j != i ==> lower_of(#[trigger] catalog[j].name@) != lower_of(
                query,
            ),
    ensures
        resolves_to(folded_names(catalog), lower_of(query)) == Some(i),
{
    let keys = folded_names(catalog);
    assert forall|j: int| 0 <= j < keys.len() && j != i implies !key_hit(
        #[trigger] keys[j],
        lower_of(query),
        true,
    ) by {
        assert(keys[j] == lower_of(catalog[j].name@));
    }
    lemma_hits_single(keys, lower_of(query), true, i);
}

/// With no exact match, exactly one accessory whose name contains the query,
/// ignoring case, is the one the query resolves to.
pub proof fn single_partial_match_wins(catalog: Seq<Accessory>, query: Seq<char>, i: int)
    requires
        0 <= i < catalog.len(),
        forall|j: int|
            0 <= j < catalog.len() ==> lower_of(#[trigger] catalog[j].name@) != lower_of(query),
        occurs_in(lower_of(query), lower_of(catalog[i].name@)),
        forall|j: int|
            0 <= j < catalog.len() && j != i ==> !occurs_in(
                lower_of(query),
                lower_of(#[trigger] catalog[j].name@),
            ),
    ensures
        resolves_to(folded_names(catalog), lower_of(query)) == Some(i),
{
    let keys = folded_names(catalog);
    let q = lower_of(query);
    assert forall|j: int| 0 <= j < keys.len() implies !key_hit(#[trigger] keys[j], q, true) by {
        assert(keys[j] == lower_of(catalog[j].name@));
    }
    lemma_hits_none(keys, q, true);
    assert forall|j: int| 0 <= j < keys.len() && j != i implies !key_hit(
        #[trigger] keys[j],
        q,
        false,
    ) by {
        assert(keys[j] == lower_of(catalog[j].name@));
    }
    lemma_hits_single(keys, q, false, i);
}

/// With no exact match, and no accessory or two or more whose names contain
/// the query, ignoring case, the query resolves to nothing.
pub proof fn no_single_match_not_found(catalog: Seq<Accessory>, query: Seq<char>)
    requires
        forall|j: int|
            0 <= j < catalog.len() ==> lower_of(#[trigger] catalog[j].name@) != lower_of(query),
        (forall|j: int|
            0 <= j < catalog.len() ==> !occurs_in(lower_of(query), lower_of(#[trigger] catalog[j].name@)))
            || (exists|a: int, b: int|
            0 <= a < b < catalog.len() && occurs_in(lower_of(query), lower_of(#[trigger] catalog[a].name@))
                && occurs_in(lower_of(query), lower_of(#[trigger] catalog[b].name@))),
    ensures
        resolves_to(folded_names(catalog), lower_of(query)) is None,
{
    let keys = folded_names(catalog);
    let q = lower_of(query);
    assert forall|j: int| 0 <= j < keys.len() implies !key_hit(#[trigger] keys[j], q, true) by {
        assert(keys[j] == lower_of(catalog[j].name@));
    }
    lemma_hits_none(keys, q, true);
    if forall|j: int|
        0 <= j < catalog.len() ==> !occurs_in(q, lower_of(#[trigger] catalog[j].name@)) {
        assert forall|j: int| 0 <= j < keys.len() implies !key_hit(#[trigger] keys[j], q, false) by {
            assert(keys[j] == lower_of(catalog[j].name@));
        }
        lemma_hits_none(keys, q, false);
    } else {
        let (a, b) = choose|a: int, b: int|
            0 <= a < b < catalog.len() && occurs_in(q, lower_of(#[trigger] catalog[a].name@))
                && occurs_in(q, lower_of(#[trigger] catalog[b].name@));
        assert(keys[a] == lower_of(catalog[a].name@));
        assert(keys[b] == lower_of(catalog[b].name@));
        lemma_hits_contain(keys, q, false, a);
        lemma_hits_contain(keys, q, false, b);
    }
}

} // verus!
