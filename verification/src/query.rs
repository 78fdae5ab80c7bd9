//! The query resolver: translates the catalog's logical queries — exact
//! title, title substring, exact artist, all records, N random records —
//! into verified filters over the catalog, and resolves the record behind a
//! media request.
//!
//! The catalog is handed in as the store returned it; every function here
//! is read-only.  Titles are not unique: where a query may match several
//! records and one must be chosen, the first match in catalog order is
//! taken — that is this crate's deterministic tie-break.

use crate::errors::AppError;
use crate::models::Piece;
use crate::models::unique_ids;
use crate::range::ByteRange;
use crate::range::bumped;
use crate::rng::shuffle_pieces;
use crate::text::contains_substring;
use crate::text::is_substring;
use vstd::prelude::*;

verus! {

/// The records of `s` that satisfy `pred`, in catalog order.
pub open spec fn matching(s: Seq<Piece>, pred: spec_fn(Piece) -> bool) -> Seq<Piece>
    decreases s.len(),
{
    if s.len() == 0 {
        Seq::empty()
    } else if pred(s.last()) {
        matching(s.drop_last(), pred).push(s.last())
    } else {
        matching(s.drop_last(), pred)
    }
}

/// The records whose artist equals `name` exactly.
pub open spec fn artist_matches(s: Seq<Piece>, name: Seq<char>) -> Seq<Piece> {
    matching(s, |p: Piece| p.artist@ == name)
}

/// The records whose title contains `t`.
pub open spec fn title_contains_matches(s: Seq<Piece>, t: Seq<char>) -> Seq<Piece> {
    matching(s, |p: Piece| is_substring(t, p.title@))
}

/// Every record: the whole catalog, in its own order.
pub fn list_all(catalog: &Vec<Piece>) -> (r: Vec<Piece>)
    ensures
        r@ == catalog@,
{
    let mut r: Vec<Piece> = Vec::new();
    let mut i: usize = 0;
    while i < catalog.len()
        invariant
            i <= catalog.len(),
            r@ == catalog@.take(i as int),
        decreases catalog.len() - i,
    {
        r.push(catalog[i].clone());
        proof {
            assert(catalog@.take(i + 1) =~= catalog@.take(i as int).push(catalog@[i as int]));
        }
        i += 1;
    }
    proof {
        assert(catalog@.take(catalog@.len() as int) =~= catalog@);
    }
    r
}

/// The records whose artist equals `name` exactly, in catalog order.
pub fn list_by_artist(catalog: &Vec<Piece>, name: &String) -> (r: Vec<Piece>)
    ensures
        r@ == artist_matches(catalog@, name@),
{
    let ghost pred = |p: Piece| p.artist@ == name@;
    let mut r: Vec<Piece> = Vec::new();
    let mut i: usize = 0;
    while i < catalog.len()
        invariant
            i <= catalog.len(),
            r@ == matching(catalog@.take(i as int), pred),
            pred == (|p: Piece| p.artist@ == name@),
        decreases catalog.len() - i,
    {
        proof {
            assert(catalog@.take(i + 1).drop_last() =~= catalog@.take(i as int));
            assert(catalog@.take(i + 1).last() == catalog@[i as int]);
        }
        if catalog[i].artist.eq(name) {
            r.push(catalog[i].clone());
        }
        i += 1;
    }
    proof {
        assert(catalog@.take(catalog@.len() as int) =~= catalog@);
    }
    r
}

/// The records whose title contains `t`, in catalog order.
pub fn list_by_title(catalog: &Vec<Piece>, t: &String) -> (r: Vec<Piece>)
    ensures
        r@ == title_contains_matches(catalog@, t@),
{
    let ghost pred = |p: Piece| is_substring(t@, p.title@);
    let mut r: Vec<Piece> = Vec::new();
    let mut i: usize = 0;
    while i < catalog.len()
        invariant
            i <= catalog.len(),
            r@ == matching(catalog@.take(i as int), pred),
            pred == (|p: Piece| is_substring(t@, p.title@)),
        decreases catalog.len() - i,
    {
        proof {
            assert(catalog@.take(i + 1).drop_last() =~= catalog@.take(i as int));
            assert(catalog@.take(i + 1).last() == catalog@[i as int]);
        }
        if contains_substring(catalog[i].title.as_str(), t.as_str()) {
            r.push(catalog[i].clone());
        }
        i += 1;
    }
    proof {
        assert(catalog@.take(catalog@.len() as int) =~= catalog@);
    }
    r
}

/// A permutation carries unique ids with it: if no two records of `s1`
/// share an id and `s2` holds the same records in some order, then no two
/// records of `s2` share an id either.
pub proof fn lemma_permutation_preserves_unique_ids(s1: Seq<Piece>, s2: Seq<Piece>)
    requires
        s1.to_multiset() == s2.to_multiset(),
        unique_ids(s1),
    ensures
        unique_ids(s2),
{
    broadcast use vstd::seq_lib::group_to_multiset_ensures;

    assert(s1.no_duplicates());
    s1.lemma_multiset_has_no_duplicates();
    s2.lemma_multiset_has_no_duplicates_conv();
    assert forall|i: int, j: int|
        0 <= i < s2.len() && 0 <= j < s2.len() && i != j implies s2[i].id != s2[j].id by {
        if s2[i].id == s2[j].id {
            assert(s2[i] != s2[j]);
            assert(s2.contains(s2[i]));
            assert(s2.contains(s2[j]));
            assert(s1.to_multiset().count(s2[i]) > 0);
            assert(s1.to_multiset().count(s2[j]) > 0);
            assert(s1.contains(s2[i]));
            assert(s1.contains(s2[j]));
            let k: int = choose|k: int| 0 <= k < s1.len() && s1[k] == s2[i];
            let l: int = choose|l: int| 0 <= l < s1.len() && s1[l] == s2[j];
            assert(s1[k].id != s1[l].id);
        }
    }
}

/// A random ordering of the catalog, truncated to the first `n` records.
///
/// Which records come back, and in what order, is up to the random source;
/// what always holds: the result has `min(n, len)` records, each is a
/// record of the catalog, and records with distinct ids stay distinct.
pub fn list_random(catalog: &Vec<Piece>, n: u32) -> (r: Vec<Piece>)
    ensures
        r@.len() == (if n as int <= catalog@.len() {
            n as int
        } else {
            catalog@.len() as int
        }),
        forall|i: int| 0 <= i < r@.len() ==> catalog@.contains(#[trigger] r@[i]),
        unique_ids(catalog@) ==> unique_ids(r@),
{
    broadcast use vstd::seq_lib::group_to_multiset_ensures;

    let mut pool = list_all(catalog);
    shuffle_pieces(&mut pool);
    proof {
        if unique_ids(catalog@) {
            lemma_permutation_preserves_unique_ids(catalog@, pool@);
        }
        assert forall|i: int| 0 <= i < pool@.len() implies catalog@.contains(
            #[trigger] pool@[i],
        ) by {
            assert(pool@.contains(pool@[i]));
            assert(catalog@.to_multiset().count(pool@[i]) > 0);
        }
    }
    let n_usize: usize = n as usize;
    if n_usize < pool.len() {
        let ghost before = pool@;
        pool.truncate(n_usize);
        proof {
            assert(pool@ =~= before.subrange(0, n_usize as int));
        }
    }
    pool
}

/// Whether position `i` holds the first record of `s` whose title equals
/// `t` exactly.
pub open spec fn full_match_at(s: Seq<Piece>, t: Seq<char>, i: int) -> bool {
    &&& 0 <= i < s.len()
    &&& s[i].title@ == t
    &&& forall|k: int| 0 <= k < i ==> (#[trigger] s[k]).title@ != t
}

/// Resolves a full-content request: the first record in catalog order whose
/// title equals the target exactly, or `NoMatch` when no title does.
pub fn resolve_full(catalog: &Vec<Piece>, target_title: &String) -> (r: Result<Piece, AppError>)
    ensures
        r is Ok <==> (exists|i: int| full_match_at(catalog@, target_title@, i)),
        r is Err ==> r == Err::<Piece, AppError>(AppError::NoMatch),
        r is Ok ==> (exists|i: int|
            full_match_at(catalog@, target_title@, i) && r->Ok_0 == catalog@[i]),
{
    let mut i: usize = 0;
    while i < catalog.len()
        invariant
            i <= catalog.len(),
            forall|k: int| 0 <= k < i ==> (#[trigger] catalog@[k]).title@ != target_title@,
        decreases catalog.len() - i,
    {
        if catalog[i].title.eq(target_title) {
            let p = catalog[i].clone();
            assert(full_match_at(catalog@, target_title@, i as int));
            return Ok(p);
        }
        i += 1;
    }
    assert forall|j: int| !full_match_at(catalog@, target_title@, j) by {
        if 0 <= j < catalog@.len() {
            assert(catalog@[j].title@ != target_title@);
        }
    }
    Err(AppError::NoMatch)
}

/// Whether position `i` holds the first record of `s` whose title contains
/// `t`.
pub open spec fn partial_match_at(s: Seq<Piece>, t: Seq<char>, i: int) -> bool {
    &&& 0 <= i < s.len()
    &&& is_substring(t, s[i].title@)
    &&& forall|k: int| 0 <= k < i ==> !is_substring(t, (#[trigger] s[k]).title@)
}

/// Resolves a partial-content request.  As the service always has, a start
/// past the end is rejected before the catalog is consulted; then the first
/// record whose title contains the target is taken, and the requested end
/// is checked against that record's declared size.  A requested start of
/// zero counts as one throughout.
pub fn resolve_partial(catalog: &Vec<Piece>, target_title: &String, start: u32, end: u32) -> (r:
    Result<(Piece, ByteRange), AppError>)
    ensures
        bumped(start) > end ==> r == Err::<(Piece, ByteRange), AppError>(AppError::InvalidRange),
        (bumped(start) <= end && !(exists|i: int|
            partial_match_at(catalog@, target_title@, i))) ==> r == Err::<
            (Piece, ByteRange),
            AppError,
        >(AppError::NoMatch),
        (bumped(start) <= end && (exists|i: int| partial_match_at(catalog@, target_title@, i)))
            ==> (exists|i: int|
            {
                &&& partial_match_at(catalog@, target_title@, i)
                &&& (if end > catalog@[i].file_size {
                    r == Err::<(Piece, ByteRange), AppError>(AppError::InvalidRange)
                } else {
                    r == Ok::<(Piece, ByteRange), AppError>(
                        (catalog@[i], ByteRange { start: bumped(start), end }),
                    )
                })
            }),
        r is Ok ==> r->Ok_0.1.wf() && r->Ok_0.1.end <= r->Ok_0.0.file_size,
{
    let s: u32 = if start == 0 {
        1
    } else {
        start
    };
    if s > end {
        return Err(AppError::InvalidRange);
    }
    let mut i: usize = 0;
    while i < catalog.len()
        invariant
            i <= catalog.len(),
            s == bumped(start),
            s <= end,
            forall|k: int|
                0 <= k < i ==> !is_substring(target_title@, (#[trigger] catalog@[k]).title@),
        decreases catalog.len() - i,
    {
        if contains_substring(catalog[i].title.as_str(), target_title.as_str()) {
            assert(partial_match_at(catalog@, target_title@, i as int));
            assert forall|j: int|
                partial_match_at(catalog@, target_title@, j) implies j == i as int by {
                if j < i as int {
                    assert(!is_substring(target_title@, catalog@[j].title@));
                } else if j > i as int {
                    assert(!is_substring(target_title@, catalog@[i as int].title@));
                }
            }
            let p = catalog[i].clone();
            if end > p.file_size {
                return Err(AppError::InvalidRange);
            }
            return Ok((p, ByteRange { start: s, end }));
        }
        i += 1;
    }
    assert forall|j: int| !partial_match_at(catalog@, target_title@, j) by {
        if 0 <= j < catalog@.len() {
            assert(!is_substring(target_title@, catalog@[j].title@));
        }
    }
    Err(AppError::NoMatch)
}

/// Repeated identical list queries against an unchanged catalog return
/// identical results: each read is a function of the catalog and the query
/// alone.  (The random-ordering query is the one exception: its order is
/// drawn afresh on every call.)
pub proof fn lemma_list_reads_idempotent(
    catalog: Seq<Piece>,
    name: Seq<char>,
    t: Seq<char>,
    a1: Seq<Piece>,
    a2: Seq<Piece>,
    t1: Seq<Piece>,
    t2: Seq<Piece>,
    all1: Seq<Piece>,
    all2: Seq<Piece>,
)
    requires
        a1 == artist_matches(catalog, name),
        a2 == artist_matches(catalog, name),
        t1 == title_contains_matches(catalog, t),
        t2 == title_contains_matches(catalog, t),
        all1 == catalog,
        all2 == catalog,
    ensures
        a1 == a2,
        t1 == t2,
        all1 == all2,
{
}

} // verus!
