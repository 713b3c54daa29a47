//! Name resolution: matches a free-text, case-insensitive query against
//! the static catalog by fuzzy alignment score and returns the best
//! entry, or an explicit no-match result. Ties are broken
//! deterministically: shorter name first, then the earlier catalog entry.

use vstd::prelude::*;
use crate::record::CatalogEntry;
use crate::text::lower_of;
use crate::text::lowercase;
use vstd::string::StrSliceExecFns;

verus! {

/// What `fuzzy_matcher::clangd::fuzzy_match` returns for a candidate line
/// and a query pattern: the score depends on the two character sequences
/// alone.
pub uninterp spec fn fuzzy_score_of(line: Seq<char>, pattern: Seq<char>) -> Option<int>;

/// Relies on fuzzy_matcher::clangd::fuzzy_match: matches `line` against
/// `pattern` with case ignored and returns an alignment score (higher is
/// better), or nothing when the pattern does not match. The result is a
/// function of the two strings alone.
#[verifier::external_body]
fn fuzzy_score(line: &str, pattern: &str) -> (r: Option<i64>)
    ensures
        (r is Some) == (fuzzy_score_of(line@, pattern@) is Some),
        r matches Some(v) ==> fuzzy_score_of(line@, pattern@) == Some(v as int),
{
    fuzzy_matcher::clangd::fuzzy_match(line, pattern)
}

/// The fuzzy score of catalog entry `i` against the normalized query `q`.
pub open spec fn entry_score(q: Seq<char>, cat: Seq<CatalogEntry>, i: int) -> Option<int> {
    fuzzy_score_of(cat[i].name@, q)
}

/// Entry `i` is preferred over entry `j` for query `q`: it scores higher,
/// or scores the same with a shorter name, or scores the same with a name
/// of the same length and does not come later in the catalog.
pub open spec fn prefer(q: Seq<char>, cat: Seq<CatalogEntry>, i: int, j: int) -> bool {
    match entry_score(q, cat, j) {
        None => true,
        Some(sj) => match entry_score(q, cat, i) {
            None => false,
            Some(si) => si > sj || (si == sj && (cat[i].name@.len() < cat[j].name@.len() || (
            cat[i].name@.len() == cat[j].name@.len() && i <= j))),
        },
    }
}

/// Entry `i` is the best match for query `q`: it has a score, and it is
/// preferred over every entry of the catalog.
pub open spec fn is_best_match(q: Seq<char>, cat: Seq<CatalogEntry>, i: int) -> bool {
    &&& 0 <= i < cat.len()
    &&& entry_score(q, cat, i) is Some
    &&& forall|j: int| 0 <= j < cat.len() ==> prefer(q, cat, i, j)
}

/// The outcome of a resolution: the best-matching catalog entry, or an
/// explicit no-match result.
pub enum Resolution {
    Match { name: String, ident: String },
    NoMatch,
}

/// The normalized form of a query: its lowercase folding.
pub fn normalize_query(query: &str) -> (r: String)
    ensures
        r@ == lower_of(query@),
{
    lowercase(query)
}

/// The index of the best-matching catalog entry for the (already
/// normalized) query, or nothing when no entry matches at all.
pub fn best_match_index(query_lower: &str, catalog: &Vec<CatalogEntry>) -> (r: Option<usize>)
    ensures
        match r {
            Some(i) => is_best_match(query_lower@, catalog@, i as int),
            None => forall|j: int|
                0 <= j < catalog@.len() ==> entry_score(query_lower@, catalog@, j) is None,
        },
{
    let ghost q = query_lower@;
    let mut have_best: bool = false;
    let mut best_idx: usize = 0;
    let mut best_score: i64 = 0;
    let mut best_len: usize = 0;
    let mut k: usize = 0;
    while k < catalog.len()
        invariant
            k <= catalog@.len(),
            q == query_lower@,
            have_best ==> best_idx < k && entry_score(q, catalog@, best_idx as int) == Some(
                best_score as int,
            ) && best_len == catalog@[best_idx as int].name@.len() && forall|j: int|
                0 <= j < k ==> prefer(q, catalog@, best_idx as int, j),
            !have_best ==> forall|j: int| 0 <= j < k ==> entry_score(q, catalog@, j) is None,
        decreases catalog@.len() - k,
    {
        let name = &catalog[k].name;
        let s = fuzzy_score(name.as_str(), query_lower);
        match s {
            Some(sv) => {
                let nlen = name.as_str().unicode_len();
                let take = if !have_best {
                    true
                } else if sv > best_score {
                    true
                } else if sv == best_score && nlen < best_len {
                    true
                } else {
                    false
                };
                if take {
                    proof {
                        assert forall|j: int| 0 <= j < k + 1 implies prefer(q, catalog@, k as int, j) by {
                            if j < k && have_best {
                                assert(prefer(q, catalog@, best_idx as int, j));
                            }
                        }
                    }
                    have_best = true;
                    best_idx = k;
                    best_score = sv;
                    best_len = nlen;
                } else {
                    proof {
                        assert forall|j: int| 0 <= j < k + 1 implies prefer(
                            q,
                            catalog@,
                            best_idx as int,
                            j,
                        ) by {
                            if j < k {
                                assert(prefer(q, catalog@, best_idx as int, j));
                            }
                        }
                    }
                }
            },
            None => {},
        }
        k = k + 1;
    }
    if have_best {
        Some(best_idx)
    } else {
        None
    }
}

/// Resolves a free-text query against the catalog: normalizes it to
/// lowercase, scores every catalog name, and returns the best-scoring
/// entry (ties broken by shorter name, then catalog order), or an
/// explicit no-match result when no entry matches.
pub fn resolve(query: &str, catalog: &Vec<CatalogEntry>) -> (r: Resolution)
    ensures
        match r {
            Resolution::Match { name, ident } => exists|i: int|
                is_best_match(lower_of(query@), catalog@, i) && name@ == catalog@[i].name@
                    && ident@ == catalog@[i].ident@,
            Resolution::NoMatch => forall|j: int|
                0 <= j < catalog@.len() ==> entry_score(lower_of(query@), catalog@, j) is None,
        },
{
    let q = normalize_query(query);
    match best_match_index(q.as_str(), catalog) {
        Some(i) => {
            let name = catalog[i].name.clone();
            let ident = catalog[i].ident.clone();
            proof {
                assert(is_best_match(lower_of(query@), catalog@, i as int));
            }
            Resolution::Match { name, ident }
        },
        None => Resolution::NoMatch,
    }
}

/// A successful resolution never passes an empty identifier downstream:
/// when every catalog identifier is non-empty, the identifier of the
/// resolved entry is non-empty too; any query that matches nothing is
/// reported as an explicit no-match instead.
pub proof fn lemma_resolved_ident_nonempty(
    q: Seq<char>,
    cat: Seq<CatalogEntry>,
    i: int,
    ident: Seq<char>,
)
    requires
        forall|j: int| 0 <= j < cat.len() ==> cat[j].ident@.len() > 0,
        is_best_match(q, cat, i),
        ident == cat[i].ident@,
    ensures
        ident.len() > 0,
{
}

} // verus!
