//! The crawl coordinator's logic.
//!
//! A crawl launches one unit of work per input URL (duplicates spawn their
//! own unit). Each unit fetches its page, and on success extracts the title
//! and appends `(url, title)` to the shared collection; on transport failure
//! it terminates silently, contributing nothing. The network fetch and the
//! scheduling of units belong to the surrounding program; each unit's
//! decision — what its fetch outcome contributes — is `process_unit`, and
//! `crawl_urls` is the whole batch over the units' outcomes in a given
//! order. Since units complete in a race, the collection a concurrent run
//! produces holds these same entries, in some completion order.

use vstd::prelude::*;
use vstd::seq_lib::lemma_multiset_commutative;
use crate::error::CrawlerError;
use crate::extract::extract_title;
use crate::extract::title_spec;
use crate::results::ResultEntry;
use crate::results::ResultSet;

verus! {

/// The view of one fetch outcome: the body's characters on success, nothing
/// on transport failure. Which failure it was does not matter: every failure
/// is discarded whole.
pub open spec fn fetch_view(fetched: Result<String, CrawlerError>) -> Option<Seq<char>> {
    match fetched {
        Ok(body) => Some(body@),
        Err(_) => None,
    }
}

/// The views of a sequence of fetch outcomes.
pub open spec fn fetch_views(fetched: Seq<Result<String, CrawlerError>>) -> Seq<Option<Seq<char>>> {
    fetched.map_values(|f: Result<String, CrawlerError>| fetch_view(f))
}

/// The views of a sequence of URLs.
pub open spec fn url_views(urls: Seq<String>) -> Seq<Seq<char>> {
    urls.map_values(|u: String| u@)
}

/// What one unit contributes: on a fetched body, the entry `(url, title)`
/// with the body's extracted title; on a failed fetch, nothing.
pub open spec fn unit_spec(url: Seq<char>, fetched: Option<Seq<char>>) -> Option<
    (Seq<char>, Seq<char>),
> {
    match fetched {
        Some(body) => Some((url, title_spec(body))),
        None => None,
    }
}

/// One unit's contribution as entries: one entry on a fetched body, none on
/// a failed fetch.
pub open spec fn unit_entries(url: Seq<char>, fetched: Option<Seq<char>>) -> Seq<
    (Seq<char>, Seq<char>),
> {
    match unit_spec(url, fetched) {
        Some(e) => seq![e],
        None => Seq::empty(),
    }
}

/// The entries a batch of units contributes, taken in the given order: each
/// unit's contribution in turn, failed units leaving no trace.
pub open spec fn crawl_spec(urls: Seq<Seq<char>>, fetched: Seq<Option<Seq<char>>>) -> Seq<
    (Seq<char>, Seq<char>),
>
    decreases urls.len(),
{
    if urls.len() == 0 {
        Seq::empty()
    } else {
        crawl_spec(urls.drop_last(), fetched.drop_last()) + unit_entries(
            urls.last(),
            fetched.last(),
        )
    }
}

/// One crawl unit's decision after its fetch: on success, the entry to
/// append — its URL with the title extracted from the body; on failure,
/// `None`, the error discarded without propagating to any other unit.
pub fn process_unit(url: &String, fetched: &Result<String, CrawlerError>) -> (r: Option<
    ResultEntry,
>)
    ensures
        (match r {
            Some(e) => Some(e@),
            None => None,
        }) == unit_spec(url@, fetch_view(*fetched)),
{
    match fetched {
        Ok(body) => {
            let title = extract_title(body.as_str());
            Some(ResultEntry { url: url.clone(), title })
        },
        Err(_) => None,
    }
}

/// A whole crawl over the units' fetch outcomes, unit by unit in the given
/// order: every successful unit appends exactly its entry, every failed one
/// appends nothing, and the batch completes whatever mixture of successes
/// and failures the outcomes hold.
pub fn crawl_urls(urls: &Vec<String>, fetched: &Vec<Result<String, CrawlerError>>) -> (r:
    ResultSet)
    requires
        urls@.len() == fetched@.len(),
    ensures
        r@ == crawl_spec(url_views(urls@), fetch_views(fetched@)),
        r@.len() <= urls@.len(),
{
    proof {
        lemma_crawl_bounds(url_views(urls@), fetch_views(fetched@));
    }
    let ghost us = url_views(urls@);
    let ghost fs = fetch_views(fetched@);
    let mut results = ResultSet::new();
    let mut i: usize = 0;
    while i < urls.len()
        invariant
            urls@.len() == fetched@.len(),
            i <= urls@.len(),
            us == url_views(urls@),
            fs == fetch_views(fetched@),
            results@ == crawl_spec(us.take(i as int), fs.take(i as int)),
        decreases urls@.len() - i,
    {
        match process_unit(&urls[i], &fetched[i]) {
            Some(entry) => results.append(entry),
            None => (),
        }
        proof {
            let j = i + 1;
            assert(us.take(j).drop_last() =~= us.take(i as int));
            assert(fs.take(j).drop_last() =~= fs.take(i as int));
            assert(us.take(j).last() == us[i as int]);
            assert(fs.take(j).last() == fs[i as int]);
            assert(results@ =~= crawl_spec(us.take(j), fs.take(j)));
        }
        i = i + 1;
    }
    proof {
        assert(us.take(urls@.len() as int) =~= us);
        assert(fs.take(fetched@.len() as int) =~= fs);
    }
    results
}

/// How many of a batch's fetches succeeded.
pub open spec fn success_count(fetched: Seq<Option<Seq<char>>>) -> nat
    decreases fetched.len(),
{
    if fetched.len() == 0 {
        0
    } else {
        success_count(fetched.drop_last()) + if fetched.last() is Some {
            1nat
        } else {
            0nat
        }
    }
}

/// After a crawl over N URLs the collection holds exactly one entry per URL
/// whose fetch succeeded — hence at most N entries, and at least none.
pub proof fn lemma_crawl_bounds(urls: Seq<Seq<char>>, fetched: Seq<Option<Seq<char>>>)
    requires
        urls.len() == fetched.len(),
    ensures
        crawl_spec(urls, fetched).len() == success_count(fetched),
        crawl_spec(urls, fetched).len() <= urls.len(),
    decreases urls.len(),
{
    if urls.len() > 0 {
        lemma_crawl_bounds(urls.drop_last(), fetched.drop_last());
    }
}

/// A unit whose fetch failed contributes nothing and corrupts nothing:
/// removing it from the batch leaves the crawl's entries unchanged, so every
/// other URL's entry stands exactly as it would have without the failure.
pub proof fn lemma_failed_unit_contributes_nothing(
    urls: Seq<Seq<char>>,
    fetched: Seq<Option<Seq<char>>>,
    i: int,
)
    requires
        urls.len() == fetched.len(),
        0 <= i < fetched.len(),
        fetched[i] is None,
    ensures
        crawl_spec(urls, fetched) == crawl_spec(urls.remove(i), fetched.remove(i)),
    decreases urls.len(),
{
    if i == urls.len() - 1 {
        assert(urls.remove(i) =~= urls.drop_last());
        assert(fetched.remove(i) =~= fetched.drop_last());
        assert(crawl_spec(urls, fetched) =~= crawl_spec(urls.drop_last(), fetched.drop_last()));
    } else {
        lemma_failed_unit_contributes_nothing(urls.drop_last(), fetched.drop_last(), i);
        assert(urls.remove(i).drop_last() =~= urls.drop_last().remove(i));
        assert(fetched.remove(i).drop_last() =~= fetched.drop_last().remove(i));
        assert(urls.remove(i).last() == urls.last());
        assert(fetched.remove(i).last() == fetched.last());
        assert(crawl_spec(urls.remove(i), fetched.remove(i)) =~= crawl_spec(urls, fetched));
    }
}

/// Completion order changes nothing but the order: exchanging two
/// neighbouring units in a batch permutes the crawl's entries without
/// dropping, duplicating or altering any — the multiset of entries is the
/// same. Repeated exchanges reach every ordering, so two crawls of the same
/// list with the same outcomes differ at most in the order of their entries.
pub proof fn lemma_unit_order_swap_keeps_entries(
    urls: Seq<Seq<char>>,
    fetched: Seq<Option<Seq<char>>>,
    i: int,
)
    requires
        urls.len() == fetched.len(),
        0 <= i,
        i + 1 < urls.len(),
    ensures
        crawl_spec(
            urls.update(i, urls[i + 1]).update(i + 1, urls[i]),
            fetched.update(i, fetched[i + 1]).update(i + 1, fetched[i]),
        ).to_multiset() == crawl_spec(urls, fetched).to_multiset(),
    decreases urls.len(),
{
    let su = urls.update(i, urls[i + 1]).update(i + 1, urls[i]);
    let sf = fetched.update(i, fetched[i + 1]).update(i + 1, fetched[i]);
    let n = urls.len() as int;
    if i + 1 == n - 1 {
        let pu = urls.drop_last().drop_last();
        let pf = fetched.drop_last().drop_last();
        let p = crawl_spec(pu, pf);
        let a = unit_entries(urls[n - 2], fetched[n - 2]);
        let b = unit_entries(urls[n - 1], fetched[n - 1]);
        assert(su.drop_last().drop_last() =~= pu);
        assert(sf.drop_last().drop_last() =~= pf);
        assert(urls.drop_last().last() == urls[n - 2]);
        assert(su.drop_last().last() == urls[n - 1]);
        assert(crawl_spec(urls, fetched) == crawl_spec(urls.drop_last(), fetched.drop_last()) + b);
        assert(crawl_spec(urls.drop_last(), fetched.drop_last()) == p + a);
        assert(crawl_spec(su, sf) == crawl_spec(su.drop_last(), sf.drop_last()) + a);
        assert(crawl_spec(su.drop_last(), sf.drop_last()) == p + b);
        assert(crawl_spec(urls, fetched) == (p + a) + b);
        assert(crawl_spec(su, sf) == (p + b) + a);
        lemma_multiset_commutative(p + a, b);
        lemma_multiset_commutative(p, a);
        lemma_multiset_commutative(p + b, a);
        lemma_multiset_commutative(p, b);
        assert(crawl_spec(su, sf).to_multiset() =~= crawl_spec(urls, fetched).to_multiset());
    } else {
        lemma_unit_order_swap_keeps_entries(urls.drop_last(), fetched.drop_last(), i);
        assert(su.drop_last() =~= urls.drop_last().update(i, urls[i + 1]).update(i + 1, urls[i]));
        assert(sf.drop_last() =~= fetched.drop_last().update(i, fetched[i + 1]).update(
            i + 1,
            fetched[i],
        ));
        assert(su.last() == urls.last());
        assert(sf.last() == fetched.last());
        let e = unit_entries(urls.last(), fetched.last());
        lemma_multiset_commutative(crawl_spec(su.drop_last(), sf.drop_last()), e);
        lemma_multiset_commutative(crawl_spec(urls.drop_last(), fetched.drop_last()), e);
        assert(crawl_spec(su, sf).to_multiset() =~= crawl_spec(urls, fetched).to_multiset());
    }
}

} // verus!
