//! The registry as mathematics: a sequence of pages, each a sequence of
//! loan-request references, and what entering and removing a reference does
//! to it.
use vstd::prelude::*;
use crate::constants::PAGE_CAPACITY;
use crate::identity::LoanKey;

verus! {

/// How many references the pages hold, all together.
pub open spec fn reference_count(pages: Seq<Seq<LoanKey>>) -> nat
    decreases pages.len(),
{
    if pages.len() == 0 {
        0
    } else {
        reference_count(pages.drop_last()) + pages.last().len()
    }
}

/// Whether some page holds `key`.
pub open spec fn holds(pages: Seq<Seq<LoanKey>>, key: LoanKey) -> bool {
    exists|i: int| 0 <= i < pages.len() && #[trigger] pages[i].contains(key)
}

/// No reference stands in two places, be it on one page or on two.
pub open spec fn distinct(pages: Seq<Seq<LoanKey>>) -> bool {
    forall|i: int, a: int, j: int, b: int|
        0 <= i < pages.len() && 0 <= a < pages[i].len() && 0 <= j < pages.len() && 0 <= b
            < pages[j].len() && #[trigger] pages[i][a] == #[trigger] pages[j][b] ==> i == j && a
            == b
}

/// No page is empty and none is over capacity.
pub open spec fn well_paged(pages: Seq<Seq<LoanKey>>) -> bool {
    forall|i: int| 0 <= i < pages.len() ==> 1 <= #[trigger] pages[i].len() <= PAGE_CAPACITY
}

/// The pages after `key` was entered: on the last page while it has room,
/// else alone on a new page behind it.
pub open spec fn inserted(pages: Seq<Seq<LoanKey>>, key: LoanKey) -> Seq<Seq<LoanKey>> {
    if pages.len() == 0 || pages.last().len() >= PAGE_CAPACITY {
        pages.push(seq![key])
    } else {
        pages.update(pages.len() - 1, pages.last().push(key))
    }
}

/// The page on which `key` stands, for pages that hold it.
pub open spec fn page_of(pages: Seq<Seq<LoanKey>>, key: LoanKey) -> int {
    choose|i: int| 0 <= i < pages.len() && #[trigger] pages[i].contains(key)
}

/// The pages after `key` was taken out, for pages that hold it: its page
/// goes on without it, or leaves the sequence if it held nothing else.
pub open spec fn removed(pages: Seq<Seq<LoanKey>>, key: LoanKey) -> Seq<Seq<LoanKey>> {
    let i = page_of(pages, key);
    let rest = pages[i].remove(pages[i].index_of(key));
    if rest.len() == 0 {
        pages.remove(i)
    } else {
        pages.update(i, rest)
    }
}

pub proof fn lemma_count_push(pages: Seq<Seq<LoanKey>>, page: Seq<LoanKey>)
    ensures
        reference_count(pages.push(page)) == reference_count(pages) + page.len(),
{
    assert(pages.push(page).drop_last() =~= pages);
}

pub proof fn lemma_count_update(pages: Seq<Seq<LoanKey>>, i: int, page: Seq<LoanKey>)
    requires
        0 <= i < pages.len(),
    ensures
        reference_count(pages.update(i, page)) == reference_count(pages) - pages[i].len()
            + page.len(),
    decreases pages.len(),
{
    let updated = pages.update(i, page);
    if i == pages.len() - 1 {
        assert(updated.drop_last() =~= pages.drop_last());
    } else {
        assert(updated.drop_last() =~= pages.drop_last().update(i, page));
        lemma_count_update(pages.drop_last(), i, page);
    }
}

pub proof fn lemma_count_remove(pages: Seq<Seq<LoanKey>>, i: int)
    requires
        0 <= i < pages.len(),
    ensures
        reference_count(pages.remove(i)) == reference_count(pages) - pages[i].len(),
    decreases pages.len(),
{
    let shorter = pages.remove(i);
    if i == pages.len() - 1 {
        assert(shorter =~= pages.drop_last());
    } else {
        assert(shorter.drop_last() =~= pages.drop_last().remove(i));
        assert(shorter.last() == pages.last());
        lemma_count_remove(pages.drop_last(), i);
    }
}

/// Entering a reference that the pages do not hold keeps them in order and
/// adds one to their count.
pub proof fn lemma_inserted(pages: Seq<Seq<LoanKey>>, key: LoanKey)
    requires
        well_paged(pages),
        distinct(pages),
        !holds(pages, key),
    ensures
        well_paged(inserted(pages, key)),
        distinct(inserted(pages, key)),
        holds(inserted(pages, key), key),
        reference_count(inserted(pages, key)) == reference_count(pages) + 1,
{
    let after = inserted(pages, key);
    let last = after.len() - 1;
    assert(after[last].last() == key);
    assert(after[last].contains(key));
    if pages.len() == 0 || pages.last().len() >= PAGE_CAPACITY {
        lemma_count_push(pages, seq![key]);
    } else {
        lemma_count_update(pages, pages.len() - 1, pages.last().push(key));
    }
    assert forall|i: int, a: int, j: int, b: int|
        0 <= i < after.len() && 0 <= a < after[i].len() && 0 <= j < after.len() && 0 <= b
            < after[j].len() && #[trigger] after[i][a] == #[trigger] after[j][b] implies i == j
        && a == b by {
        let new_i = i == last && a == after[last].len() - 1;
        let new_j = j == last && b == after[last].len() - 1;
        if !new_i {
            assert(after[i][a] == pages[i][a]);
            assert(pages[i].contains(pages[i][a]));
        }
        if !new_j {
            assert(after[j][b] == pages[j][b]);
            assert(pages[j].contains(pages[j][b]));
        }
    }
}

/// Taking out the reference that stands at place `a` of page `i` gives
/// `removed`, keeps the pages in order and takes one from their count.
pub proof fn lemma_removed(pages: Seq<Seq<LoanKey>>, key: LoanKey, i: int, a: int)
    requires
        well_paged(pages),
        distinct(pages),
        0 <= i < pages.len(),
        0 <= a < pages[i].len(),
        pages[i][a] == key,
    ensures
        holds(pages, key),
        page_of(pages, key) == i,
        pages[i].index_of(key) == a,
        removed(pages, key) == (if pages[i].len() == 1 {
            pages.remove(i)
        } else {
            pages.update(i, pages[i].remove(a))
        }),
        well_paged(removed(pages, key)),
        distinct(removed(pages, key)),
        !holds(removed(pages, key), key),
        reference_count(removed(pages, key)) == reference_count(pages) - 1,
{
    assert(pages[i].contains(key));
    let p = page_of(pages, key);
    assert(0 <= p < pages.len() && pages[p].contains(key));
    let w = choose|w: int| 0 <= w < pages[p].len() && pages[p][w] == key;
    assert(pages[p][w] == pages[i][a]);
    assert(p == i);
    let x = pages[i].index_of(key);
    assert(0 <= x < pages[i].len() && pages[i][x] == key);
    assert(pages[i][x] == pages[i][a]);
    assert(x == a);
    let rest = pages[i].remove(a);
    let after = removed(pages, key);
    if pages[i].len() == 1 {
        assert(after == pages.remove(i));
        lemma_count_remove(pages, i);
        assert forall|m: int, c: int, n: int, d: int|
            0 <= m < after.len() && 0 <= c < after[m].len() && 0 <= n < after.len() && 0 <= d
                < after[n].len() && #[trigger] after[m][c] == #[trigger] after[n][d] implies m
            == n && c == d by {
            let mm = if m < i { m } else { m + 1 };
            let nn = if n < i { n } else { n + 1 };
            assert(after[m][c] == pages[mm][c]);
            assert(after[n][d] == pages[nn][d]);
        }
        assert forall|m: int| 0 <= m < after.len() implies !(#[trigger] after[m].contains(key)) by {
            let mm = if m < i { m } else { m + 1 };
            if after[m].contains(key) {
                let c = choose|c: int| 0 <= c < after[m].len() && after[m][c] == key;
                assert(pages[mm][c] == pages[i][a]);
            }
        }
    } else {
        assert(after == pages.update(i, rest));
        lemma_count_update(pages, i, rest);
        assert forall|m: int, c: int, n: int, d: int|
            0 <= m < after.len() && 0 <= c < after[m].len() && 0 <= n < after.len() && 0 <= d
                < after[n].len() && #[trigger] after[m][c] == #[trigger] after[n][d] implies m
            == n && c == d by {
            let cc = if m == i && c >= a { c + 1 } else { c };
            let dd = if n == i && d >= a { d + 1 } else { d };
            assert(after[m][c] == pages[m][cc]);
            assert(after[n][d] == pages[n][dd]);
        }
        assert forall|m: int| 0 <= m < after.len() implies !(#[trigger] after[m].contains(key)) by {
            if after[m].contains(key) {
                let c = choose|c: int| 0 <= c < after[m].len() && after[m][c] == key;
                let cc = if m == i && c >= a { c + 1 } else { c };
                assert(pages[m][cc] == pages[i][a]);
            }
        }
    }
}

/// Entering a reference that the pages do not hold and then taking it out
/// again gives back the pages as they were: as many pages, each with the
/// references it had, in the order it had them.
pub proof fn lemma_insert_then_remove(pages: Seq<Seq<LoanKey>>, key: LoanKey)
    requires
        well_paged(pages),
        distinct(pages),
        !holds(pages, key),
    ensures
        removed(inserted(pages, key), key) == pages,
{
    let mid = inserted(pages, key);
    lemma_inserted(pages, key);
    let last = mid.len() - 1;
    let at = mid[last].len() - 1;
    assert(mid[last][at] == key);
    lemma_removed(mid, key, last, at);
    if pages.len() == 0 || pages.last().len() >= PAGE_CAPACITY {
        assert(mid.remove(last) =~= pages);
    } else {
        assert(mid[last].remove(at) =~= pages.last());
        assert(mid.update(last, pages.last()) =~= pages);
    }
}

/// A reference entered while the last page is at capacity goes alone onto a
/// new page behind it, and every page that was there stays as it was.
pub proof fn lemma_full_page_overflows_to_new_page(pages: Seq<Seq<LoanKey>>, key: LoanKey)
    requires
        pages.len() > 0,
        pages.last().len() == PAGE_CAPACITY,
    ensures
        inserted(pages, key).len() == pages.len() + 1,
        inserted(pages, key).last() == seq![key],
        forall|i: int| 0 <= i < pages.len() ==> inserted(pages, key)[i] == pages[i],
{
}

/// While the last page has room, a reference is entered at its end, and
/// there are as many pages as before.
pub proof fn lemma_room_on_last_page(pages: Seq<Seq<LoanKey>>, key: LoanKey)
    requires
        pages.len() > 0,
        pages.last().len() < PAGE_CAPACITY,
    ensures
        inserted(pages, key).len() == pages.len(),
        inserted(pages, key).last() == pages.last().push(key),
        forall|i: int| 0 <= i < pages.len() - 1 ==> inserted(pages, key)[i] == pages[i],
{
}

/// The first pages never hold more references than all the pages.
pub proof fn lemma_count_of_first_pages(pages: Seq<Seq<LoanKey>>, n: int)
    requires
        0 <= n <= pages.len(),
    ensures
        reference_count(pages.take(n)) <= reference_count(pages),
    decreases pages.len(),
{
    if n == pages.len() {
        assert(pages.take(n) =~= pages);
    } else {
        assert(pages.drop_last().take(n) =~= pages.take(n));
        lemma_count_of_first_pages(pages.drop_last(), n);
    }
}

} // verus!
