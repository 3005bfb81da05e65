use vstd::prelude::*;
use crate::constants::PAGE_CAPACITY;
use crate::errors::ErrorCode;
use crate::identity::LoanKey;
use crate::state::loan_registry_page::{copy_keys, first_position, LoanRegistryPageState};
use crate::state::page_chain::{
    distinct, holds, inserted, lemma_count_of_first_pages, lemma_count_push,
    lemma_insert_then_remove, lemma_inserted, lemma_removed, page_of, reference_count, removed,
    well_paged,
};

verus! {

/// The directory of all open loan requests.
///
/// The pages stand in an arena and keep their place in it for as long as
/// they are linked; `first_page` and each page's `next_page` are places in
/// that arena. A place whose page is not linked holds an empty page and is
/// taken again when a new page is needed.
pub struct LoanRegistryState {
    total_loans: u64,
    first_page: Option<usize>,
    pages: Vec<LoanRegistryPageState>,
    chain: Ghost<Seq<usize>>,
}

impl View for LoanRegistryState {
    type V = Seq<Seq<LoanKey>>;

    /// The linked pages in order, each as the references it holds.
    closed spec fn view(&self) -> Seq<Seq<LoanKey>> {
        Seq::new(self.chain@.len(), |i: int| self.pages@[self.chain@[i] as int]@)
    }
}

impl LoanRegistryState {
    /// The arena places of the linked pages, in the order of the links.
    pub closed spec fn page_ids(&self) -> Seq<usize> {
        self.chain@
    }

    pub closed spec fn spec_total_loans(&self) -> u64 {
        self.total_loans
    }

    pub closed spec fn spec_first_page(&self) -> Option<usize> {
        self.first_page
    }

    /// The links lead from `first_page` through `page_ids` and end there.
    pub closed spec fn linked(&self) -> bool {
        let chain = self.chain@;
        &&& forall|i: int| 0 <= i < chain.len() ==> #[trigger] chain[i] < self.pages@.len()
        &&& forall|i: int, j: int| 0 <= i < j < chain.len() ==> chain[i] != chain[j]
        &&& self.first_page == (if chain.len() == 0 {
            None
        } else {
            Some(chain[0])
        })
        &&& forall|i: int|
            0 <= i < chain.len() ==> (#[trigger] self.pages@[chain[i] as int]).next_page == (if i + 1
                < chain.len() {
                Some(chain[i + 1])
            } else {
                None
            })
    }

    /// Every arena place outside the links holds an empty, unlinked page.
    pub closed spec fn spare_places_empty(&self) -> bool {
        forall|k: usize|
            k < self.pages@.len() && !self.chain@.contains(k) ==> (#[trigger] self.pages@[k as int])@.len()
                == 0 && self.pages@[k as int].next_page is None
    }

    /// The registry is in order: the links form one chain, no linked page is
    /// empty or over capacity, no reference stands twice, and `total_loans`
    /// is the number of references on the linked pages.
    pub closed spec fn wf(&self) -> bool {
        &&& self.linked()
        &&& self.spare_places_empty()
        &&& well_paged(self@)
        &&& distinct(self@)
        &&& self.total_loans == reference_count(self@)
    }

    /// What a registry in order is known to satisfy.
    pub proof fn lemma_wf(&self)
        requires
            self.wf(),
        ensures
            well_paged(self@),
            distinct(self@),
            self.spec_total_loans() == reference_count(self@),
            self.page_ids().len() == self@.len(),
            self.page_ids().no_duplicates(),
            self.links_follow(),
    {
    }

    /// Where the page at `place` leads: the place of the page that follows
    /// it. A place without a page leads nowhere.
    pub closed spec fn spec_next_page(&self, place: usize) -> Option<usize> {
        if place < self.pages@.len() {
            self.pages@[place as int].next_page
        } else {
            None
        }
    }

    /// Whether the links are those of `page_ids`: `first_page` is the place
    /// of the first linked page, each linked page leads to the one after it,
    /// and the last leads nowhere. Where no page is linked, `first_page` is
    /// unset.
    pub open spec fn links_follow(&self) -> bool {
        &&& self.spec_first_page() == (if self.page_ids().len() == 0 {
            None
        } else {
            Some(self.page_ids()[0])
        })
        &&& forall|i: int|
            0 <= i < self.page_ids().len() ==> self.spec_next_page(#[trigger] self.page_ids()[i])
                == (if i + 1 < self.page_ids().len() {
                Some(self.page_ids()[i + 1])
            } else {
                None
            })
    }

    /// Whether `after` is `before` with `key` entered: the pages are those
    /// of `inserted`, the count is one more, every page that was linked
    /// stands where it stood, in the same order, and a page that was added
    /// is linked behind them.
    pub open spec fn enlists(before: Self, after: Self, key: LoanKey) -> bool {
        &&& after@ == inserted(before@, key)
        &&& after.spec_total_loans() == before.spec_total_loans() + 1
        &&& after.page_ids().len() == after@.len()
        &&& after.page_ids().take(before.page_ids().len() as int) == before.page_ids()
        &&& after.links_follow()
    }

    /// Whether `after` is `before` with `key` taken out: the pages are those
    /// of `removed`, the count is one less, and the linked pages stand where
    /// they stood, in the same order, but for the page of `key` where that
    /// was left empty, which is no longer linked.
    pub open spec fn delists(before: Self, after: Self, key: LoanKey) -> bool {
        &&& after@ == removed(before@, key)
        &&& after.spec_total_loans() == before.spec_total_loans() - 1
        &&& after.page_ids() == (if after@.len() == before@.len() {
            before.page_ids()
        } else {
            before.page_ids().remove(page_of(before@, key))
        })
        &&& after.links_follow()
    }

    /// A registry without pages.
    pub fn new() -> (registry: Self)
        ensures
            registry.wf(),
            registry@ == Seq::<Seq<LoanKey>>::empty(),
            registry.spec_total_loans() == 0,
            registry.spec_first_page() is None,
    {
        let registry = LoanRegistryState {
            total_loans: 0,
            first_page: None,
            pages: Vec::new(),
            chain: Ghost(Seq::empty()),
        };
        assert(registry@ =~= Seq::<Seq<LoanKey>>::empty());
        registry
    }

    /// How many loan requests are open.
    pub fn total_loans(&self) -> (n: u64)
        ensures
            n == self.spec_total_loans(),
    {
        self.total_loans
    }

    /// The arena place of the first page, if there is a page.
    pub fn first_page(&self) -> (first: Option<usize>)
        ensures
            first == self.spec_first_page(),
    {
        self.first_page
    }

    /// The arena place of the page that follows the page at `place`, if one
    /// does.
    pub fn next_page(&self, place: usize) -> (next: Option<usize>)
        ensures
            next == self.spec_next_page(place),
    {
        if place < self.pages.len() {
            self.pages[place].next_page
        } else {
            None
        }
    }

    /// Walks the links until a page holds `key`. Answers the place of the
    /// page before it, its own place, where `key` stands on it, and the
    /// page's rank among the linked pages.
    fn locate(&self, key: LoanKey) -> (found: Option<(Option<usize>, usize, usize, Ghost<int>)>)
        requires
            self.wf(),
        ensures
            match found {
                Some((before, place, at, rank)) => {
                    &&& 0 <= rank@ < self.chain@.len()
                    &&& place == self.chain@[rank@]
                    &&& before == (if rank@ == 0 {
                        None
                    } else {
                        Some(self.chain@[rank@ - 1])
                    })
                    &&& at < self@[rank@].len()
                    &&& self@[rank@][at as int] == key
                },
                None => !holds(self@, key),
            },
    {
        let mut before: Option<usize> = None;
        let mut current: Option<usize> = self.first_page;
        let ghost mut rank: int = 0;
        loop
            invariant
                self.wf(),
                0 <= rank <= self.chain@.len(),
                current == (if rank < self.chain@.len() {
                    Some(self.chain@[rank])
                } else {
                    None
                }),
                before == (if rank == 0 {
                    None
                } else {
                    Some(self.chain@[rank - 1])
                }),
                forall|j: int| 0 <= j < rank ==> !(#[trigger] self@[j]).contains(key),
            decreases self.chain@.len() - rank,
        {
            match current {
                None => {
                    return None;
                },
                Some(place) => {
                    assert(self.pages@[self.chain@[rank] as int]@ == self@[rank]);
                    match self.pages[place].position(key) {
                        Some(at) => {
                            return Some((before, place, at, Ghost(rank)));
                        },
                        None => {
                            before = current;
                            current = self.pages[place].next_page;
                            proof {
                                rank = rank + 1;
                            }
                        },
                    }
                },
            }
        }
    }

    /// Whether the registry lists `key`.
    pub fn contains(&self, key: LoanKey) -> (listed: bool)
        requires
            self.wf(),
        ensures
            listed == holds(self@, key),
    {
        match self.locate(key) {
            Some((_, _, at, rank)) => {
                assert(self@[rank@].contains(key));
                true
            },
            None => false,
        }
    }

    /// Finds a place for a page that holds `key` alone: the first spare place
    /// of the arena, or a new one at its end. The page is not yet linked.
    fn place_new_page(&mut self, key: LoanKey) -> (place: usize)
        requires
            old(self).linked(),
            old(self).spare_places_empty(),
            well_paged(old(self)@),
        ensures
            final(self).total_loans == old(self).total_loans,
            final(self).first_page == old(self).first_page,
            final(self).chain@ == old(self).chain@,
            !old(self).chain@.contains(place),
            place < final(self).pages@.len(),
            final(self).pages@.len() == old(self).pages@.len() || (final(self).pages@.len()
                == old(self).pages@.len() + 1 && place == old(self).pages@.len()),
            final(self).pages@[place as int]@ == seq![key],
            final(self).pages@[place as int].next_page is None,
            forall|k: int|
                0 <= k < old(self).pages@.len() && k != place ==> final(self).pages@[k] == old(
                    self,
                ).pages@[k],
    {
        let mut place: usize = 0;
        while place < self.pages.len() && self.pages[place].loan_requests.len() != 0
            invariant
                place <= self.pages@.len(),
            decreases self.pages@.len() - place,
        {
            place += 1;
        }
        proof {
            if old(self).chain@.contains(place) {
                let rank = choose|rank: int|
                    0 <= rank < old(self).chain@.len() && old(self).chain@[rank] == place;
                assert(old(self)@[rank].len() >= 1);
            }
        }
        if place < self.pages.len() {
            self.pages[place].loan_requests.push(key);
            self.pages[place].next_page = None;
            assert(self.pages@[place as int]@ =~= seq![key]);
        } else {
            let mut page = LoanRegistryPageState::new();
            page.loan_requests.push(key);
            assert(page@ =~= seq![key]);
            self.pages.push(page);
        }
        place
    }

    /// Enters `key` as the registry's newest reference: on the last page
    /// while that has room, else on a new page linked behind it (or as the
    /// first page, where there was none). The count goes up by one.
    ///
    /// Fails with `CalculationError`, and changes nothing, only where the
    /// count cannot go up any more.
    pub fn insert(&mut self, key: LoanKey) -> (r: Result<(), ErrorCode>)
        requires
            old(self).wf(),
            !holds(old(self)@, key),
        ensures
            final(self).wf(),
            well_paged(final(self)@),
            final(self).spec_total_loans() == reference_count(final(self)@),
            old(self).spec_total_loans() < u64::MAX ==> r == Ok::<(), ErrorCode>(())
                && Self::enlists(*old(self), *final(self), key),
            old(self).spec_total_loans() == u64::MAX ==> r == Err::<(), ErrorCode>(
                ErrorCode::CalculationError,
            ) && *final(self) == *old(self),
    {
        if self.total_loans == u64::MAX {
            return Err(ErrorCode::CalculationError);
        }
        proof {
            lemma_inserted(self@, key);
        }
        match self.first_page {
            None => {
                let place = self.place_new_page(key);
                self.first_page = Some(place);
                proof {
                    self.chain@ = seq![place];
                }
                assert(self@ =~= inserted(old(self)@, key));
                assert(self.page_ids().take(0) =~= old(self).page_ids());
            },
            Some(first) => {
                let mut last: usize = first;
                let ghost mut rank: int = 0;
                loop
                    invariant
                        self.wf(),
                        0 <= rank < self.chain@.len(),
                        last == self.chain@[rank],
                    ensures
                        rank == self.chain@.len() - 1,
                    decreases self.chain@.len() - rank,
                {
                    match self.pages[last].next_page {
                        Some(next) => {
                            last = next;
                            proof {
                                rank = rank + 1;
                            }
                        },
                        None => {
                            break ;
                        },
                    }
                }
                assert(self.pages@[last as int]@ == self@[rank]);
                if !self.pages[last].is_full() {
                    self.pages[last].push(key)?;
                    assert(self@ =~= inserted(old(self)@, key));
                    assert(self.page_ids().take(old(self).page_ids().len() as int) =~= old(
                        self,
                    ).page_ids());
                } else {
                    let place = self.place_new_page(key);
                    self.pages[last].next_page = Some(place);
                    proof {
                        self.chain@ = self.chain@.push(place);
                    }
                    assert(self@ =~= inserted(old(self)@, key));
                    assert(self.page_ids().take(old(self).page_ids().len() as int) =~= old(
                        self,
                    ).page_ids());
                }
            },
        }
        self.total_loans = self.total_loans + 1;
        Ok(())
    }

    /// Enters `key` unless the registry lists it already, and says whether
    /// it did. A key that is listed leaves the registry as it was, so that
    /// no reference ever stands twice.
    ///
    /// Fails with `CalculationError`, and changes nothing, only where the
    /// key is new and the count cannot go up any more.
    pub fn insert_if_absent(&mut self, key: LoanKey) -> (r: Result<bool, ErrorCode>)
        requires
            old(self).wf(),
        ensures
            final(self).wf(),
            well_paged(final(self)@),
            final(self).spec_total_loans() == reference_count(final(self)@),
            holds(old(self)@, key) ==> r == Ok::<bool, ErrorCode>(false) && *final(self) == *old(
                self,
            ),
            !holds(old(self)@, key) && old(self).spec_total_loans() < u64::MAX ==> r == Ok::<
                bool,
                ErrorCode,
            >(true) && Self::enlists(*old(self), *final(self), key),
            !holds(old(self)@, key) && old(self).spec_total_loans() == u64::MAX ==> r == Err::<
                bool,
                ErrorCode,
            >(ErrorCode::CalculationError) && *final(self) == *old(self),
    {
        if self.contains(key) {
            return Ok(false);
        }
        self.insert(key)?;
        Ok(true)
    }

    /// Takes `key` out of the page that holds it. A page left empty is
    /// unlinked: the page before it, or the registry itself where it was the
    /// first, then leads to the page that followed it. The count goes down
    /// by one.
    ///
    /// Fails with `NotFoundInRegistry`, and changes nothing, where no linked
    /// page holds `key`.
    pub fn remove(&mut self, key: LoanKey) -> (r: Result<(), ErrorCode>)
        requires
            old(self).wf(),
        ensures
            final(self).wf(),
            well_paged(final(self)@),
            final(self).spec_total_loans() == reference_count(final(self)@),
            holds(old(self)@, key) ==> r == Ok::<(), ErrorCode>(()) && Self::delists(
                *old(self),
                *final(self),
                key,
            ),
            !holds(old(self)@, key) ==> r == Err::<(), ErrorCode>(
                ErrorCode::NotFoundInRegistry,
            ) && *final(self) == *old(self),
    {
        match self.locate(key) {
            None => Err(ErrorCode::NotFoundInRegistry),
            Some((before, place, at, rank)) => {
                proof {
                    lemma_removed(self@, key, rank@, at as int);
                }
                assert(self.pages@[place as int]@ == self@[rank@]);
                if self.pages[place].loan_requests.len() == 1 {
                    self.unlink_page(before, place, rank);
                } else {
                    self.take_from_page(place, at, rank);
                }
                self.total_loans = self.total_loans - 1;
                Ok(())
            },
        }
    }

    /// Takes the reference at `at` out of the page at `place`, which holds
    /// others besides.
    fn take_from_page(&mut self, place: usize, at: usize, rank: Ghost<int>)
        requires
            old(self).linked(),
            old(self).spare_places_empty(),
            0 <= rank@ < old(self).chain@.len(),
            place == old(self).chain@[rank@],
            at < old(self)@[rank@].len(),
            old(self)@[rank@].len() > 1,
        ensures
            final(self).linked(),
            final(self).spare_places_empty(),
            final(self).total_loans == old(self).total_loans,
            final(self).chain@ == old(self).chain@,
            final(self)@ == old(self)@.update(rank@, old(self)@[rank@].remove(at as int)),
    {
        assert(self.pages@[place as int]@ == self@[rank@]);
        self.pages[place].loan_requests.remove(at);
        assert(self@ =~= old(self)@.update(rank@, old(self)@[rank@].remove(at as int)));
    }

    /// Unlinks the page at `place`, which holds one reference, and leaves
    /// its place spare.
    fn unlink_page(&mut self, before: Option<usize>, place: usize, rank: Ghost<int>)
        requires
            old(self).linked(),
            old(self).spare_places_empty(),
            0 <= rank@ < old(self).chain@.len(),
            place == old(self).chain@[rank@],
            before == (if rank@ == 0 {
                None
            } else {
                Some(old(self).chain@[rank@ - 1])
            }),
            old(self)@[rank@].len() == 1,
        ensures
            final(self).linked(),
            final(self).spare_places_empty(),
            final(self).total_loans == old(self).total_loans,
            final(self).chain@ == old(self).chain@.remove(rank@),
            final(self)@ == old(self)@.remove(rank@),
    {
        assert(self.pages@[place as int]@ == self@[rank@]);
        let next = self.pages[place].next_page;
        self.pages[place].loan_requests.remove(0);
        self.pages[place].next_page = None;
        match before {
            None => {
                self.first_page = next;
            },
            Some(previous) => {
                self.pages[previous].next_page = next;
            },
        }
        proof {
            self.chain@ = self.chain@.remove(rank@);
        }
        assert(self@ =~= old(self)@.remove(rank@));
        assert forall|k: usize| k != place && old(self).chain@.contains(k) implies self.chain@.contains(
            k,
        ) by {
            let j = choose|j: int| 0 <= j < old(self).chain@.len() && old(self).chain@[j] == k;
            if j < rank@ {
                assert(self.chain@[j] == k);
            } else {
                assert(self.chain@[j - 1] == k);
            }
        }
    }

    /// The linked pages in order, each with its references in order.
    pub fn to_pages(&self) -> (listing: Vec<Vec<LoanKey>>)
        requires
            self.wf(),
        ensures
            listing@.len() == self@.len(),
            forall|i: int| 0 <= i < self@.len() ==> (#[trigger] listing@[i])@ == self@[i],
    {
        let mut listing: Vec<Vec<LoanKey>> = Vec::new();
        let mut current: Option<usize> = self.first_page;
        let ghost mut rank: int = 0;
        loop
            invariant
                self.wf(),
                0 <= rank <= self.chain@.len(),
                current == (if rank < self.chain@.len() {
                    Some(self.chain@[rank])
                } else {
                    None
                }),
                listing@.len() == rank,
                forall|i: int| 0 <= i < rank ==> (#[trigger] listing@[i])@ == self@[i],
            decreases self.chain@.len() - rank,
        {
            match current {
                None => {
                    return listing;
                },
                Some(place) => {
                    assert(self.pages@[self.chain@[rank] as int]@ == self@[rank]);
                    listing.push(self.pages[place].to_vec());
                    current = self.pages[place].next_page;
                    proof {
                        rank = rank + 1;
                    }
                },
            }
        }
    }

    /// `total_loans` is the number of references that a walk along the links
    /// meets.
    pub proof fn lemma_total_loans_counts_references(&self)
        requires
            self.wf(),
        ensures
            self.spec_total_loans() == reference_count(self@),
    {
    }

    /// Entering a reference that the registry does not list and then
    /// removing it again leaves the registry as it was before: the same
    /// pages at the same places with the same references, the same first
    /// page and the same count.
    ///
    /// `middle` stands for the registry as `insert` leaves it when called on
    /// `start`, and `end` for the registry as `remove` leaves it when called
    /// on `middle`.
    pub proof fn lemma_insert_then_remove_restores(
        start: &Self,
        middle: &Self,
        end: &Self,
        key: LoanKey,
    )
        requires
            start.wf(),
            !holds(start@, key),
            middle.wf(),
            Self::enlists(*start, *middle, key),
            end.wf(),
            Self::delists(*middle, *end, key),
        ensures
            end@ == start@,
            end.page_ids() == start.page_ids(),
            end.spec_first_page() == start.spec_first_page(),
            end.spec_total_loans() == start.spec_total_loans(),
    {
        lemma_insert_then_remove(start@, key);
        lemma_inserted(start@, key);
        let last = middle@.len() - 1;
        let at = middle@[last].len() - 1;
        assert(middle@[last][at] == key);
        lemma_removed(middle@, key, last, at);
        if end@.len() == middle@.len() {
            assert(middle.page_ids().take(start.page_ids().len() as int) =~= middle.page_ids());
        } else {
            assert(middle.page_ids().remove(last) =~= middle.page_ids().take(
                start.page_ids().len() as int,
            ));
        }
    }

    /// The pages of a listing, each as the references it holds.
    pub open spec fn pages_of(listing: Seq<Vec<LoanKey>>) -> Seq<Seq<LoanKey>> {
        Seq::new(listing.len(), |i: int| listing[i]@)
    }

    /// Links a page with the references of `keys` behind the last page,
    /// which stands at `last` where there is one.
    fn append_page(&mut self, keys: &Vec<LoanKey>, last: Option<usize>) -> (place: usize)
        requires
            old(self).wf(),
            1 <= keys@.len() <= PAGE_CAPACITY,
            distinct(old(self)@.push(keys@)),
            old(self).total_loans + keys@.len() <= u64::MAX,
            last == (if old(self).chain@.len() == 0 {
                None
            } else {
                Some(old(self).chain@.last())
            }),
        ensures
            final(self).wf(),
            final(self)@ == old(self)@.push(keys@),
            final(self).chain@ == old(self).chain@.push(place),
    {
        let place: usize = self.pages.len();
        proof {
            if self.chain@.contains(place) {
                let rank = choose|rank: int|
                    0 <= rank < self.chain@.len() && self.chain@[rank] == place;
                assert(self.chain@[rank] < self.pages@.len());
            }
            lemma_count_push(self@, keys@);
        }
        self.pages.push(LoanRegistryPageState { loan_requests: copy_keys(keys), next_page: None });
        match last {
            None => {
                self.first_page = Some(place);
            },
            Some(previous) => {
                self.pages[previous].next_page = Some(place);
            },
        }
        proof {
            self.chain@ = self.chain@.push(place);
        }
        self.total_loans = self.total_loans + (keys.len() as u64);
        assert(self@ =~= old(self)@.push(keys@));
        assert forall|k: usize| old(self).chain@.contains(k) implies self.chain@.contains(k) by {
            let j = choose|j: int| 0 <= j < old(self).chain@.len() && old(self).chain@[j] == k;
            assert(self.chain@[j] == k);
        }
        assert(self.chain@[self.chain@.len() - 1] == place);
        place
    }

    /// The registry whose linked pages are those of `listing`, in its order.
    ///
    /// There is one exactly where no page of the listing is empty or over
    /// capacity, no reference stands in it twice, and the references can be
    /// counted in 64 bits.
    pub fn from_pages(listing: &Vec<Vec<LoanKey>>) -> (loaded: Option<Self>)
        ensures
            match loaded {
                Some(registry) => registry.wf() && registry@ == Self::pages_of(listing@),
                None => !(well_paged(Self::pages_of(listing@)) && distinct(
                    Self::pages_of(listing@),
                ) && reference_count(Self::pages_of(listing@)) <= u64::MAX),
            },
    {
        let ghost all = Self::pages_of(listing@);
        let mut registry = Self::new();
        let mut last: Option<usize> = None;
        let mut i: usize = 0;
        while i < listing.len()
            invariant
                i <= listing@.len(),
                all == Self::pages_of(listing@),
                registry.wf(),
                registry@ == all.take(i as int),
                registry.chain@.len() == i,
                last == (if i == 0 {
                    None
                } else {
                    Some(registry.chain@.last())
                }),
            decreases listing@.len() - i,
        {
            let keys = &listing[i];
            assert(all[i as int] == keys@);
            if keys.len() == 0 || keys.len() > PAGE_CAPACITY {
                return None;
            }
            let mut a: usize = 0;
            while a < keys.len()
                invariant
                    a <= keys@.len(),
                    i < all.len(),
                    all == Self::pages_of(listing@),
                    all[i as int] == keys@,
                    registry.wf(),
                    registry@ == all.take(i as int),
                    forall|c: int| 0 <= c < a ==> !holds(registry@, #[trigger] keys@[c]),
                    forall|c: int, d: int| 0 <= d < c < a ==> keys@[d] != keys@[c],
                decreases keys@.len() - a,
            {
                if registry.contains(keys[a]) {
                    proof {
                        let j = choose|j: int|
                            0 <= j < registry@.len() && (#[trigger] registry@[j]).contains(
                                keys@[a as int],
                            );
                        let b = choose|b: int|
                            0 <= b < registry@[j].len() && registry@[j][b] == keys@[a as int];
                        assert(all[j][b] == all[i as int][a as int]);
                    }
                    return None;
                }
                match first_position(keys, keys[a]) {
                    Some(first) => {
                        if first != a {
                            proof {
                                assert(all[i as int][first as int] == all[i as int][a as int]);
                            }
                            return None;
                        }
                    },
                    None => {
                        assert(keys@[a as int] == keys@[a as int]);
                        return None;
                    },
                }
                a += 1;
            }
            proof {
                lemma_count_of_first_pages(all, i + 1);
                assert(all.take(i + 1) =~= all.take(i as int).push(keys@));
                lemma_count_push(all.take(i as int), keys@);
            }
            if registry.total_loans > u64::MAX - (keys.len() as u64) {
                return None;
            }
            proof {
                let next = registry@.push(keys@);
                assert forall|m: int, c: int, n: int, d: int|
                    0 <= m < next.len() && 0 <= c < next[m].len() && 0 <= n < next.len() && 0
                        <= d < next[n].len() && #[trigger] next[m][c]
                        == #[trigger] next[n][d] implies m == n && c == d by {
                    if m < i && n == i {
                        assert(registry@[m].contains(keys@[d]));
                    }
                    if n < i && m == i {
                        assert(registry@[n].contains(keys@[c]));
                    }
                }
            }
            let place = registry.append_page(keys, last);
            last = Some(place);
            i += 1;
        }
        assert(all.take(i as int) =~= all);
        Some(registry)
    }
}

} // verus!
