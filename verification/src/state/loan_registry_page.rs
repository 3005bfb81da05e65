use vstd::prelude::*;
use crate::constants::PAGE_CAPACITY;
use crate::errors::ErrorCode;
use crate::identity::LoanKey;

verus! {

/// One page of the registry: up to `PAGE_CAPACITY` loan-request references in
/// the order in which they were entered, and the place of the page that
/// follows, if any.
pub struct LoanRegistryPageState {
    /// The references this page holds.
    pub loan_requests: Vec<LoanKey>,
    /// Where the next page stands among the registry's pages.
    pub next_page: Option<usize>,
}

impl View for LoanRegistryPageState {
    type V = Seq<LoanKey>;

    /// The references of the page, in order.
    open spec fn view(&self) -> Seq<LoanKey> {
        self.loan_requests@
    }
}

/// Where `key` first stands among `keys`, if it is there at all.
pub fn first_position(keys: &Vec<LoanKey>, key: LoanKey) -> (found: Option<usize>)
    ensures
        match found {
            Some(at) => at < keys@.len() && keys@[at as int] == key && forall|j: int|
                0 <= j < at ==> keys@[j] != key,
            None => !keys@.contains(key),
        },
{
    let mut at: usize = 0;
    while at < keys.len()
        invariant
            at <= keys@.len(),
            forall|j: int| 0 <= j < at ==> keys@[j] != key,
        decreases keys@.len() - at,
    {
        if keys[at] == key {
            return Some(at);
        }
        at += 1;
    }
    None
}

/// A vector of its own with the same `keys` in the same order.
pub fn copy_keys(keys: &Vec<LoanKey>) -> (copy: Vec<LoanKey>)
    ensures
        copy@ == keys@,
{
    let mut copy: Vec<LoanKey> = Vec::new();
    let mut at: usize = 0;
    while at < keys.len()
        invariant
            at <= keys@.len(),
            copy@ == keys@.take(at as int),
        decreases keys@.len() - at,
    {
        copy.push(keys[at]);
        assert(keys@.take(at + 1) =~= keys@.take(at as int).push(keys@[at as int]));
        at += 1;
    }
    assert(keys@.take(at as int) =~= keys@);
    copy
}

impl LoanRegistryPageState {
    /// A page with no reference and no successor.
    pub fn new() -> (page: Self)
        ensures
            page@ == Seq::<LoanKey>::empty(),
            page.next_page is None,
    {
        LoanRegistryPageState { loan_requests: Vec::new(), next_page: None }
    }

    /// Whether the page has reached its capacity.
    pub fn is_full(&self) -> (full: bool)
        ensures
            full == (self@.len() >= PAGE_CAPACITY),
    {
        self.loan_requests.len() >= PAGE_CAPACITY
    }

    /// Where `key` first stands in the page, if it is there at all.
    pub fn position(&self, key: LoanKey) -> (found: Option<usize>)
        ensures
            match found {
                Some(at) => at < self@.len() && self@[at as int] == key && forall|j: int|
                    0 <= j < at ==> self@[j] != key,
                None => !self@.contains(key),
            },
    {
        first_position(&self.loan_requests, key)
    }

    /// Enters `key` after the references already there. A page at capacity
    /// takes nothing and answers `PageIsFull`.
    pub fn push(&mut self, key: LoanKey) -> (r: Result<(), ErrorCode>)
        ensures
            final(self).next_page == old(self).next_page,
            old(self)@.len() < PAGE_CAPACITY ==> r == Ok::<(), ErrorCode>(()) && final(self)@
                == old(self)@.push(key),
            old(self)@.len() >= PAGE_CAPACITY ==> r == Err::<(), ErrorCode>(ErrorCode::PageIsFull)
                && final(self)@ == old(self)@,
    {
        if self.loan_requests.len() >= PAGE_CAPACITY {
            return Err(ErrorCode::PageIsFull);
        }
        self.loan_requests.push(key);
        Ok(())
    }

    /// The references of the page, in order, as a vector of their own.
    pub fn to_vec(&self) -> (keys: Vec<LoanKey>)
        ensures
            keys@ == self@,
    {
        copy_keys(&self.loan_requests)
    }
}

} // verus!
