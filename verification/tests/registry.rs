use kinlend_protocol::constants::PAGE_CAPACITY;
use kinlend_protocol::{ErrorCode, Identity, LoanKey, LoanRegistryPageState, LoanRegistryState};

fn key(n: u64) -> LoanKey {
    LoanKey { borrower: Identity { hi: 7, lo: 7 }, loan_id: n }
}

fn filled(n: u64) -> LoanRegistryState {
    let mut registry = LoanRegistryState::new();
    for i in 0..n {
        assert!(!registry.contains(key(i)));
        registry.insert(key(i)).unwrap();
    }
    registry
}

fn keys(range: std::ops::Range<u64>) -> Vec<LoanKey> {
    range.map(key).collect()
}

fn reachable(registry: &LoanRegistryState) -> u64 {
    registry.to_pages().iter().map(|page| page.len() as u64).sum()
}

#[test]
fn new_registry_is_empty() {
    let registry = LoanRegistryState::new();
    assert_eq!(registry.total_loans(), 0);
    assert_eq!(registry.first_page(), None);
    assert!(registry.to_pages().is_empty());
    assert!(!registry.contains(key(0)));
}

#[test]
fn first_insertion_creates_the_first_page() {
    let mut registry = LoanRegistryState::new();
    assert_eq!(registry.insert(key(5)), Ok(()));
    assert_eq!(registry.total_loans(), 1);
    assert!(registry.first_page().is_some());
    assert_eq!(registry.to_pages(), vec![vec![key(5)]]);
    assert!(registry.contains(key(5)));
    assert!(!registry.contains(key(6)));
}

#[test]
fn insertions_fill_the_last_page_in_order() {
    let registry = filled(PAGE_CAPACITY as u64);
    assert_eq!(registry.to_pages(), vec![keys(0..10)]);
    assert_eq!(registry.total_loans(), 10);
}

#[test]
fn insertion_into_a_full_page_goes_to_a_new_page() {
    let mut registry = filled(PAGE_CAPACITY as u64);
    let first = registry.first_page();
    assert_eq!(registry.insert(key(10)), Ok(()));
    assert_eq!(registry.to_pages(), vec![keys(0..10), vec![key(10)]]);
    assert_eq!(registry.first_page(), first);
    assert_eq!(registry.total_loans(), 11);
    for page in registry.to_pages() {
        assert!(page.len() <= PAGE_CAPACITY);
    }
}

#[test]
fn pages_never_go_over_capacity() {
    let registry = filled(35);
    let pages = registry.to_pages();
    assert_eq!(pages, vec![keys(0..10), keys(10..20), keys(20..30), keys(30..35)]);
    assert_eq!(registry.total_loans(), 35);
}

#[test]
fn insert_then_remove_restores_the_registry() {
    for size in [0u64, 1, 9, 10, 11, 20, 25] {
        let mut registry = filled(size);
        let pages = registry.to_pages();
        let first = registry.first_page();
        let total = registry.total_loans();
        assert_eq!(registry.insert(key(1_000)), Ok(()));
        assert_eq!(registry.total_loans(), total + 1);
        assert_eq!(registry.remove(key(1_000)), Ok(()));
        assert_eq!(registry.to_pages(), pages);
        assert_eq!(registry.first_page(), first);
        assert_eq!(registry.total_loans(), total);
    }
}

#[test]
fn removal_keeps_the_order_of_the_rest() {
    let mut registry = filled(12);
    assert_eq!(registry.remove(key(3)), Ok(()));
    let mut first: Vec<LoanKey> = keys(0..3);
    first.extend(keys(4..10));
    assert_eq!(registry.to_pages(), vec![first, keys(10..12)]);
    assert_eq!(registry.total_loans(), 11);
    assert!(!registry.contains(key(3)));
}

#[test]
fn removal_of_an_absent_reference_fails_and_changes_nothing() {
    let mut registry = filled(12);
    let pages = registry.to_pages();
    assert_eq!(registry.remove(key(99)), Err(ErrorCode::NotFoundInRegistry));
    assert_eq!(registry.to_pages(), pages);
    assert_eq!(registry.total_loans(), 12);
    let mut empty = LoanRegistryState::new();
    assert_eq!(empty.remove(key(0)), Err(ErrorCode::NotFoundInRegistry));
}

#[test]
fn emptied_first_page_is_unlinked_from_the_root() {
    let mut registry = filled(12);
    let first = registry.first_page();
    for i in 0..10 {
        assert_eq!(registry.remove(key(i)), Ok(()));
    }
    assert_eq!(registry.to_pages(), vec![keys(10..12)]);
    assert_ne!(registry.first_page(), first);
    assert!(registry.first_page().is_some());
    assert_eq!(registry.total_loans(), 2);
}

#[test]
fn emptied_interior_page_is_unlinked_from_its_predecessor() {
    let mut registry = filled(25);
    let first = registry.first_page();
    for i in 10..20 {
        assert_eq!(registry.remove(key(i)), Ok(()));
    }
    assert_eq!(registry.to_pages(), vec![keys(0..10), keys(20..25)]);
    assert_eq!(registry.first_page(), first);
    assert_eq!(registry.total_loans(), 15);
    // The walk still reaches what stands behind the page that left.
    assert!(registry.contains(key(24)));
    assert_eq!(registry.remove(key(24)), Ok(()));
}

#[test]
fn emptied_last_page_is_unlinked() {
    let mut registry = filled(11);
    assert_eq!(registry.remove(key(10)), Ok(()));
    assert_eq!(registry.to_pages(), vec![keys(0..10)]);
    // The next insertion finds the first page full and links a page again.
    assert_eq!(registry.insert(key(50)), Ok(()));
    assert_eq!(registry.to_pages(), vec![keys(0..10), vec![key(50)]]);
}

#[test]
fn removing_everything_leaves_no_page() {
    let mut registry = filled(23);
    for i in (0..23).rev() {
        assert_eq!(registry.remove(key(i)), Ok(()));
    }
    assert_eq!(registry.total_loans(), 0);
    assert_eq!(registry.first_page(), None);
    assert!(registry.to_pages().is_empty());
}

#[test]
fn insertion_goes_to_the_last_page_even_where_earlier_pages_have_room() {
    let mut registry = filled(20);
    assert_eq!(registry.remove(key(2)), Ok(()));
    assert_eq!(registry.insert(key(100)), Ok(()));
    let pages = registry.to_pages();
    assert_eq!(pages.len(), 3);
    assert_eq!(pages[0].len(), 9);
    assert_eq!(pages[2], vec![key(100)]);
}

#[test]
fn a_place_left_by_a_page_is_taken_again() {
    let mut registry = filled(10);
    let first = registry.first_page();
    for round in 0..5u64 {
        assert_eq!(registry.insert(key(100 + round)), Ok(()));
        let pages = registry.to_pages();
        assert_eq!(pages.len(), 2);
        assert_eq!(registry.remove(key(100 + round)), Ok(()));
        assert_eq!(registry.first_page(), first);
    }
    assert_eq!(registry.to_pages(), vec![keys(0..10)]);
}

#[test]
fn total_loans_is_what_a_walk_reaches() {
    let mut registry = LoanRegistryState::new();
    let mut expected: u64 = 0;
    for step in 0..200u64 {
        let target = key((step * 7) % 31);
        if registry.contains(target) {
            assert_eq!(registry.remove(target), Ok(()));
            expected -= 1;
        } else {
            assert_eq!(registry.insert(target), Ok(()));
            expected += 1;
        }
        assert_eq!(registry.total_loans(), expected);
        assert_eq!(reachable(&registry), expected);
        for page in registry.to_pages() {
            assert!(!page.is_empty() && page.len() <= PAGE_CAPACITY);
        }
    }
}

#[test]
fn references_differ_by_borrower_and_by_number() {
    let mut registry = LoanRegistryState::new();
    let a = LoanKey { borrower: Identity { hi: 0, lo: 1 }, loan_id: 1 };
    let b = LoanKey { borrower: Identity { hi: 1, lo: 1 }, loan_id: 1 };
    let c = LoanKey { borrower: Identity { hi: 0, lo: 1 }, loan_id: 2 };
    registry.insert(a).unwrap();
    assert!(!registry.contains(b));
    assert!(!registry.contains(c));
    registry.insert(b).unwrap();
    registry.insert(c).unwrap();
    assert_eq!(registry.remove(b), Ok(()));
    assert_eq!(registry.to_pages(), vec![vec![a, c]]);
}

#[test]
fn a_page_takes_ten_references_and_no_more() {
    let mut page = LoanRegistryPageState::new();
    assert!(page.loan_requests.is_empty());
    assert_eq!(page.next_page, None);
    for i in 0..10 {
        assert!(!page.is_full());
        assert_eq!(page.push(key(i)), Ok(()));
    }
    assert!(page.is_full());
    assert_eq!(page.push(key(10)), Err(ErrorCode::PageIsFull));
    assert_eq!(page.loan_requests, keys(0..10));
    assert_eq!(page.to_vec(), keys(0..10));
}

#[test]
fn a_page_finds_the_first_place_of_a_reference() {
    let mut page = LoanRegistryPageState::new();
    page.push(key(4)).unwrap();
    page.push(key(8)).unwrap();
    page.push(key(4)).unwrap();
    assert_eq!(page.position(key(4)), Some(0));
    assert_eq!(page.position(key(8)), Some(1));
    assert_eq!(page.position(key(9)), None);
}

#[test]
fn a_listing_is_loaded_page_by_page() {
    let listing = vec![keys(0..10), keys(10..13), keys(13..14), keys(14..24)];
    let mut registry = LoanRegistryState::from_pages(&listing).unwrap();
    assert_eq!(registry.to_pages(), listing);
    assert_eq!(registry.total_loans(), 24);
    assert!(registry.first_page().is_some());
    assert!(registry.contains(key(13)));
    // The loaded registry goes on like any other.
    assert_eq!(registry.remove(key(13)), Ok(()));
    assert_eq!(registry.to_pages(), vec![keys(0..10), keys(10..13), keys(14..24)]);
    assert_eq!(registry.insert(key(30)), Ok(()));
    assert_eq!(registry.to_pages().len(), 4);
    assert_eq!(registry.to_pages()[3], vec![key(30)]);
}

#[test]
fn loading_what_was_listed_gives_the_same_registry() {
    let mut registry = filled(27);
    registry.remove(key(4)).unwrap();
    registry.remove(key(15)).unwrap();
    let listing = registry.to_pages();
    let loaded = LoanRegistryState::from_pages(&listing).unwrap();
    assert_eq!(loaded.to_pages(), listing);
    assert_eq!(loaded.total_loans(), registry.total_loans());
    let empty = LoanRegistryState::from_pages(&Vec::new()).unwrap();
    assert_eq!(empty.total_loans(), 0);
    assert_eq!(empty.first_page(), None);
}

#[test]
fn a_listing_out_of_order_is_not_loaded() {
    // An empty page.
    assert!(LoanRegistryState::from_pages(&vec![keys(0..3), Vec::new()]).is_none());
    assert!(LoanRegistryState::from_pages(&vec![Vec::new()]).is_none());
    // A page over capacity.
    assert!(LoanRegistryState::from_pages(&vec![keys(0..11)]).is_none());
    assert!(LoanRegistryState::from_pages(&vec![keys(0..10)]).is_some());
    // A reference twice on one page.
    assert!(LoanRegistryState::from_pages(&vec![vec![key(1), key(2), key(1)]]).is_none());
    // A reference on two pages.
    assert!(LoanRegistryState::from_pages(&vec![keys(0..10), vec![key(10), key(3)]]).is_none());
    assert!(LoanRegistryState::from_pages(&vec![keys(0..10), vec![key(10), key(11)]]).is_some());
}

#[test]
fn a_listed_reference_is_not_entered_twice() {
    let mut registry = filled(10);
    let pages = registry.to_pages();
    assert_eq!(registry.insert_if_absent(key(3)), Ok(false));
    assert_eq!(registry.to_pages(), pages);
    assert_eq!(registry.total_loans(), 10);
    assert_eq!(registry.insert_if_absent(key(10)), Ok(true));
    assert_eq!(registry.to_pages(), vec![keys(0..10), vec![key(10)]]);
    assert_eq!(registry.total_loans(), 11);
    assert_eq!(registry.insert_if_absent(key(10)), Ok(false));
    assert_eq!(registry.total_loans(), 11);
}

fn places(registry: &LoanRegistryState) -> Vec<usize> {
    let mut walk = Vec::new();
    let mut current = registry.first_page();
    while let Some(place) = current {
        assert!(walk.len() < 1_000);
        walk.push(place);
        current = registry.next_page(place);
    }
    walk
}

#[test]
fn the_links_lead_through_the_pages_in_order() {
    let mut registry = filled(35);
    let before = places(&registry);
    assert_eq!(before.len(), 4);
    assert_eq!(registry.next_page(before[3]), None);
    assert_eq!(registry.next_page(usize::MAX), None);
    // An interior page is emptied: the page before it leads to the page
    // that followed it, and every other page stays where it stood.
    for i in 10..20 {
        assert_eq!(registry.remove(key(i)), Ok(()));
    }
    assert_eq!(places(&registry), vec![before[0], before[2], before[3]]);
    assert_eq!(registry.next_page(before[0]), Some(before[2]));
    // The first page is emptied: the registry leads to the page that
    // followed it.
    for i in 0..10 {
        assert_eq!(registry.remove(key(i)), Ok(()));
    }
    assert_eq!(registry.first_page(), Some(before[2]));
    assert_eq!(places(&registry), vec![before[2], before[3]]);
    // A new page is linked behind the last one.
    for i in 35..41 {
        assert_eq!(registry.insert(key(i)), Ok(()));
    }
    let after = places(&registry);
    assert_eq!(after.len(), 3);
    assert_eq!(&after[..2], &[before[2], before[3]]);
    assert_eq!(registry.next_page(before[3]), Some(after[2]));
    assert_eq!(registry.next_page(after[2]), None);
    assert_eq!(registry.to_pages(), vec![keys(20..30), keys(30..40), vec![key(40)]]);
}
