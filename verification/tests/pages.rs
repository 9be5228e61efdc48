use bathbot::{PageChange, PageError, Pages};

#[test]
fn new_rejects_zero_per_page() {
    assert_eq!(Pages::new(0, 10), Err(PageError::ZeroPerPage));
}

#[test]
fn new_accepts_empty_collection() {
    let p = Pages::new(10, 0).unwrap();
    assert_eq!(p.curr_page(), 1);
    assert_eq!(p.last_page(), 1);
    assert_eq!(p.page_window(), (0, 0));
}

#[test]
fn window_bounds_stay_inside_collection() {
    for (per, total) in [(1usize, 0usize), (1, 1), (3, 7), (15, 37), (10, 100), (7, 6)] {
        let mut p = Pages::new(per, total).unwrap();
        loop {
            let (start, end) = p.page_window();
            assert!(start <= end);
            assert!(end <= total);
            assert!(end - start <= per);
            if p.curr_page() == p.last_page() {
                break;
            }
            p.advance(PageChange::Next, 1);
        }
    }
}

#[test]
fn last_then_first_returns_to_start() {
    let mut p = Pages::new(15, 37).unwrap();
    p.advance(PageChange::Last, 1);
    assert_eq!(p.get_index(), 30);
    p.advance(PageChange::First, 1);
    assert_eq!(p.get_index(), 0);
}

#[test]
fn next_on_last_page_is_a_noop() {
    let mut p = Pages::new(15, 37).unwrap();
    p.advance(PageChange::Last, 1);
    let at_last = p.get_index();
    p.advance(PageChange::Next, 1);
    assert_eq!(p.get_index(), at_last);
}

#[test]
fn previous_on_first_page_is_a_noop() {
    let mut p = Pages::new(15, 37).unwrap();
    p.advance(PageChange::Previous, 1);
    assert_eq!(p.get_index(), 0);
}

#[test]
fn jump_outside_range_is_rejected_and_cursor_unchanged() {
    let mut p = Pages::new(15, 37).unwrap();
    p.advance(PageChange::Next, 1);
    let before = p.get_index();
    assert_eq!(p.jump(0), Err(PageError::JumpOutOfRange));
    assert_eq!(p.get_index(), before);
    assert_eq!(p.jump(4), Err(PageError::JumpOutOfRange));
    assert_eq!(p.get_index(), before);
}

#[test]
fn jump_to_valid_page() {
    let mut p = Pages::new(15, 37).unwrap();
    assert_eq!(p.jump(2), Ok(()));
    assert_eq!(p.get_index(), 15);
    assert_eq!(p.curr_page(), 2);
}

#[test]
fn thirty_seven_items_fifteen_per_page() {
    // A collection of 37 items at 15 per page has 3 pages; jumping to the
    // last shows items 30..37, and a further step forward changes nothing.
    let mut p = Pages::new(15, 37).unwrap();
    assert_eq!(p.last_page(), 3);
    assert_eq!(p.jump(3), Ok(()));
    assert_eq!(p.get_index(), 30);
    assert_eq!(p.page_window(), (30, 37));
    p.advance(PageChange::Next, 1);
    assert_eq!(p.get_index(), 30);
    assert_eq!(p.page_window(), (30, 37));
}

#[test]
fn jump_to_item_aligns_to_page_start() {
    let mut p = Pages::new(10, 95).unwrap();
    assert_eq!(p.jump_to_item(57), Ok(()));
    assert_eq!(p.get_index(), 50);
    assert_eq!(p.jump_to_item(95), Err(PageError::ItemOutOfRange));
    assert_eq!(p.get_index(), 50);
}

#[test]
fn multi_page_steps_clamp() {
    let mut p = Pages::new(10, 95).unwrap();
    p.advance(PageChange::Next, 3);
    assert_eq!(p.get_index(), 30);
    p.advance(PageChange::Next, 100);
    assert_eq!(p.get_index(), 90);
    p.advance(PageChange::Previous, 2);
    assert_eq!(p.get_index(), 70);
    p.advance(PageChange::Previous, 100);
    assert_eq!(p.get_index(), 0);
}
