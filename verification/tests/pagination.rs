use alegria::pagination::{PaginationAction, PaginationConfig};

#[test]
fn forward_stops_at_the_last_page() {
    let mut p = PaginationConfig::new(10);
    p.apply(PaginationAction::Forward, 25);
    assert_eq!(p.current_page(), 1);
    p.apply(PaginationAction::Forward, 25);
    assert_eq!(p.current_page(), 2);
    p.apply(PaginationAction::Forward, 25);
    assert_eq!(p.current_page(), 2);
    assert_eq!(p.page_range(25), (20, 25));
}

#[test]
fn back_stops_at_the_first_page() {
    let mut p = PaginationConfig::new(10);
    p.apply(PaginationAction::Back, 25);
    assert_eq!(p.current_page(), 0);
    p.apply(PaginationAction::Down, 25);
    p.apply(PaginationAction::Up, 25);
    assert_eq!(p.current_page(), 0);
}

#[test]
fn an_exactly_full_list_has_no_empty_page() {
    let mut p = PaginationConfig::new(10);
    p.apply(PaginationAction::Forward, 10);
    assert_eq!(p.current_page(), 0);
    assert_eq!(p.page_range(10), (0, 10));
    assert_eq!(p.page_range(3), (0, 3));
}

#[test]
fn default_pages_hold_thirteen_items() {
    let p = PaginationConfig::default();
    assert_eq!(p.items_per_page(), 13);
    assert_eq!(p.current_page(), 0);
}
