use house_finder::etuovi::{listing_url, Etuovi, Pages};

#[test]
fn search_keeps_its_criteria() {
    let e = Etuovi::new(true, "ANY_DAY", Some(300000), vec!["Tampere".to_string()]);
    assert!(e.cache);
    assert_eq!(e.publishing_time_search_criteria, "ANY_DAY");
    assert_eq!(e.price_max, Some(300000));
    assert_eq!(e.cities, vec!["Tampere".to_string()]);
}

#[test]
fn listing_page_address() {
    assert_eq!(listing_url("abc123"), "https://www.etuovi.com/kohde/abc123");
}

#[test]
fn paging_stops_when_all_results_have_come() {
    let mut p = Pages::new();
    assert_eq!(p.first_result(), 0);
    assert!(p.after_page(30, 45));
    assert_eq!(p.page, 2);
    assert_eq!(p.first_result(), 30);
    assert!(!p.after_page(15, 45));
    assert_eq!(p.collected, 45);
}

#[test]
fn paging_stops_at_an_empty_page() {
    let mut p = Pages::new();
    assert!(!p.after_page(0, 100));
    assert_eq!(p.page, 1);
}
