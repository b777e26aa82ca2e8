use house_finder::house::{excluded_by, km, lowercase_all, offer_summaries, House, Listing, Step};
use house_finder::internet::{Internet, Product};

const PAGE: &str = r#"{"postCode":"33100","floorCount":1,"text":"Quiet house, new roof","x":1}"#;

fn listing(house: Option<u16>, total: Option<u16>, euros: Option<u32>) -> Listing {
    Listing {
        url: "https://www.etuovi.com/kohde/x".to_string(),
        square_meters_house: house,
        square_meters_total: total,
        euros,
        street_address: "Main street 1".to_string(),
        year: Some(1990),
        meters_to_location_straight: None,
    }
}

fn offer(name: &str, kbps: u32) -> Internet {
    Internet::new(Product {
        name: name.to_string(),
        product_type: "fiber".to_string(),
        price_cents: 2990,
        data_speed_in_kbps: kbps,
        delivery_date: "2024-05-01".to_string(),
    })
}

#[derive(Default)]
struct Calls {
    routing: usize,
    detail: usize,
    broadband: usize,
}

/// Drives one house to its verdict with fakes that count their calls.
fn drive(mut house: House, biking_meters: u32, calls: &mut Calls) -> Option<house_finder::result::Result> {
    loop {
        match house.step().unwrap() {
            Step::Excluded => return None,
            Step::FetchBiking => {
                calls.routing += 1;
                house.set_biking_meters(biking_meters);
            }
            Step::FetchDetail => {
                calls.detail += 1;
                house.set_detail(PAGE.to_string());
            }
            Step::FetchOffers => {
                calls.broadband += 1;
                assert_eq!(house.postal_code().unwrap(), "33100");
                house.set_offers(vec![offer("Fast", 1000000), offer("Slow", 10000)]);
            }
            Step::Included => return Some(house.record().unwrap()),
        }
    }
}

#[test]
fn area_below_minimum_is_excluded_boundary_inclusive() {
    let below = House::new(listing(Some(39), None, None), false, Some(40), None, None, Vec::new());
    assert_eq!(below.step().unwrap(), Step::Excluded);
    let at = House::new(listing(Some(40), None, None), false, Some(40), None, None, Vec::new());
    assert_eq!(at.step().unwrap(), Step::FetchDetail);
}

#[test]
fn area_falls_back_to_total_area() {
    let h = House::new(listing(None, Some(30), None), false, Some(40), None, None, Vec::new());
    assert_eq!(h.step().unwrap(), Step::Excluded);
    let none = House::new(listing(None, None, None), false, Some(40), None, None, Vec::new());
    assert_eq!(none.step().unwrap(), Step::FetchDetail);
}

#[test]
fn cycling_distance_just_over_maximum_is_excluded() {
    let mut over = House::new(listing(Some(100), None, None), true, None, Some(40), None, Vec::new());
    assert_eq!(over.step().unwrap(), Step::FetchBiking);
    over.set_biking_meters(40010);
    assert_eq!(over.step().unwrap(), Step::Excluded);

    let mut at = House::new(listing(Some(100), None, None), true, None, Some(40), None, Vec::new());
    at.set_biking_meters(40000);
    assert_eq!(at.step().unwrap(), Step::FetchDetail);
}

#[test]
fn straight_distance_over_maximum_is_excluded_before_routing() {
    let mut l = listing(Some(100), None, None);
    l.meters_to_location_straight = Some(41000);
    let h = House::new(l, true, None, Some(40), None, Vec::new());
    assert_eq!(h.step().unwrap(), Step::Excluded);
}

#[test]
fn excluded_terms_in_free_text() {
    let terms = lowercase_all(&vec!["NEW ROOF".to_string()]);
    assert_eq!(terms, vec!["new roof".to_string()]);
    let mut h = House::new(listing(Some(100), None, None), false, None, None, None, terms);
    assert_eq!(h.step().unwrap(), Step::FetchDetail);
    h.set_detail(PAGE.to_string());
    assert_eq!(h.step().unwrap(), Step::Excluded);

    let mut kept = House::new(listing(Some(100), None, None), false, None, None, None, vec!["sauna".to_string()]);
    kept.set_detail(PAGE.to_string());
    assert_eq!(kept.step().unwrap(), Step::FetchOffers);
}

#[test]
fn text_check_without_free_text_is_an_error() {
    let mut h = House::new(listing(Some(100), None, None), false, None, None, None, vec!["x".to_string()]);
    h.set_detail("{}".to_string());
    assert!(h.step().is_err());
}

#[test]
fn excluded_terms_are_lower_cased() {
    assert_eq!(
        lowercase_all(&vec!["Hello ÄÖ".to_string(), "".to_string()]),
        vec!["hello äö".to_string(), "".to_string()]
    );
}

#[test]
fn excluded_term_matches_only_as_a_substring() {
    let page = r#"{"text":"Big Red House","x":1}"#;
    let mut longer = House::new(listing(Some(100), None, None), false, None, None, None, vec!["big red houses".to_string()]);
    longer.set_detail(page.to_string());
    assert_eq!(longer.step().unwrap(), Step::FetchOffers);
    let mut inner = House::new(listing(Some(100), None, None), false, None, None, None, vec!["red".to_string()]);
    inner.set_detail(page.to_string());
    assert_eq!(inner.step().unwrap(), Step::Excluded);
}

#[test]
fn excluded_by_any_term_as_a_substring() {
    let terms = vec!["sauna".to_string(), "roof".to_string()];
    assert!(excluded_by("quiet house, new roof", &terms));
    assert!(!excluded_by("quiet house", &terms));
    assert!(!excluded_by("anything", &Vec::new()));
    assert!(excluded_by("anything", &vec!["".to_string()]));
}

#[test]
fn kilometres_round_up() {
    assert_eq!(km(0), 0);
    assert_eq!(km(1), 1);
    assert_eq!(km(40000), 40);
    assert_eq!(km(40010), 41);
    assert_eq!(km(u32::MAX), u16::MAX);
}

#[test]
fn offers_below_minimum_speed_are_left_out() {
    let lines = offer_summaries(&vec![offer("Fast", 1000000), offer("Slow", 10000), offer("Any", 0)], Some(100));
    assert_eq!(
        lines,
        vec![
            "Fast (fiber) (2024-05-01-): 29.90 €/kk, 1000 Mbit/s".to_string(),
            "Any (fiber) (2024-05-01-): 29.90 €/kk, 0 Mbit/s".to_string(),
        ]
    );
}

#[test]
fn pipeline_two_listings_one_included_and_excluded_one_costs_no_calls() {
    let good = House::new(listing(Some(120), Some(1000), Some(240000)), true, Some(100), Some(40), Some(100), Vec::new());
    let small = House::new(listing(Some(80), Some(1000), Some(240000)), true, Some(100), Some(40), Some(100), Vec::new());

    let mut good_calls = Calls::default();
    let mut small_calls = Calls::default();
    let mut results = Vec::new();
    if let Some(r) = drive(good, 12300, &mut good_calls) {
        results.push(r);
    }
    if let Some(r) = drive(small, 12300, &mut small_calls) {
        results.push(r);
    }
    assert_eq!(results.len(), 1);
    assert_eq!(small_calls.routing, 0);
    assert_eq!(small_calls.broadband, 0);
    assert_eq!(small_calls.detail, 0);
    assert_eq!(good_calls.routing, 1);
    assert_eq!(good_calls.detail, 1);
    assert_eq!(good_calls.broadband, 1);

    let r = &results[0];
    assert_eq!(r.thousands_of_euros, Some(240));
    assert_eq!(r.euros_per_square_meter_house, Some(2000));
    assert_eq!(r.euros_per_square_meter_total, Some(240));
    assert_eq!(r.km_to_location_biking, Some(13));
    assert_eq!(r.km_to_location_straight, None);
    assert_eq!(r.floors, Some(1));
    assert_eq!(r.year, Some(1990));
    assert_eq!(r.internet_strings, vec!["Fast (fiber) (2024-05-01-): 29.90 €/kk, 1000 Mbit/s".to_string()]);
}

#[test]
fn zero_area_gives_no_price_per_area() {
    let mut h = House::new(listing(Some(0), None, Some(1000)), false, None, None, None, Vec::new());
    h.set_detail(PAGE.to_string());
    h.set_offers(Vec::new());
    assert_eq!(h.step().unwrap(), Step::Included);
    let r = h.record().unwrap();
    assert_eq!(r.euros_per_square_meter_house, None);
    assert_eq!(r.thousands_of_euros, Some(1));
}
