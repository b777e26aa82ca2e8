use house_finder::internet::{address_search_url, products_url, Elisa, Internet, Product};

fn product(name: &str, kind: &str, cents: u32, kbps: u32) -> Product {
    Product {
        name: name.to_string(),
        product_type: kind.to_string(),
        price_cents: cents,
        data_speed_in_kbps: kbps,
        delivery_date: "2024-05-01".to_string(),
    }
}

#[test]
fn offer_name_speed_and_summary() {
    let i = Internet::new(product("Fiber", "fixed", 2990, 1000000));
    assert_eq!(i.name(), "Fiber (fixed)");
    assert_eq!(i.mbps(), 1000);
    assert_eq!(i.cents_per_month(), 2990);
    assert_eq!(i.delivery_date(), "2024-05-01");
    assert_eq!(i.to_str(), "Fiber (fixed) (2024-05-01-): 29.90 €/kk, 1000 Mbit/s");
}

#[test]
fn mobile_offers_are_not_fixed() {
    assert!(!Internet::new(product("4G", "fixedWirelessBroadband", 1990, 50000)).is_fixed());
    assert!(Internet::new(product("Cable", "cable", 1990, 50000)).is_fixed());
}

#[test]
fn minimum_speed_with_unlimited_zero() {
    let slow = Internet::new(product("Slow", "dsl", 100, 50000));
    assert!(slow.check_mbps(None));
    assert!(!slow.check_mbps(Some(100)));
    assert!(slow.check_mbps(Some(50)));
    let unlimited = Internet::new(product("Any", "dsl", 100, 999));
    assert_eq!(unlimited.mbps(), 0);
    assert!(unlimited.check_mbps(Some(1000)));
}

#[test]
fn elisa_keeps_fixed_offers_in_order() {
    let e = Elisa::new(vec![
        product("A", "fiber", 1, 1000),
        product("B", "fixedWirelessBroadband", 2, 1000),
        product("C", "cable", 3, 1000),
    ]);
    let names: Vec<String> = e.internets().iter().map(|i| i.product.name.clone()).collect();
    assert_eq!(names, vec!["A", "C"]);
    assert!(Elisa::new(Vec::new()).internets().is_empty());
}

#[test]
fn broadband_urls() {
    assert_eq!(
        address_search_url("00100", "Main street 1"),
        "https://elisa.fi/kauppa/rest/address/search/00100/Main street 1"
    );
    assert_eq!(
        products_url("00100", 4321),
        "https://elisa.fi/kauppa/rest/products/fixedBroadbandProducts/00100/4321"
    );
}
