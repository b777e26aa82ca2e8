use house_finder::result::{field_info, sort_results, Field, Result};

fn record(url: &str, per_area: Option<u32>) -> Result {
    Result::new(
        url.to_string(),
        None,
        None,
        None,
        per_area,
        None,
        None,
        None,
        None,
        None,
        Vec::new(),
    )
}

#[test]
fn message_of_a_full_record() {
    let r = Result::new(
        "https://www.etuovi.com/kohde/abc".to_string(),
        Some(250),
        Some(2),
        Some(120),
        Some(2083),
        Some(1500),
        Some(166),
        Some(12),
        Some(15),
        Some(1985),
        vec!["Fiber (fixed) (2024-05-01-): 29.90 €/kk, 1000 Mbit/s".to_string()],
    );
    assert_eq!(
        r.message(),
        "https://www.etuovi.com/kohde/abc:\
         \n\tPrice: 250 k€\
         \n\tFloors: 2\
         \n\tArea (house): 120 m²\
         \n\tPrice/Area (house): 2083 €/m²\
         \n\tArea (total): 1500 m²\
         \n\tPrice/Area (total): 166 €/m²\
         \n\tStraight to location: 12 km\
         \n\tBiking to location: 15 km\
         \n\tYear: 1985\
         \n\tInternet: \n\t- Fiber (fixed) (2024-05-01-): 29.90 €/kk, 1000 Mbit/s"
    );
}

#[test]
fn message_skips_missing_values() {
    let r = record("u", None);
    assert_eq!(r.message(), "u:");
}

#[test]
fn message_line_with_and_without_unit() {
    assert_eq!(
        Result::message_line(field_info(Field::ThousandsOfEuros), "3".to_string()),
        "\n\tPrice: 3 k€"
    );
    assert_eq!(Result::message_line(field_info(Field::Year), "2001".to_string()), "\n\tYear: 2001");
}

#[test]
fn csv_title_row_cells() {
    let row = Result::csv_title_row();
    assert_eq!(
        row.to_vec(),
        vec![
            "URL",
            "Price k€",
            "Floors",
            "Area (house) m²",
            "Price/Area (house) €/m²",
            "Area (total) m²",
            "Price/Area (total) €/m²",
            "Straight to location km",
            "Biking to location km",
            "Year",
            "Internet",
        ]
    );
    assert_eq!(Result::csv_title_row_cell(field_info(Field::Url)), "URL");
}

#[test]
fn csv_row_cells() {
    let r = Result::new(
        "u".to_string(),
        Some(100),
        None,
        Some(90),
        Some(1111),
        None,
        None,
        Some(3),
        None,
        Some(1999),
        vec!["a".to_string(), "b".to_string()],
    );
    assert_eq!(
        r.csv_row().to_vec(),
        vec!["u", "100", "", "90", "1111", "", "", "3", "", "1999", "\na\nb"]
    );
}

#[test]
fn sort_key_missing_counts_as_zero() {
    assert_eq!(record("a", None).sort_key(), 0);
    assert_eq!(record("b", Some(900)).sort_key(), 900);
}

#[test]
fn sort_order_missing_price_per_area_first() {
    let sorted = sort_results(vec![record("none", None), record("high", Some(1200)), record("low", Some(900))]);
    let order: Vec<Option<u32>> = sorted.iter().map(|r| r.euros_per_square_meter_house).collect();
    assert_eq!(order, vec![None, Some(900), Some(1200)]);
}

#[test]
fn sort_keeps_order_of_equal_keys_and_handles_empty() {
    let sorted = sort_results(vec![record("first", Some(5)), record("second", Some(5)), record("zero", Some(0))]);
    let urls: Vec<String> = sorted.iter().map(|r| r.url.clone()).collect();
    assert_eq!(urls, vec!["zero", "first", "second"]);
    assert!(sort_results(Vec::new()).is_empty());
}
