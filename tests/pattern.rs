use house_finder::pattern::{floors, free_text, parse_floors, postal_code, DetailError};

const PAGE: &str = r#"{"postCode":"33100","floorCount":2,"text":"Cosy house by the LAKE","x":1}"#;

#[test]
fn postal_code_from_page() {
    assert_eq!(postal_code(PAGE).unwrap(), "33100");
    assert!(matches!(postal_code("{}"), Err(DetailError::NoPostalCode)));
    assert!(matches!(postal_code(r#""postCode":"3310""#), Err(DetailError::NoPostalCode)));
}

#[test]
fn text_from_page() {
    assert_eq!(free_text(PAGE).unwrap(), "Cosy house by the LAKE");
    assert!(matches!(free_text("{}"), Err(DetailError::NoText)));
}

#[test]
fn floors_from_page() {
    assert_eq!(floors(PAGE).unwrap(), Some(2));
    assert_eq!(floors("{}").unwrap(), None);
}

#[test]
fn floors_parse_single_digit() {
    assert_eq!(parse_floors("0"), Some(0));
    assert_eq!(parse_floors("9"), Some(9));
    assert_eq!(parse_floors("12"), None);
    assert_eq!(parse_floors("x"), None);
    assert_eq!(parse_floors(""), None);
}
