use media_thumb::size::Size;

#[test]
fn presets_by_name() {
    assert_eq!(Size::from_str("small"), Size::Small);
    assert_eq!(Size::from_str("large"), Size::Large);
    assert_eq!(Size::from_str("medium"), Size::Medium);
}

#[test]
fn unknown_names_are_medium() {
    assert_eq!(Size::from_str("SMALL"), Size::Medium);
    assert_eq!(Size::from_str("Large"), Size::Medium);
    assert_eq!(Size::from_str(""), Size::Medium);
    assert_eq!(Size::from_str("smal"), Size::Medium);
    assert_eq!(Size::from_str("smalll"), Size::Medium);
    assert_eq!(Size::from_str("larg\u{e9}"), Size::Medium);
    assert_eq!(Size::from_str("huge"), Size::Medium);
}

#[test]
fn preset_of_a_request() {
    assert_eq!(Size::from_query(None), Size::Medium);
    assert_eq!(Size::from_query(Some("small")), Size::Small);
    assert_eq!(Size::from_query(Some("large")), Size::Large);
    assert_eq!(Size::from_query(Some("tiny")), Size::Medium);
}

#[test]
fn preset_boxes() {
    assert_eq!(Size::Small.dimensions(), (120, 120));
    assert_eq!(Size::Medium.dimensions(), (300, 300));
    assert_eq!(Size::Large.dimensions(), (600, 600));
}
