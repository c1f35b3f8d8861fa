use bb_chipotle::menu::Item;
use bb_chipotle::menu::Response;
use bb_chipotle::summary::BuildError;
use bb_chipotle::summary::Price;
use bb_chipotle::summary::Summary;

fn price(value: f32) -> Price {
    Price {
        normal_price: value.to_bits(),
        delivery_price: value.to_bits(),
    }
}

fn bowl_item(id: &str, name: &str, unit: f32, delivery: f32) -> Item {
    Item {
        item_category: "entree".to_string(),
        item_type: "Bowl".to_string(),
        item_id: id.to_string(),
        item_name: name.to_string(),
        unit_price: unit.to_bits(),
        unit_delivery_price: delivery.to_bits(),
    }
}

#[test]
fn summary_builder_is_complete() {
    let builder = Summary::builder()
        .restaurant_id(1)
        .veggie_bowl_price(price(1.0))
        .chicken_bowl_price(price(1.0))
        .steak_bowl_price(price(1.0));
    assert!(builder.is_complete());
}

#[test]
fn summary_builder_is_incomplete() {
    let builder = Summary::builder()
        .restaurant_id(1)
        .veggie_bowl_price(price(1.0))
        .chicken_bowl_price(price(1.0));
    assert!(!builder.is_complete());
}

#[test]
fn summary_builder_build() {
    let summary = Summary::builder()
        .restaurant_id(1)
        .veggie_bowl_price(price(1.0))
        .chicken_bowl_price(price(1.0))
        .steak_bowl_price(price(1.0))
        .build();
    assert!(summary.is_ok());
}

#[test]
fn summary_builder_build_missing_fields() {
    let summary = Summary::builder()
        .restaurant_id(1)
        .veggie_bowl_price(price(1.0))
        .chicken_bowl_price(price(1.0))
        .build();
    assert!(summary.is_err());

    match summary.unwrap_err() {
        BuildError::MissingFields(fields) => {
            assert_eq!(fields, vec!["steak_bowl_price"]);
        }
    }
}

#[test]
fn summary_from_response() {
    let response = Response {
        restaurant_id: 1,
        entrees: vec![
            bowl_item("1", "Veggie Bowl", 1.0, 1.0),
            bowl_item("2", "Chicken Bowl", 2.0, 2.0),
            bowl_item("3", "Steak Bowl", 3.0, 3.0),
        ],
        sides: vec![],
    };
    let summary = Summary::from_response(response);
    assert!(summary.is_ok());
    let summary = summary.unwrap();
    assert_eq!(summary.restaurant_id, 1);
    assert_eq!(summary.veggie_bowl_price, price(1.0));
    assert_eq!(summary.chicken_bowl_price, price(2.0));
    assert_eq!(summary.steak_bowl_price, price(3.0));
}

#[test]
fn summary_from_incomplete_response() {
    let response = Response {
        restaurant_id: 1,
        entrees: vec![
            bowl_item("1", "Veggie Bowl", 1.0, 1.0),
            bowl_item("2", "Chicken Bowl", 2.0, 2.0),
        ],
        sides: vec![],
    };
    let summary = Summary::from_response(response).err().unwrap();
    assert_eq!(summary, BuildError::MissingFields(vec!["steak_bowl_price"]));
}

#[test]
fn summary_first_veggie_occurrence_wins() {
    let response = Response {
        restaurant_id: 9,
        entrees: vec![
            bowl_item("1", "Veggie Bowl", 1.5, 2.5),
            bowl_item("2", "Veggie Bowl", 9.5, 9.5),
            bowl_item("3", "Chicken Bowl", 2.0, 3.0),
            bowl_item("4", "Steak Bowl", 3.0, 4.0),
        ],
        sides: vec![],
    };
    let summary = Summary::from_response(response).unwrap();
    assert_eq!(
        summary.veggie_bowl_price,
        Price {
            normal_price: (1.5f32).to_bits(),
            delivery_price: (2.5f32).to_bits(),
        }
    );
}

#[test]
fn summary_ignores_non_bowls_and_unknown_names() {
    let mut burrito = bowl_item("1", "Veggie Burrito", 9.0, 9.0);
    burrito.item_type = "Burrito".to_string();
    let response = Response {
        restaurant_id: 9,
        entrees: vec![
            burrito,
            bowl_item("2", "Carnitas Bowl", 9.0, 9.0),
            bowl_item("3", "Veggie Bowl", 1.0, 1.0),
            bowl_item("4", "Chicken Bowl", 2.0, 2.0),
            bowl_item("5", "Steak Bowl", 3.0, 3.0),
        ],
        sides: vec![],
    };
    let summary = Summary::from_response(response).unwrap();
    assert_eq!(summary.veggie_bowl_price, price(1.0));
    assert_eq!(summary.chicken_bowl_price, price(2.0));
    assert_eq!(summary.steak_bowl_price, price(3.0));
}

#[test]
fn summary_matching_is_case_insensitive() {
    let mut veggie = bowl_item("1", "VEGGIE BOWL", 1.0, 1.0);
    veggie.item_type = "BOWL".to_string();
    let mut chicken = bowl_item("2", "chicken bowl", 2.0, 2.0);
    chicken.item_type = "bowl".to_string();
    let steak = bowl_item("3", "StEaK BoWl", 3.0, 3.0);
    let response = Response {
        restaurant_id: 9,
        entrees: vec![veggie, chicken, steak],
        sides: vec![],
    };
    let summary = Summary::from_response(response).unwrap();
    assert_eq!(summary.veggie_bowl_price, price(1.0));
    assert_eq!(summary.chicken_bowl_price, price(2.0));
    assert_eq!(summary.steak_bowl_price, price(3.0));
}

#[test]
fn summary_missing_fields_in_fixed_order() {
    let summary = Summary::builder().build();
    match summary.unwrap_err() {
        BuildError::MissingFields(fields) => {
            assert_eq!(
                fields,
                vec![
                    "restaurant_id",
                    "veggie_bowl_price",
                    "chicken_bowl_price",
                    "steak_bowl_price"
                ]
            );
        }
    }
}

#[test]
fn summary_sides_are_never_consulted() {
    let response = Response {
        restaurant_id: 9,
        entrees: vec![
            bowl_item("1", "Veggie Bowl", 1.0, 1.0),
            bowl_item("2", "Chicken Bowl", 2.0, 2.0),
        ],
        sides: vec![bowl_item("3", "Steak Bowl", 3.0, 3.0)],
    };
    let summary = Summary::from_response(response);
    assert_eq!(
        summary.unwrap_err(),
        BuildError::MissingFields(vec!["steak_bowl_price"])
    );
}
