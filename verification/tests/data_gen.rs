use dune::data_gen::{add_new_items, title_case, InItemsJson, OutItemsJson};

#[test]
fn title_case_names() {
    assert_eq!(title_case("bane_of_arthropods"), "BaneOfArthropods");
    assert_eq!(title_case("stone"), "Stone");
    assert_eq!(title_case(""), "");
    assert_eq!(title_case("a__b"), "A_b");
    assert_eq!(title_case("_x"), "_x");
    assert_eq!(title_case("end_"), "End");
    assert_eq!(title_case("x1_2y"), "X12y");
}

#[test]
fn new_items_get_next_ids() {
    let mut items = vec![OutItemsJson { name: "stone".to_string(), display_name: "Stone".to_string(), id: 0 }];
    let incoming = vec![
        InItemsJson { name: "stone".to_string(), display_name: "Stone", id: 1 },
        InItemsJson { name: "dirt".to_string(), display_name: "Dirt", id: 9 },
        InItemsJson { name: "dirt".to_string(), display_name: "Other", id: 3 },
    ];
    add_new_items(&mut items, &incoming);
    assert_eq!(items.len(), 2);
    assert_eq!(items[1].name, "dirt");
    assert_eq!(items[1].display_name, "Dirt");
    assert_eq!(items[1].id, 1);
}
