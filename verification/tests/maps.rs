use dune::maps::HashMapExt;
use std::collections::HashMap;

#[test]
fn remove_err_takes_the_value() {
    let mut map: HashMap<String, i32> = HashMap::new();
    map.insert("a".to_string(), 1);
    map.insert("b".to_string(), 2);
    assert_eq!(map.remove_err("a").unwrap(), 1);
    assert!(!map.contains_key("a"));
    assert!(map.remove_err("a").is_err());
    assert_eq!(map.len(), 1);

    let mut numbers: HashMap<u32, u32> = HashMap::new();
    numbers.insert(7, 49);
    assert_eq!(numbers.remove_err(&7).unwrap(), 49);
    assert!(numbers.remove_err(&7).is_err());
}
