use aegl_bot::kvargs::parse_kv_args;

#[test]
fn test_split_algorithm() {
    // min_fireteam_size=1 max_fireteam_size=6 name="Last Wish, Enhanced" mode="prestige"
    let args =
        r#"min_fireteam_size=1 max_fireteam_size=6 name="Last Wish, Enhanced" mode="prestige""#;
    let result = parse_kv_args(args);
    assert!(result.is_some());
    let result = result.unwrap();
    assert_eq!(result.len(), 4);

    let args = r#"name="Last Wish, Enhanced""#;
    let result = parse_kv_args(args);
    assert!(result.is_some());
    let mut result = result.unwrap();
    assert_eq!(result.len(), 1);
    assert_eq!(result.remove("name"), Some("Last Wish, Enhanced".to_string()));

    let args = r#"whatever else"#;
    let result = parse_kv_args(args);
    assert!(result.is_none());
}

#[test]
fn kv_values_and_quotes() {
    let kv = parse_kv_args(r#"min_fireteam_size=1 max_fireteam_size=6 name="Last Wish, Enhanced" mode="prestige""#).unwrap();
    assert_eq!(kv.get("min_fireteam_size"), Some("1".to_string()));
    assert_eq!(kv.get("max_fireteam_size"), Some("6".to_string()));
    assert_eq!(kv.get("name"), Some("Last Wish, Enhanced".to_string()));
    assert_eq!(kv.get("mode"), Some("prestige".to_string()));
    assert_eq!(kv.get("absent"), None);
    assert!(kv.contains_key("mode"));
}

#[test]
fn kv_repeated_key_keeps_last_value() {
    let mut kv = parse_kv_args("a=1 a=2 b=3").unwrap();
    assert_eq!(kv.len(), 2);
    assert_eq!(kv.get("a"), Some("2".to_string()));
    assert_eq!(kv.remove("a"), Some("2".to_string()));
    assert_eq!(kv.len(), 1);
    assert_eq!(kv.remove("a"), None);
    let pairs = kv.to_pairs();
    assert_eq!(pairs, vec![("b".to_string(), "3".to_string())]);
}

#[test]
fn kv_odd_token_is_dropped() {
    // "a=1=2": fragments a, 1, 2 -> tokens a, 1, 2 -> one pair
    let kv = parse_kv_args("a=1=2").unwrap();
    assert_eq!(kv.len(), 1);
    assert_eq!(kv.get("a"), Some("1".to_string()));
    let kv = parse_kv_args("=").unwrap();
    assert_eq!(kv.get(""), Some("".to_string()));
}

#[test]
fn distinct_pairs_parse_to_themselves() {
    let kv = parse_kv_args(r#"name=Last Wish mode="prestige" min_light=300 game="#).unwrap();
    assert_eq!(
        kv.to_pairs(),
        vec![
            ("name".to_string(), "Last Wish".to_string()),
            ("mode".to_string(), "prestige".to_string()),
            ("min_light".to_string(), "300".to_string()),
            ("game".to_string(), "".to_string()),
        ]
    );
}
