use line_messaging::filter::{
    serialize_demographic, serialize_filter, serialize_limit, serialize_recipient, Demographic,
    Filter, FilterError, Limit, Recipient,
};

#[test]
fn audience_leaf_serializes() {
    let r = Recipient::audience(5614991017776);
    assert_eq!(
        serialize_recipient(r),
        "{\"type\":\"audience\",\"audienceGroupId\":5614991017776}"
    );
}

#[test]
fn and_of_two_audiences_serializes_in_order() {
    let r = Recipient::and(vec![Recipient::audience(1), Recipient::audience(2)]).unwrap();
    assert_eq!(
        serialize_recipient(r),
        "{\"type\":\"operator\",\"and\":[{\"type\":\"audience\",\"audienceGroupId\":1},{\"type\":\"audience\",\"audienceGroupId\":2}]}"
    );
}

#[test]
fn or_and_not_nest() {
    let inner = Recipient::or(vec![Recipient::audience(1), Recipient::audience(2)]).unwrap();
    let r = Recipient::not(inner);
    assert_eq!(
        serialize_recipient(r),
        "{\"type\":\"operator\",\"not\":{\"type\":\"operator\",\"or\":[{\"type\":\"audience\",\"audienceGroupId\":1},{\"type\":\"audience\",\"audienceGroupId\":2}]}}"
    );
}

#[test]
fn empty_and_is_rejected() {
    assert!(matches!(Recipient::and(Vec::new()), Err(FilterError::EmptyOperator)));
    assert!(matches!(Demographic::and(Vec::new()), Err(FilterError::EmptyOperator)));
}

#[test]
fn empty_or_is_rejected() {
    assert!(matches!(Recipient::or(Vec::new()), Err(FilterError::EmptyOperator)));
    assert!(matches!(Demographic::or(Vec::new()), Err(FilterError::EmptyOperator)));
}

#[test]
fn singleton_and_is_accepted() {
    assert!(Recipient::and(vec![Recipient::audience(9)]).is_ok());
}

#[test]
fn deep_recipient_tree_serializes_without_stack_exhaustion() {
    let depth = 2000;
    let mut r = Recipient::audience(1);
    for _ in 0..depth {
        r = Recipient::not(r);
    }
    let s = serialize_recipient(r);
    let expected = "{\"type\":\"operator\",\"not\":".repeat(depth)
        + "{\"type\":\"audience\",\"audienceGroupId\":1}" + &"}".repeat(depth);
    assert_eq!(s, expected);
}

#[test]
fn deep_demographic_tree_serializes_without_stack_exhaustion() {
    let depth = 1500;
    let mut d = Demographic::Gender { one_of: vec!["male".to_string()] };
    for _ in 0..depth {
        d = Demographic::not(d);
    }
    let s = serialize_demographic(d);
    let expected = "{\"type\":\"operator\",\"not\":".repeat(depth)
        + "{\"type\":\"gender\",\"oneOf\":[\"male\"]}" + &"}".repeat(depth);
    assert_eq!(s, expected);
}

#[test]
fn deep_mixed_operator_tree_serializes() {
    let depth = 1000;
    let mut r = Recipient::audience(7);
    for i in 0..depth {
        r = if i % 2 == 0 {
            Recipient::and(vec![r]).unwrap()
        } else {
            Recipient::or(vec![r]).unwrap()
        };
    }
    let s = serialize_recipient(r);
    assert!(s.starts_with("{\"type\":\"operator\","));
    assert!(s.ends_with("]}"));
}

#[test]
fn gender_leaf_serializes() {
    let d = Demographic::Gender { one_of: vec!["male".to_string(), "female".to_string()] };
    assert_eq!(
        serialize_demographic(d),
        "{\"type\":\"gender\",\"oneOf\":[\"male\",\"female\"]}"
    );
}

#[test]
fn age_leaf_serializes_only_populated_bounds() {
    let both = Demographic::Age { gte: Some("age_20".to_string()), lt: Some("age_50".to_string()) };
    assert_eq!(
        serialize_demographic(both),
        "{\"type\":\"age\",\"gte\":\"age_20\",\"lt\":\"age_50\"}"
    );
    let neither = Demographic::Age { gte: None, lt: None };
    assert_eq!(serialize_demographic(neither), "{\"type\":\"age\"}");
    let lower = Demographic::SubscriptionPeriod { gte: Some("day_7".to_string()), lt: None };
    assert_eq!(
        serialize_demographic(lower),
        "{\"type\":\"subscriptionPeriod\",\"gte\":\"day_7\"}"
    );
}

#[test]
fn app_type_and_area_leaves_serialize() {
    let a = Demographic::AppType { one_of: vec!["ios".to_string()] };
    assert_eq!(serialize_demographic(a), "{\"type\":\"appType\",\"oneOf\":[\"ios\"]}");
    let b = Demographic::Area { one_of: vec!["jp_13".to_string(), "jp_14".to_string()] };
    assert_eq!(
        serialize_demographic(b),
        "{\"type\":\"area\",\"oneOf\":[\"jp_13\",\"jp_14\"]}"
    );
}

#[test]
fn demographic_operator_serializes_children() {
    let d = Demographic::and(vec![
        Demographic::Gender { one_of: vec!["male".to_string()] },
        Demographic::Age { gte: Some("age_20".to_string()), lt: None },
    ])
        .unwrap();
    assert_eq!(
        serialize_demographic(d),
        "{\"type\":\"operator\",\"and\":[{\"type\":\"gender\",\"oneOf\":[\"male\"]},{\"type\":\"age\",\"gte\":\"age_20\"}]}"
    );
}

#[test]
fn filter_and_limit_serialize() {
    let f = Filter { demographic: Demographic::Gender { one_of: vec!["female".to_string()] } };
    assert_eq!(
        serialize_filter(f),
        "{\"demographic\":{\"type\":\"gender\",\"oneOf\":[\"female\"]}}"
    );
    assert_eq!(serialize_limit(&Limit { max: 100 }), "{\"max\":100}");
}
