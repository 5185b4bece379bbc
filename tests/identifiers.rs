use smartparse_core::identify;
use smartparse_core::similarity_match;
use smartparse_core::{Feature, Json, JsonScalar, Similarity, Source, Tokenize, TypedValue};

fn float_reading(s: &str) -> Option<u64> {
    s.parse::<f64>().ok().map(f64::to_bits)
}

fn readings(fs: &[Feature]) -> Vec<Option<u64>> {
    fs.iter().map(|f| float_reading(f.raw_value())).collect()
}

fn assert_similarity_equal(a: Vec<Feature>, b: Vec<Feature>) {
    let (fa, fb) = (readings(&a), readings(&b));
    assert!(similarity_match(&a, &b, &fa, &fb).is_some(), "a: {:?}\nb: {:?}", a, b);
}

#[test]
fn tokenize_works_as_expected() {
    let tokens = Tokenize::identity()
        .tokenize(r#"12:42:53.546 INFO AppDelegate.loadSplashscreen():153 - Opening trackers"#);
    assert_eq!(
        tokens.unwrap(),
        vec![
            "12:42:53.546",
            "INFO",
            "AppDelegate.loadSplashscreen():153",
            "-",
            "Opening",
            "trackers",
        ]
    );
}

#[test]
fn json_works_as_expected() {
    let features = Json::new().identify(r#"{ "a": "foo", "b": 100, "zz": 80.1 }"#);
    assert_similarity_equal(
        features.expect("found features"),
        vec![
            Feature::new("a", "foo"),
            Feature::new("b", "100"),
            Feature::new("zz", "80.1"),
        ],
    );
}

#[test]
fn identify_json_object_gives_typed_features() {
    let mut fs = identify(r#"{"a":"foo","b":100,"zz":80.1}"#);
    assert_eq!(fs.len(), 3);
    let keys: Vec<&str> = fs.iter().map(|f| f.key()).collect();
    assert_eq!(keys, vec!["a", "b", "zz"]);
    for f in &fs {
        assert_eq!(f.metadata().source_tag(), Some(&Source::Json));
    }
    let readings = readings(&fs);
    assert_eq!(fs[0].typed_value(readings[0]), TypedValue::Str("foo".to_string()));
    assert_eq!(fs[1].typed_value(readings[1]), TypedValue::I64(100));
    assert_eq!(fs[2].typed_value(readings[2]), TypedValue::F64(80.1f64.to_bits()));
    // every JSON feature has its typed value up front: no float reading is needed
    for f in &fs {
        assert_eq!(f.typed_value_no_cache(None), f.typed_value_no_cache(Some(0)));
    }
    assert_eq!(fs[2].typed_value(None), TypedValue::F64(80.1f64.to_bits()));
    assert_eq!(fs[0].raw_value(), "\"foo\"");
    assert_eq!(fs[2].raw_value(), "80.1");
}

#[test]
fn identify_log_line_gives_tokens() {
    let fs = identify("12:42:53.546 INFO App - msg");
    let raws: Vec<&str> = fs.iter().map(|f| f.raw_value()).collect();
    assert_eq!(raws, vec!["12:42:53.546", "INFO", "App", "-", "msg"]);
    for f in &fs {
        assert_eq!(f.key(), "");
        assert_eq!(f.metadata().source_tag(), Some(&Source::Tokenize));
    }
}

#[test]
fn identify_empty_object_gives_no_features() {
    assert!(identify("{}").is_empty());
    assert!(identify("  \n{ }").is_empty());
    assert_eq!(Json::new().identify("{}").map(|v| v.len()), Some(0));
}

#[test]
fn identify_falls_back_when_json_declines() {
    let fs = identify("{ not json");
    let raws: Vec<&str> = fs.iter().map(|f| f.raw_value()).collect();
    assert_eq!(raws, vec!["{", "not", "json"]);
    let fs = identify("[1, 2]");
    assert_eq!(fs.len(), 2);
    assert_eq!(fs[0].metadata().source_tag(), Some(&Source::Tokenize));
    assert!(Json::new().identify("\"x\"").is_none());
    assert!(Json::new().identify("x {}").is_none());
}

#[test]
fn identify_tokenizes_blank_input_to_nothing() {
    assert!(identify("").is_empty());
    assert!(identify(" \t\n ").is_empty());
    assert_eq!(identify("  a\t\tb  ").len(), 2);
}

#[test]
fn json_skips_nested_values_and_keeps_scalars() {
    let mut fs = identify(r#"{"n":null,"t":true,"arr":[1],"obj":{"x":1},"big":18446744073709551615}"#);
    let keys: Vec<&str> = fs.iter().map(|f| f.key()).collect();
    assert_eq!(keys, vec!["n", "t"]);
    let readings = readings(&fs);
    assert_eq!(fs[0].typed_value(readings[0]), TypedValue::Null);
    assert_eq!(fs[1].typed_value(readings[1]), TypedValue::Bool(true));
    let mut fs = Json::new().identify(r#"{"a":[1,2],"b":{"c":1},"d":true}"#).unwrap();
    assert_eq!(fs.len(), 1);
    assert_eq!(fs[0].key(), "d");
    assert_eq!(fs[0].raw_value(), "true");
    assert_eq!(fs[0].typed_value(None), TypedValue::Bool(true));
}

#[test]
fn json_raw_value_is_canonical_text() {
    let mut fs = Json::new().identify(r#"{"x": 1.50, "s": "foo", "n": -7}"#).unwrap();
    let keys: Vec<&str> = fs.iter().map(|f| f.key()).collect();
    assert_eq!(keys, vec!["n", "s", "x"]);
    assert_eq!(fs[0].raw_value(), "-7");
    assert_eq!(fs[0].typed_value(None), TypedValue::I64(-7));
    assert_eq!(fs[1].raw_value(), "\"foo\"");
    assert_eq!(fs[1].typed_value(None), TypedValue::Str("foo".to_string()));
    assert_eq!(fs[2].raw_value(), "1.5");
    assert_eq!(fs[2].typed_value(None), TypedValue::F64(1.5f64.to_bits()));
}

#[test]
fn json_features_from_members() {
    let members = vec![
        smartparse_core::JsonMember {
            key: "k".to_string(),
            text: "[1]".to_string(),
            value: JsonScalar::Nested,
        },
        smartparse_core::JsonMember {
            key: "s".to_string(),
            text: "\"v\"".to_string(),
            value: JsonScalar::Str("v".to_string()),
        },
    ];
    let mut fs = smartparse_core::json::json_features(&members);
    assert_eq!(fs.len(), 1);
    let numbers = vec![
        smartparse_core::JsonMember {
            key: "i".to_string(),
            text: "3".to_string(),
            value: JsonScalar::Number { as_i64: Some(3), is_float: false, float_bits: Some(3f64.to_bits()) },
        },
        smartparse_core::JsonMember {
            key: "u".to_string(),
            text: "18446744073709551615".to_string(),
            value: JsonScalar::Number {
                as_i64: None,
                is_float: false,
                float_bits: Some(18446744073709551615u64 as f64).map(f64::to_bits),
            },
        },
        smartparse_core::JsonMember {
            key: "f".to_string(),
            text: "0.5".to_string(),
            value: JsonScalar::Number { as_i64: None, is_float: true, float_bits: Some(0.5f64.to_bits()) },
        },
    ];
    let mut ns = smartparse_core::json::json_features(&numbers);
    assert_eq!(ns.len(), 2);
    assert_eq!(ns[0].typed_value(None), TypedValue::I64(3));
    assert_eq!(ns[1].key(), "f");
    assert_eq!(ns[1].typed_value(None), TypedValue::F64(0.5f64.to_bits()));
    assert_eq!(fs[0].key(), "s");
    assert_eq!(fs[0].typed_value(None), TypedValue::Str("v".to_string()));
}

#[test]
fn matching_is_first_fit_and_checks_sizes() {
    let a = vec![Feature::new("k", "1"), Feature::new("k", "1")];
    let b = vec![Feature::new("k", "1"), Feature::new("k", "1.0"), Feature::new("k", "1")];
    let (fa, fb) = (readings(&a), readings(&b));
    assert_eq!(similarity_match(&a, &b, &fa, &fb), None);
    let b = vec![Feature::new("k", "1.0"), Feature::new("k", "1"), Feature::new("k", "01")];
    let a = vec![Feature::new("k", "1"), Feature::new("k", "1"), Feature::new("k", "1.00")];
    let (fa, fb) = (readings(&a), readings(&b));
    assert_eq!(similarity_match(&a, &b, &fa, &fb), Some(vec![1, 2, 0]));
    let b = vec![Feature::new("k", "1"), Feature::new("k", "2"), Feature::new("k", "1.0")];
    let fb = readings(&b);
    assert_eq!(similarity_match(&a, &b, &fa, &fb), None);
    let none: Vec<Feature> = Vec::new();
    assert_eq!(similarity_match(&none, &Vec::new(), &Vec::new(), &Vec::new()), Some(vec![]));
    let _ = Similarity::Equivalent;
}
