use ga_component::consent::encode_consent;
use ga_component::properties::{classify_properties, is_float_text};
use ga_component::{Consent, Product, StringExt};

#[test]
fn classification_splits_numbers_and_text() {
    let props = vec![
        ("age".to_string(), "30".to_string()),
        ("plan name".to_string(), "gold".to_string()),
    ];
    let r = classify_properties(&props, false);
    assert_eq!(r.numbers, vec![("age".to_string(), "30".to_string())]);
    assert_eq!(r.text, vec![("plan_name".to_string(), "gold".to_string())]);
    assert!(r.currency.is_none());
}

#[test]
fn classification_last_write_wins_in_place() {
    let props = vec![
        ("a".to_string(), "x".to_string()),
        ("b".to_string(), "y".to_string()),
        ("a".to_string(), "z".to_string()),
        ("currency".to_string(), "USD".to_string()),
    ];
    let r = classify_properties(&props, true);
    assert_eq!(
        r.text,
        vec![
            ("a".to_string(), "z".to_string()),
            ("b".to_string(), "y".to_string())
        ]
    );
    assert_eq!(r.currency, Some("USD".to_string()));
    let kept = classify_properties(&props, false);
    assert_eq!(kept.text.len(), 3);
    assert!(kept.currency.is_none());
}

#[test]
fn float_text_follows_the_float_grammar() {
    for s in ["30", "-1", "+2.5", "1.", ".5", "1e5", "1E-3", "inf", "-Infinity", "NaN", "007"] {
        assert!(is_float_text(s), "{}", s);
        assert!(s.parse::<f64>().is_ok());
    }
    for s in ["", ".", "e5", "1e", "abc", " 1", "1 ", "1_000", "++1", "0x10", "infinit"] {
        assert!(!is_float_text(s), "{}", s);
        assert!(s.parse::<f64>().is_err());
    }
}

#[test]
fn consent_has_two_fixed_tuples() {
    let g = encode_consent(Some(Consent::Granted));
    assert_eq!(
        (g.status.as_str(), g.detail.as_str(), g.npa.as_str(), g.dma_cps.as_str(), g.dma.as_str(), g.pscdl.as_str()),
        ("G111", "13t3t3t2t5l1", "0", "syphamo", "1", "noapi")
    );
    for c in [None, Some(Consent::Denied), Some(Consent::Pending)] {
        let r = encode_consent(c);
        assert_eq!(
            (r.status.as_str(), r.detail.as_str(), r.npa.as_str(), r.dma_cps.as_str(), r.dma.as_str(), r.pscdl.as_str()),
            ("G101", "13p3t3p2p5l1", "1", "-", "1", "denied")
        );
    }
}

#[test]
fn string_or_falls_back_when_empty() {
    assert_eq!(String::new().or("x"), "x");
    assert_eq!("a".to_string().or("x"), "a");
}

#[test]
fn default_product_is_empty() {
    let p = Product::default();
    assert!(p.sku.is_none() && p.price.is_none() && p.custom_parameters.is_none());
}

#[test]
fn classification_moves_a_key_between_maps() {
    let props = vec![
        ("a".to_string(), "1".to_string()),
        ("b".to_string(), "2".to_string()),
        ("a".to_string(), "x".to_string()),
        ("b".to_string(), "y".to_string()),
        ("b".to_string(), "3".to_string()),
    ];
    let r = classify_properties(&props, false);
    assert_eq!(r.text, vec![("a".to_string(), "x".to_string())]);
    assert_eq!(r.numbers, vec![("b".to_string(), "3".to_string())]);
}
