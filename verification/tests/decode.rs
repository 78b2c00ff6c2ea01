use toml_bridge::decode::decode_str;
use toml_bridge::value::Mapping;
use toml_bridge::value::NativeValue;

#[test]
fn scalar_keys() {
    let m = decode_str("a = 1\nb = \"x\"\n");
    assert_eq!(m.len(), 2);
    assert_eq!(m.get("a"), Some(&NativeValue::Int(1)));
    assert_eq!(m.get("b"), Some(&NativeValue::Text("x".to_string())));
    assert_eq!(m.get("c"), None);
}

#[test]
fn nested_table() {
    let m = decode_str("[section]\nk = true\n");
    assert_eq!(m.len(), 1);
    match m.get("section") {
        Some(NativeValue::Table(entries)) => {
            assert_eq!(entries.len(), 1);
            assert_eq!(entries[0].0, "k");
            assert_eq!(entries[0].1, NativeValue::Bool(true));
        }
        other => panic!("expected a table, got {:?}", other),
    }
}

#[test]
fn array_order_preserved() {
    let m = decode_str("vals = [1, 2, 3]\n");
    assert_eq!(
        m.get("vals"),
        Some(&NativeValue::Array(vec![
            NativeValue::Int(1),
            NativeValue::Int(2),
            NativeValue::Int(3),
        ]))
    );
}

#[test]
fn unsorted_array_stays_unsorted() {
    let m = decode_str("vals = [3, 1, 2]\n");
    assert_eq!(
        m.get("vals"),
        Some(&NativeValue::Array(vec![
            NativeValue::Int(3),
            NativeValue::Int(1),
            NativeValue::Int(2),
        ]))
    );
}

#[test]
fn malformed_text_yields_empty_mapping() {
    let m = decode_str("a = \"unterminated\n");
    assert!(m.is_empty());
    assert_eq!(m.len(), 0);
    assert_eq!(m.get("a"), None);
}

#[test]
fn duplicate_keys_are_malformed() {
    let m = decode_str("a = 1\na = 2\n");
    assert!(m.is_empty());
}

#[test]
fn empty_text_yields_empty_mapping() {
    let m = decode_str("");
    assert!(m.is_empty());
}

#[test]
fn decode_twice_yields_equal_mappings() {
    let text = "a = 1\n[t]\nb = [true, false]\nc = \"y\"\n";
    let m1 = decode_str(text);
    let m2 = decode_str(text);
    assert_eq!(m1, m2);
    assert!(!m1.is_empty());
}

#[test]
fn float_value_carries_its_bits() {
    let m = decode_str("x = 1.5\n");
    assert_eq!(m.get("x"), Some(&NativeValue::FloatBits(1.5f64.to_bits())));
}

#[test]
fn datetime_value_carries_its_text() {
    let m = decode_str("d = 1979-05-27T07:32:00Z\n");
    assert_eq!(
        m.get("d"),
        Some(&NativeValue::Datetime("1979-05-27T07:32:00Z".to_string()))
    );
}

#[test]
fn entries_come_in_table_order() {
    let m = decode_str("b = 2\na = 1\n");
    assert_eq!(m.len(), 2);
    assert_eq!(m.entry_at(0).0, "a");
    assert_eq!(m.entry_at(0).1, NativeValue::Int(1));
    assert_eq!(m.entry_at(1).0, "b");
    assert_eq!(m.entry_at(1).1, NativeValue::Int(2));
}

#[test]
fn deep_nesting_is_preserved() {
    let m = decode_str("[outer.inner]\nflag = false\nnames = [\"p\", \"q\"]\n");
    let outer = match m.get("outer") {
        Some(NativeValue::Table(entries)) => entries,
        other => panic!("expected a table, got {:?}", other),
    };
    assert_eq!(outer.len(), 1);
    assert_eq!(outer[0].0, "inner");
    let inner = match &outer[0].1 {
        NativeValue::Table(entries) => entries,
        other => panic!("expected a table, got {:?}", other),
    };
    assert_eq!(inner[0].0, "flag");
    assert_eq!(inner[0].1, NativeValue::Bool(false));
    assert_eq!(inner[1].0, "names");
    assert_eq!(
        inner[1].1,
        NativeValue::Array(vec![
            NativeValue::Text("p".to_string()),
            NativeValue::Text("q".to_string()),
        ])
    );
}

#[test]
fn empty_mapping_has_no_keys() {
    let m = Mapping::empty();
    assert!(m.is_empty());
    assert_eq!(m.len(), 0);
    assert_eq!(m.get("anything"), None);
}
