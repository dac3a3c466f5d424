use profiler_marker::writer::{JSONWriter, PropertyValue};

#[test]
fn properties_in_call_order() {
    let mut w = JSONWriter::new();
    w.int_property("a", -7);
    w.bool_property("b", true);
    w.string_property("c", "text");
    w.null_property("d");
    w.float_property_bits("e", 1.5f64.to_bits());
    let ps = w.properties();
    let names: Vec<&str> = ps.iter().map(|p| p.name.as_str()).collect();
    assert_eq!(names, vec!["a", "b", "c", "d", "e"]);
    assert_eq!(ps[0].value, PropertyValue::Int(-7));
    assert_eq!(ps[1].value, PropertyValue::Bool(true));
    assert_eq!(ps[2].value, PropertyValue::Str("text".to_string()));
    assert_eq!(ps[3].value, PropertyValue::Null);
    assert_eq!(ps[4].value, PropertyValue::FloatBits(1.5f64.to_bits()));
    assert!(w.strings().is_empty());
}

#[test]
fn unique_strings_are_interned() {
    let mut w = JSONWriter::new();
    w.unique_string_property("x", "alpha");
    w.unique_string_property("y", "beta");
    w.unique_string_property("z", "alpha");
    assert_eq!(w.strings(), &vec!["alpha".to_string(), "beta".to_string()]);
    let ps = w.properties();
    assert_eq!(ps[0].value, PropertyValue::UniqueString(0));
    assert_eq!(ps[1].value, PropertyValue::UniqueString(1));
    assert_eq!(ps[2].value, PropertyValue::UniqueString(0));
    assert_eq!(ps[2].name, "z");
}
