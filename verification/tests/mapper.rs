use baserow_rs::mapper::{FieldMapper, TableMapper};
use baserow_rs::record::Record;
use baserow_rs::TableField;
use serde_json::Value;

fn create_test_field(id: u64, name: &str) -> TableField {
    TableField {
        id,
        table_id: 1,
        name: name.to_string(),
        order: 0,
        field_type: "text".to_string(),
        primary: false,
        read_only: false,
        description: None,
    }
}

fn text(s: &str) -> Value {
    Value::String(s.to_string())
}

fn record(entries: &[(&str, Value)]) -> Record {
    let mut record = Record::new();
    for (key, value) in entries {
        record.insert(key.to_string(), value.clone());
    }
    record
}

fn people() -> TableMapper {
    let mut mapper = TableMapper::new();
    mapper.map_fields(vec![
        create_test_field(1, "Name"),
        create_test_field(2, "Email"),
        create_test_field(3, "Age"),
    ]);
    mapper
}

#[test]
fn test_mapping_fields() {
    let mut mapper = TableMapper::new();
    let fields = vec![
        create_test_field(1, "Name"),
        create_test_field(2, "Email"),
        create_test_field(3, "Age"),
    ];

    mapper.map_fields(fields.clone());

    assert_eq!(mapper.get_fields().len(), 3);

    assert_eq!(mapper.get_field_name(1), Some("Name".to_string()));
    assert_eq!(mapper.get_field_name(2), Some("Email".to_string()));
    assert_eq!(mapper.get_field_name(3), Some("Age".to_string()));
    assert_eq!(mapper.get_field_name(4), None);

    assert_eq!(mapper.get_field_id("Name"), Some(1));
    assert_eq!(mapper.get_field_id("Email"), Some(2));
    assert_eq!(mapper.get_field_id("Age"), Some(3));
    assert_eq!(mapper.get_field_id("Unknown"), None);
}

#[test]
fn test_remapping_fields() {
    let mut mapper = TableMapper::new();

    let initial_fields = vec![create_test_field(1, "Name"), create_test_field(2, "Email")];
    mapper.map_fields(initial_fields);

    let updated_fields = vec![
        create_test_field(1, "FullName"),
        create_test_field(2, "Email"),
        create_test_field(3, "Phone"),
    ];
    mapper.map_fields(updated_fields);

    assert_eq!(mapper.get_field_name(1), Some("FullName".to_string()));
    assert_eq!(mapper.get_field_id("FullName"), Some(1));
    assert_eq!(mapper.get_field_name(3), Some("Phone".to_string()));
    assert_eq!(mapper.get_field_id("Phone"), Some(3));

    assert_eq!(mapper.get_field_id("Name"), None);
}

#[test]
fn new_mapper_knows_nothing() {
    let mapper = TableMapper::new();
    assert_eq!(mapper.get_fields().len(), 0);
    assert_eq!(mapper.get_field_name(1), None);
    assert_eq!(mapper.get_field_id("Name"), None);
    let default_mapper = TableMapper::default();
    assert_eq!(default_mapper.get_fields().len(), 0);
}

#[test]
fn lookups_round_trip_for_every_field() {
    let mapper = people();
    for field in mapper.get_fields() {
        let name = mapper.get_field_name(field.id).unwrap();
        assert_eq!(mapper.get_field_id(&name), Some(field.id));
        let id = mapper.get_field_id(&field.name).unwrap();
        assert_eq!(mapper.get_field_name(id), Some(field.name.clone()));
    }
}

#[test]
fn remapping_with_disjoint_fields_forgets_the_old_ones() {
    let mut mapper = people();
    mapper.map_fields(vec![create_test_field(10, "City"), create_test_field(11, "Country")]);
    for id in [1u64, 2, 3] {
        assert_eq!(mapper.get_field_name(id), None);
    }
    for name in ["Name", "Email", "Age"] {
        assert_eq!(mapper.get_field_id(name), None);
    }
    assert_eq!(mapper.get_field_id("City"), Some(10));
    assert_eq!(mapper.get_field_name(11), Some("Country".to_string()));
}

#[test]
fn later_field_wins_a_shared_name_or_id() {
    let mut mapper = TableMapper::new();
    mapper.map_fields(vec![
        create_test_field(1, "Name"),
        create_test_field(2, "Name"),
        create_test_field(3, "First"),
        create_test_field(3, "Second"),
    ]);
    assert_eq!(mapper.get_field_id("Name"), Some(2));
    assert_eq!(mapper.get_field_name(1), Some("Name".to_string()));
    assert_eq!(mapper.get_field_name(3), Some("Second".to_string()));
    assert_eq!(mapper.get_field_id("First"), Some(3));
    assert_eq!(mapper.get_fields().len(), 4);
}

#[test]
fn lookup_is_exact() {
    let mapper = people();
    assert_eq!(mapper.get_field_id("name"), None);
    assert_eq!(mapper.get_field_id(" Name"), None);
    assert_eq!(mapper.get_field_id("Name "), None);
    assert_eq!(mapper.get_field_id(""), None);
}

#[test]
fn resolve_name_reads_bare_and_prefixed_keys() {
    let mapper = people();
    assert_eq!(mapper.resolve_name("1"), Some("Name".to_string()));
    assert_eq!(mapper.resolve_name("field_2"), Some("Email".to_string()));
    assert_eq!(mapper.resolve_name("+3"), Some("Age".to_string()));
    assert_eq!(mapper.resolve_name("field_003"), Some("Age".to_string()));
    assert_eq!(mapper.resolve_name("field_+3"), Some("Age".to_string()));
    assert_eq!(mapper.resolve_name("4"), None);
    assert_eq!(mapper.resolve_name("field_4"), None);
    assert_eq!(mapper.resolve_name("field_"), None);
    assert_eq!(mapper.resolve_name("Field_1"), None);
    assert_eq!(mapper.resolve_name("field_1x"), None);
    assert_eq!(mapper.resolve_name("field_-1"), None);
    assert_eq!(mapper.resolve_name("id"), None);
    assert_eq!(mapper.resolve_name(""), None);
    assert_eq!(mapper.resolve_name("field_18446744073709551616"), None);
}

#[test]
fn field_key_is_prefix_and_numeral() {
    assert_eq!(baserow_rs::mapper::field_key_for(0), "field_0");
    assert_eq!(baserow_rs::mapper::field_key_for(7), "field_7");
    assert_eq!(baserow_rs::mapper::field_key_for(1529), "field_1529");
    assert_eq!(
        baserow_rs::mapper::field_key_for(u64::MAX),
        "field_18446744073709551615"
    );
}

#[test]
fn convert_to_field_names_rewrites_known_keys_only() {
    let mapper = people();
    let row = record(&[
        ("id", Value::from(7)),
        ("field_1", text("Ada")),
        ("2", text("ada@example.com")),
        ("field_9", text("kept")),
        ("Age", Value::Null),
    ]);
    let converted = mapper.convert_to_field_names(row);
    assert_eq!(
        converted.keys(),
        vec!["id", "Name", "Email", "field_9", "Age"]
    );
    assert_eq!(converted.get("id"), Some(&Value::from(7)));
    assert_eq!(converted.get("Name"), Some(&text("Ada")));
    assert_eq!(converted.get("Email"), Some(&text("ada@example.com")));
    assert_eq!(converted.get("field_9"), Some(&text("kept")));
    assert_eq!(converted.get("Age"), Some(&Value::Null));
    assert_eq!(converted.get("field_1"), None);
}

#[test]
fn convert_to_field_names_keeps_the_later_of_two_colliding_entries() {
    let mapper = people();
    let row = record(&[("field_1", text("first")), ("1", text("second")), ("x", text("other"))]);
    let converted = mapper.convert_to_field_names(row);
    assert_eq!(converted.len(), 2);
    assert_eq!(converted.keys(), vec!["Name", "x"]);
    assert_eq!(converted.get("Name"), Some(&text("second")));
}

#[test]
fn convert_to_field_ids_rewrites_names_only() {
    let mapper = people();
    let row = record(&[
        ("Name", text("Ada")),
        ("id", Value::from(1)),
        ("field_3", Value::from(36)),
        ("Unknown", Value::Bool(true)),
    ]);
    let converted = mapper.convert_to_field_ids(row);
    assert_eq!(converted.keys(), vec!["field_1", "id", "field_3", "Unknown"]);
    assert_eq!(converted.get("field_1"), Some(&text("Ada")));
    assert_eq!(converted.get("field_3"), Some(&Value::from(36)));
    assert_eq!(converted.get("Unknown"), Some(&Value::Bool(true)));
}

#[test]
fn convert_to_field_ids_twice_is_the_same_as_once() {
    let mapper = people();
    let row = record(&[("Name", text("Ada")), ("Email", text("a@b.c")), ("id", Value::from(1))]);
    let once = mapper.convert_to_field_ids(row);
    let keys = once.keys();
    let twice = mapper.convert_to_field_ids(once);
    assert_eq!(twice.keys(), keys);
    assert_eq!(twice.get("field_1"), Some(&text("Ada")));
    assert_eq!(twice.get("field_2"), Some(&text("a@b.c")));
    assert_eq!(twice.get("id"), Some(&Value::from(1)));
}

#[test]
fn names_then_ids_restores_prefixed_keys() {
    let mapper = people();
    let row = record(&[
        ("field_1", text("Ada")),
        ("field_2", text("a@b.c")),
        ("field_3", Value::from(36)),
        ("id", Value::from(5)),
        ("field_77", Value::Null),
    ]);
    let keys = row.keys();
    let back = mapper.convert_to_field_ids(mapper.convert_to_field_names(row));
    assert_eq!(back.keys(), keys);
    assert_eq!(back.get("field_1"), Some(&text("Ada")));
    assert_eq!(back.get("field_2"), Some(&text("a@b.c")));
    assert_eq!(back.get("field_3"), Some(&Value::from(36)));
    assert_eq!(back.get("id"), Some(&Value::from(5)));
    assert_eq!(back.get("field_77"), Some(&Value::Null));
}

#[test]
fn names_then_ids_turns_a_bare_key_into_a_prefixed_one() {
    let mapper = people();
    let row = record(&[("2", text("a@b.c"))]);
    let back = mapper.convert_to_field_ids(mapper.convert_to_field_names(row));
    assert_eq!(back.keys(), vec!["field_2"]);
}

#[test]
fn empty_records_convert_to_empty_records() {
    let mapper = people();
    assert!(mapper.convert_to_field_names(Record::new()).is_empty());
    assert!(mapper.convert_to_field_ids(Record::new()).is_empty());
}

#[test]
fn unmapped_mapper_passes_every_key_through() {
    let mapper = TableMapper::new();
    let row = record(&[("field_1", text("a")), ("1", text("b")), ("Name", text("c"))]);
    let names = mapper.convert_to_field_names(row);
    assert_eq!(names.keys(), vec!["field_1", "1", "Name"]);
    let ids = mapper.convert_to_field_ids(names);
    assert_eq!(ids.keys(), vec!["field_1", "1", "Name"]);
}

#[test]
fn row_value_is_the_object_keyed_by_names() {
    let mapper = people();
    let row = record(&[("field_1", text("Ada")), ("field_3", Value::from(36)), ("id", Value::from(1))]);
    let value = mapper.row_value(row);
    let object = value.as_object().unwrap();
    assert_eq!(object.len(), 3);
    assert_eq!(object["Name"], text("Ada"));
    assert_eq!(object["Age"], Value::from(36));
    assert_eq!(object["id"], Value::from(1));
}

#[test]
fn a_typed_row_is_read_by_field_name() {
    let mapper = people();
    let row = record(&[("field_1", text("Ada")), ("field_2", text("a@b.c"))]);
    let typed: std::collections::HashMap<String, String> =
        serde_json::from_value(mapper.row_value(row)).unwrap();
    assert_eq!(typed.len(), 2);
    assert_eq!(typed["Name"], "Ada");
    assert_eq!(typed["Email"], "a@b.c");
}

#[test]
fn a_row_of_another_shape_is_refused_by_the_reader() {
    let mapper = people();
    let row = record(&[("field_1", text("Ada")), ("field_3", Value::from(36))]);
    let typed: Result<std::collections::HashMap<String, String>, serde_json::Error> =
        serde_json::from_value(mapper.row_value(row));
    assert!(typed.is_err());
}
