use disguise_engine::models::placeholder::{GeneratePlaceHolder, PlaceholderInfo};
use disguise_engine::models::target::{copy_fields, Field, Target};
use disguise_engine::models::transformation::{
    copy_transformations, kind_of_lowered, parse_kind, Kind, Transformation,
};
use disguise_engine::models::vault::{copy_functions, Disguise, DisguiseFromDB, Function};

fn field(name: &str, kind: &str, value: &str) -> Field {
    Field {
        field_name: Some(name.to_string()),
        field_type: Some(kind.to_string()),
        field_value: Some(value.to_string()),
    }
}

fn contact() -> Target {
    Target {
        primary_key_index: Some(0),
        fields: Some(vec![
            field("contact_id", "int", "19"),
            field("name", "varchar(60)", "bea"),
            field("last_login_time", "datetime", "2015-01-01 00:00:00 +00:00"),
        ]),
    }
}

#[test]
fn new_empty_has_no_field() {
    let t = Transformation::new_empty();
    assert!(t.transform_type.is_none());
    assert!(t.table_name.is_none());
    assert!(t.predicate.is_none());
    assert!(t.foreign_key.is_none());
    assert!(t.changes.is_none());
}

#[test]
fn kinds_are_read_in_any_case() {
    assert_eq!(parse_kind("removal"), Some(Kind::Removal));
    assert_eq!(parse_kind("Removal"), Some(Kind::Removal));
    assert_eq!(parse_kind("MODIFICATION"), Some(Kind::Modification));
    assert_eq!(parse_kind("DeCorrelation"), Some(Kind::Decorrelation));
    assert_eq!(parse_kind("remove"), None);
    assert_eq!(parse_kind(""), None);
}

#[test]
fn lowered_kinds_are_exact() {
    assert_eq!(kind_of_lowered("removal"), Some(Kind::Removal));
    assert_eq!(kind_of_lowered("modification"), Some(Kind::Modification));
    assert_eq!(kind_of_lowered("decorrelation"), Some(Kind::Decorrelation));
    assert_eq!(kind_of_lowered("Removal"), None);
}

#[test]
fn transformation_copies_hold_the_same() {
    let t = Transformation {
        transform_type: Some("removal".into()),
        table_name: Some("review".into()),
        predicate: None,
        foreign_key: Some("contact_id".into()),
        changes: None,
    };
    let c = t.clone();
    assert_eq!(c.transform_type, t.transform_type);
    assert_eq!(c.table_name, t.table_name);
    assert_eq!(c.predicate, t.predicate);
    assert_eq!(c.foreign_key, t.foreign_key);
    assert_eq!(c.changes, t.changes);
    let list = copy_transformations(&vec![t.clone(), Transformation::new_empty()]);
    assert_eq!(list.len(), 2);
    assert_eq!(list[0].table_name, Some("review".to_string()));
    assert!(list[1].table_name.is_none());
}

#[test]
fn primary_key_is_the_indexed_field() {
    let key = contact().primary_key().unwrap();
    assert_eq!(key.field_name, Some("contact_id".to_string()));
    assert_eq!(key.field_value, Some("19".to_string()));
}

#[test]
fn primary_key_past_the_fields_is_none() {
    let mut row = contact();
    row.primary_key_index = Some(3);
    assert!(row.primary_key().is_none());
    let empty = Target { primary_key_index: Some(0), fields: Some(vec![]) };
    assert!(empty.primary_key().is_none());
}

#[test]
fn foreign_key_is_found_by_name() {
    let row = contact();
    let key = row.foreign_key("name").unwrap();
    assert_eq!(key.field_value, Some("bea".to_string()));
    assert!(row.foreign_key("email").is_none());
    assert!(row.foreign_key("Name").is_none());
}

#[test]
fn foreign_key_takes_the_first_of_equal_names() {
    let row = Target {
        primary_key_index: Some(0),
        fields: Some(vec![field("a", "int", "1"), field("a", "int", "2")]),
    };
    assert_eq!(row.foreign_key("a").unwrap().field_value, Some("1".to_string()));
}

#[test]
fn field_names_are_joined() {
    assert_eq!(contact().field_names(), Some("contact_id, name, last_login_time".to_string()));
    let none = Target { primary_key_index: Some(0), fields: None };
    assert_eq!(none.field_names(), None);
}

#[test]
fn field_values_quote_what_is_no_integer() {
    assert_eq!(
        contact().field_values(),
        Some("19, \"bea\", \"2015-01-01 00:00:00 +00:00\"".to_string())
    );
    let none = Target { primary_key_index: Some(0), fields: None };
    assert_eq!(none.field_values(), None);
    let one = Target { primary_key_index: Some(0), fields: Some(vec![field("n", "bigint", "7")]) };
    assert_eq!(one.field_values(), Some("7".to_string()));
}

#[test]
fn whole_rows_are_told_from_broken_ones() {
    assert!(contact().is_whole());
    let mut row = contact();
    row.primary_key_index = Some(3);
    assert!(!row.is_whole());
    let mut row = contact();
    row.primary_key_index = None;
    assert!(!row.is_whole());
    let mut row = contact();
    row.fields.as_mut().unwrap()[1].field_value = None;
    assert!(!row.is_whole());
    assert!(!Target { primary_key_index: Some(0), fields: None }.is_whole());
    assert!(!Target { primary_key_index: Some(0), fields: Some(vec![]) }.is_whole());
}

#[test]
fn field_equation_and_completeness() {
    let f = field("contact_id", "int", "19");
    assert!(f.is_complete());
    assert_eq!(f.equation(), Some("contact_id=19".to_string()));
    let g = Field { field_name: None, field_type: None, field_value: Some("1".into()) };
    assert!(!g.is_complete());
    assert_eq!(g.equation(), None);
    let copies = copy_fields(&vec![f.clone()]);
    assert_eq!(copies[0].field_name, f.field_name);
    let row = contact().clone();
    assert_eq!(row.primary_key_index, Some(0));
    assert_eq!(row.fields.unwrap().len(), 3);
}

#[test]
fn placeholder_info_points_at_the_new_row() {
    let request = GeneratePlaceHolder {
        table: Some("contact_info".into()),
        primary_key_name: Some("contact_id".into()),
        fields: Some("name, email, disabled".into()),
        field_values: Some("'placeholder', '777', true".into()),
    };
    let info = PlaceholderInfo::new(request.clone(), "42");
    assert_eq!(info.pred, Some("contact_id=42".to_string()));
    assert_eq!(info.table, Some("contact_info".to_string()));
    let info = PlaceholderInfo::new(
        GeneratePlaceHolder { table: None, ..request },
        "0",
    );
    assert_eq!(info.pred, Some("contact_id=0".to_string()));
    assert_eq!(info.table, None);
    assert_eq!(info.clone().pred, info.pred);
}

#[test]
fn disguise_from_header_has_no_functions() {
    let header = DisguiseFromDB {
        disguise_id: Some(999),
        time: Some("1111".into()),
        vault_id: Some("19".into()),
        disguise_type: Some("123".into()),
    };
    let disguise = Disguise::from(header.clone());
    assert_eq!(disguise.disguise_id, Some(999));
    assert_eq!(disguise.time, Some("1111".to_string()));
    assert_eq!(disguise.vault_id, Some("19".to_string()));
    assert_eq!(disguise.disguise_type, Some("123".to_string()));
    assert!(disguise.functions.is_none());
}

#[test]
fn disguise_completeness() {
    let function = Function {
        disguise_id: Some(999),
        function_type: Some("sdf".to_string()),
        table_name: Some("fsdf".to_string()),
        predicate: Some("sf".to_string()),
        original: Some("sf".to_string()),
        updated: Some("sf".to_string()),
    };
    assert!(function.is_complete());
    let disguise = Disguise {
        disguise_id: Some(999),
        time: Some("1111".to_string()),
        vault_id: Some("19".to_string()),
        disguise_type: Some("123".to_string()),
        functions: Some(vec![function.clone()]),
    };
    assert!(disguise.is_complete());
    let mut broken = disguise.clone();
    broken.functions.as_mut().unwrap()[0].updated = None;
    assert!(!broken.is_complete());
    let mut broken = disguise.clone();
    broken.time = None;
    assert!(!broken.is_complete());
    let mut broken = disguise.clone();
    broken.functions = None;
    assert!(!broken.is_complete());
    assert_eq!(copy_functions(&vec![function])[0].predicate, Some("sf".to_string()));
}

#[test]
fn foreign_key_needs_no_name_behind_the_match() {
    let row = Target {
        primary_key_index: Some(0),
        fields: Some(vec![
            field("contact_id", "int", "19"),
            field("name", "varchar(60)", "bea"),
            Field { field_name: None, field_type: None, field_value: None },
        ]),
    };
    assert_eq!(row.foreign_key("name").unwrap().field_value, Some("bea".to_string()));
    assert_eq!(row.foreign_key("contact_id").unwrap().field_value, Some("19".to_string()));
}
