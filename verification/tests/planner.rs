use disguise_engine::clock::{
    cutoff_at, cutoff_before_now, local_time, time_at_offset, Moment, Reading,
};
use disguise_engine::error::EngineError;
use disguise_engine::models::target::{Field, Target};
use disguise_engine::models::transformation::Transformation;
use disguise_engine::planner::{expand, expand_row, plan_selection, plan_selection_at, select_owner};

fn field(name: &str, kind: &str, value: &str) -> Field {
    Field {
        field_name: Some(name.to_string()),
        field_type: Some(kind.to_string()),
        field_value: Some(value.to_string()),
    }
}

fn contact(id: &str) -> Target {
    Target {
        primary_key_index: Some(0),
        fields: Some(vec![
            field("contact_id", "int", id),
            field("name", "varchar(60)", "bea"),
            field("last_login_time", "datetime", "2015-01-01 00:00:00 +00:00"),
        ]),
    }
}

fn owner_template() -> Transformation {
    Transformation {
        transform_type: Some("removal".into()),
        table_name: Some("contact_info".into()),
        predicate: Some("last_login_time".into()),
        foreign_key: None,
        changes: None,
    }
}

fn dependent_template(table: &str, key: &str) -> Transformation {
    Transformation {
        transform_type: Some("removal".into()),
        table_name: Some(table.into()),
        predicate: None,
        foreign_key: Some(key.into()),
        changes: None,
    }
}

fn summary(plan: &Vec<Transformation>) -> Vec<(String, String)> {
    plan.iter()
        .map(|t| (t.table_name.clone().unwrap(), t.predicate.clone().unwrap()))
        .collect()
}

#[test]
fn cutoff_is_365_days_per_year_before_now() {
    let now = Moment { seconds: 1_657_792_272, nanos: 123 };
    assert_eq!(
        cutoff_at(now, 5),
        Some(Moment { seconds: 1_657_792_272 - 5 * 365 * 86_400, nanos: 123 })
    );
    assert_eq!(cutoff_at(now, 0), Some(now));
    assert_eq!(cutoff_at(now, -1), Some(Moment { seconds: 1_657_792_272 + 31_536_000, nanos: 123 }));
    assert_eq!(cutoff_at(now, 1), Some(Moment { seconds: 1_626_256_272, nanos: 123 }));
}

#[test]
fn cutoff_out_of_range_is_none() {
    let now = Moment { seconds: 0, nanos: 0 };
    assert_eq!(cutoff_at(now, i64::MAX), None);
    assert_eq!(cutoff_at(now, i64::MIN), None);
    assert_eq!(cutoff_at(Moment { seconds: i64::MIN, nanos: 0 }, 1), None);
    assert_eq!(
        cutoff_at(Moment { seconds: i64::MIN + 31_536_000, nanos: 7 }, 1),
        Some(Moment { seconds: i64::MIN, nanos: 7 })
    );
}

#[test]
fn owner_gets_the_predicate_of_the_cutoff() {
    let templates = vec![dependent_template("review", "contact_id"), owner_template()];
    let selection = select_owner(&templates, "2017-07-14 10:11:12 +02:00");
    assert_eq!(
        selection.owner.predicate,
        Some("last_login_time<\"2017-07-14 10:11:12 +02:00\"".to_string())
    );
    assert_eq!(selection.owner.table_name, Some("contact_info".to_string()));
    assert_eq!(selection.owner.transform_type, Some("removal".to_string()));
    assert_eq!(selection.dependents.len(), 1);
    assert_eq!(selection.dependents[0].table_name, Some("review".to_string()));
    assert!(selection.dependents[0].predicate.is_none());
}

#[test]
fn the_last_template_with_a_column_is_the_owner() {
    let mut second = owner_template();
    second.table_name = Some("account".into());
    second.predicate = Some("seen".into());
    let templates = vec![owner_template(), dependent_template("review", "contact_id"), second];
    let selection = select_owner(&templates, "T");
    assert_eq!(selection.owner.table_name, Some("account".to_string()));
    assert_eq!(selection.owner.predicate, Some("seen<\"T\"".to_string()));
    assert_eq!(selection.dependents.len(), 1);
}

#[test]
fn without_an_owner_template_the_owner_is_empty() {
    let selection = select_owner(&vec![dependent_template("review", "contact_id")], "T");
    assert!(selection.owner.table_name.is_none());
    assert!(selection.owner.predicate.is_none());
    assert_eq!(selection.dependents.len(), 1);
    let selection = select_owner(&vec![], "T");
    assert!(selection.owner.transform_type.is_none());
    assert!(selection.dependents.is_empty());
}

#[test]
fn plan_selection_reads_the_clock() {
    let templates = vec![dependent_template("review", "contact_id"), owner_template()];
    let planned = plan_selection(&templates, 5).unwrap();
    assert_eq!(planned.cutoff.seconds, planned.now.seconds - 5 * 365 * 86_400);
    assert_eq!(planned.cutoff.nanos, planned.now.nanos);
    assert!(planned.now.seconds > 1_600_000_000);
    assert!(planned.cutoff_text.len() >= 26);
    assert_ne!(planned.cutoff_text, planned.cutoff.seconds.to_string());
    assert_eq!(
        planned.selection.owner.predicate,
        Some(format!("last_login_time<\"{}\"", planned.cutoff_text))
    );
    assert_eq!(planned.selection.dependents.len(), 1);
}

#[test]
fn plan_selection_refuses_an_age_out_of_range() {
    match plan_selection(&vec![owner_template()], i64::MAX) {
        Err(EngineError::InvalidInput(message)) => assert_eq!(message, "The age is out of range."),
        other => panic!("unexpected: {:?}", other),
    }
    match plan_selection(&vec![owner_template()], 1_000_000_000) {
        Err(EngineError::InvalidInput(message)) => assert_eq!(message, "The age is out of range."),
        other => panic!("unexpected: {:?}", other),
    }
}

#[test]
fn dependents_come_before_the_owner() {
    let mut owner = owner_template();
    owner.predicate = Some("last_login_time<\"T\"".into());
    let dependents = vec![dependent_template("review", "contact_id")];
    let plan = expand(&owner, &dependents, &vec![contact("19")]).unwrap();
    assert_eq!(
        summary(&plan),
        vec![
            ("review".to_string(), "contact_id=19".to_string()),
            ("contact_info".to_string(), "contact_id=19".to_string()),
        ]
    );
    let review = plan.iter().position(|t| t.table_name.as_deref() == Some("review")).unwrap();
    let contact = plan.iter().position(|t| t.table_name.as_deref() == Some("contact_info")).unwrap();
    assert!(review < contact);
    assert_eq!(plan[0].foreign_key, Some("contact_id".to_string()));
    assert_eq!(plan[0].transform_type, Some("removal".to_string()));
    assert!(plan[0].changes.is_none());
}

#[test]
fn all_dependents_come_before_all_owners() {
    let mut owner = owner_template();
    owner.predicate = Some("last_login_time<\"T\"".into());
    let dependents = vec![
        dependent_template("review", "contact_id"),
        dependent_template("paper", "name"),
    ];
    let rows = vec![contact("19"), contact("20"), contact("21")];
    let plan = expand(&owner, &dependents, &rows).unwrap();
    assert_eq!(
        summary(&plan),
        vec![
            ("review".to_string(), "contact_id=19".to_string()),
            ("paper".to_string(), "name=bea".to_string()),
            ("review".to_string(), "contact_id=20".to_string()),
            ("paper".to_string(), "name=bea".to_string()),
            ("review".to_string(), "contact_id=21".to_string()),
            ("paper".to_string(), "name=bea".to_string()),
            ("contact_info".to_string(), "contact_id=19".to_string()),
            ("contact_info".to_string(), "contact_id=20".to_string()),
            ("contact_info".to_string(), "contact_id=21".to_string()),
        ]
    );
}

#[test]
fn without_dependents_only_owners_are_planned() {
    let owner = owner_template();
    let plan = expand(&owner, &vec![], &vec![contact("1"), contact("2")]).unwrap();
    assert_eq!(
        summary(&plan),
        vec![
            ("contact_info".to_string(), "contact_id=1".to_string()),
            ("contact_info".to_string(), "contact_id=2".to_string()),
        ]
    );
    assert!(expand(&owner, &vec![], &vec![]).unwrap().is_empty());
}

#[test]
fn a_missing_foreign_key_is_invalid_input() {
    let owner = owner_template();
    let dependents = vec![dependent_template("review", "author_id")];
    match expand(&owner, &dependents, &vec![contact("19")]) {
        Err(EngineError::InvalidInput(message)) => assert_eq!(message, "A required field is missing."),
        other => panic!("unexpected: {:?}", other),
    }
    let mut unnamed = dependent_template("review", "contact_id");
    unnamed.foreign_key = None;
    assert!(matches!(expand_row(&contact("19"), &vec![unnamed]), Err(EngineError::InvalidInput(_))));
}

#[test]
fn a_broken_row_is_invalid_input() {
    let owner = owner_template();
    let mut row = contact("19");
    row.primary_key_index = Some(9);
    assert!(matches!(expand(&owner, &vec![], &vec![row]), Err(EngineError::InvalidInput(_))));
    let mut row = contact("19");
    row.fields = None;
    assert!(matches!(expand_row(&row, &vec![]), Err(EngineError::InvalidInput(_))));
}

#[test]
fn the_cutoff_lies_whole_years_before_now() {
    let one = cutoff_before_now(1);
    assert_eq!(one.cutoff.unwrap().seconds, one.now.seconds - 31_536_000);
    assert_eq!(one.cutoff.unwrap().nanos, one.now.nanos);
    let two = cutoff_before_now(2);
    assert_eq!(two.cutoff.unwrap().seconds, two.now.seconds - 63_072_000);
    assert!(two.now.seconds >= one.now.seconds);
    assert!(one.now.seconds > 1_600_000_000);
    let none = cutoff_before_now(0);
    assert_eq!(none.cutoff, Some(none.now));
    let far = cutoff_before_now(i64::MIN);
    assert_eq!(far.cutoff, None);
    assert!(far.now.seconds > 1_600_000_000);
}

#[test]
fn a_reading_with_a_writable_cutoff_is_planned() {
    let templates = vec![dependent_template("review", "contact_id"), owner_template()];
    let reading = Reading {
        now: Moment { seconds: 1_657_792_272, nanos: 0 },
        cutoff: Some(Moment { seconds: 1_500_112_272, nanos: 0 }),
    };
    let planned = plan_selection_at(&templates, reading).unwrap();
    assert_eq!(planned.now, reading.now);
    assert_eq!(Some(planned.cutoff), reading.cutoff);
    assert_eq!(planned.cutoff_text, local_time(Moment { seconds: 1_500_112_272, nanos: 0 }).unwrap());
    assert!(planned.cutoff_text.len() >= 26);
    assert!(planned.cutoff_text.starts_with("2017-07-1"));
    assert_eq!(
        planned.selection.owner.predicate,
        Some(format!("last_login_time<\"{}\"", planned.cutoff_text))
    );
    assert_eq!(planned.selection.dependents.len(), 1);
}

#[test]
fn a_reading_without_a_writable_cutoff_is_refused() {
    let now = Moment { seconds: 1_657_792_272, nanos: 0 };
    for cutoff in [None, Some(Moment { seconds: 253_402_300_800, nanos: 0 }), Some(Moment { seconds: 0, nanos: 2_000_000_000 })] {
        match plan_selection_at(&vec![owner_template()], Reading { now, cutoff }) {
            Err(EngineError::InvalidInput(message)) => assert_eq!(message, "The age is out of range."),
            other => panic!("unexpected: {:?}", other),
        }
    }
}

#[test]
fn moments_of_the_years_0_to_9999_are_written() {
    let text = local_time(Moment { seconds: 1_657_792_272, nanos: 0 }).unwrap();
    let expected = chrono::DateTime::from_timestamp(1_657_792_272, 0)
        .unwrap()
        .with_timezone(&chrono::Local)
        .to_string();
    assert_eq!(text, expected);
    assert!(text.chars().count() >= 26);
    assert!(local_time(Moment { seconds: -62_167_219_200, nanos: 0 }).unwrap().chars().count() >= 26);
    assert!(local_time(Moment { seconds: -62_167_219_200, nanos: 0 }).is_some());
    assert!(local_time(Moment { seconds: 253_402_300_799, nanos: 999_999_999 }).is_some());
    assert!(local_time(Moment { seconds: -62_167_219_201, nanos: 0 }).is_none());
    assert!(local_time(Moment { seconds: 253_402_300_800, nanos: 0 }).is_none());
    assert!(local_time(Moment { seconds: 0, nanos: 1_000_000_000 }).is_none());
}

#[test]
fn a_moment_is_written_at_an_offset() {
    let moment = Moment { seconds: 1_657_792_272, nanos: 0 };
    assert_eq!(time_at_offset(moment, 0).unwrap(), "2022-07-14 09:51:12 +00:00");
    assert_eq!(time_at_offset(moment, 7_200).unwrap(), "2022-07-14 11:51:12 +02:00");
    assert_eq!(time_at_offset(moment, -3_600).unwrap(), "2022-07-14 08:51:12 -01:00");
    assert_eq!(time_at_offset(moment, 86_399).unwrap(), "2022-07-15 09:51:11 +23:59:59");
    assert_eq!(
        time_at_offset(Moment { seconds: 1_657_792_272, nanos: 500_000_000 }, 19_800).unwrap(),
        "2022-07-14 15:21:12.500 +05:30"
    );
    assert_eq!(
        time_at_offset(Moment { seconds: 0, nanos: 1 }, 0).unwrap(),
        "1970-01-01 00:00:00.000000001 +00:00"
    );
    assert_eq!(
        time_at_offset(Moment { seconds: -62_167_219_200, nanos: 0 }, 0).unwrap(),
        "0000-01-01 00:00:00 +00:00"
    );
    assert_eq!(
        time_at_offset(Moment { seconds: 253_402_300_799, nanos: 0 }, 0).unwrap(),
        "9999-12-31 23:59:59 +00:00"
    );
}

#[test]
fn a_moment_is_not_written_at_an_offset_of_a_day() {
    let moment = Moment { seconds: 1_657_792_272, nanos: 0 };
    assert!(time_at_offset(moment, 86_400).is_none());
    assert!(time_at_offset(moment, -86_400).is_none());
    assert!(time_at_offset(moment, i32::MIN).is_none());
    assert!(time_at_offset(Moment { seconds: 253_402_300_800, nanos: 0 }, 0).is_none());
    assert!(time_at_offset(Moment { seconds: 0, nanos: 1_000_000_000 }, 0).is_none());
}

#[test]
fn the_local_time_is_the_notation_at_the_local_offset() {
    for seconds in [0i64, 1_657_792_272, 1_673_000_000, 253_402_300_799] {
        let moment = Moment { seconds, nanos: 250_000_000 };
        let offset = chrono::DateTime::from_timestamp(seconds, 250_000_000)
            .unwrap()
            .with_timezone(&chrono::Local)
            .offset()
            .local_minus_utc();
        assert_eq!(local_time(moment), time_at_offset(moment, offset));
    }
}
