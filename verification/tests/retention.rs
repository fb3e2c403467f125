use disguise_engine::error::EngineError;
use disguise_engine::models::vault::{DisguiseFromDB, Function};
use disguise_engine::retention::{decorrelations, Sweep, SweepAnswer, SweepStep};

fn header(id: i32) -> DisguiseFromDB {
    DisguiseFromDB {
        disguise_id: Some(id),
        time: Some("t".into()),
        vault_id: Some("19".into()),
        disguise_type: Some("userscrub".into()),
    }
}

fn function(id: i32, kind: &str, table: &str, predicate: &str) -> Function {
    Function {
        disguise_id: Some(id),
        function_type: Some(kind.to_string()),
        table_name: Some(table.to_string()),
        predicate: Some(predicate.to_string()),
        original: Some("1".into()),
        updated: Some("".into()),
    }
}

fn trace(sweep: &mut Sweep, functions: &dyn Fn(Option<i32>) -> Vec<Function>) -> Vec<String> {
    let mut steps = vec![];
    loop {
        match sweep.next() {
            SweepStep::ListFunctions(id) => {
                steps.push(format!("list {:?}", id));
                sweep.record(SweepAnswer::Functions(functions(id)));
            },
            SweepStep::PurgeRows(statement) => {
                steps.push(statement);
                sweep.record(SweepAnswer::Done);
            },
            SweepStep::ForgetFunctions(id) => {
                steps.push(format!("forget {:?}", id));
                sweep.record(SweepAnswer::Done);
            },
            SweepStep::ForgetDisguises => {
                steps.push("forget disguises".to_string());
                sweep.record(SweepAnswer::Done);
            },
            SweepStep::Finished => return steps,
            SweepStep::Aborted(error) => panic!("aborted: {:?}", error),
        }
    }
}

#[test]
fn only_decorrelations_are_purged() {
    let steps = vec![
        function(1, "decorrelation", "review", "review_id=1"),
        function(1, "removal", "contact_info", "contact_id=19"),
        function(1, "Decorrelation", "review", "review_id=2"),
        function(1, "modification", "log", "id=3"),
    ];
    let found = decorrelations(&steps);
    assert_eq!(found.len(), 2);
    assert_eq!(found[0].predicate, Some("review_id=1".to_string()));
    assert_eq!(found[1].predicate, Some("review_id=2".to_string()));
    let mut untyped = function(1, "decorrelation", "review", "review_id=1");
    untyped.function_type = None;
    assert!(decorrelations(&vec![untyped]).is_empty());
}

#[test]
fn target_rows_go_before_vault_records() {
    let mut sweep = Sweep::new(vec![header(1), header(2)]);
    let steps = trace(&mut sweep, &|id| match id {
        Some(1) => vec![
            function(1, "decorrelation", "review", "review_id=1"),
            function(1, "removal", "contact_info", "contact_id=19"),
            function(1, "decorrelation", "review", "review_id=2"),
        ],
        _ => vec![function(2, "decorrelation", "paper", "paper_id=8")],
    });
    assert_eq!(
        steps,
        vec![
            "list Some(1)",
            "DELETE FROM review WHERE review_id=1",
            "DELETE FROM review WHERE review_id=2",
            "forget Some(1)",
            "list Some(2)",
            "DELETE FROM paper WHERE paper_id=8",
            "forget Some(2)",
            "forget disguises",
        ]
    );
}

#[test]
fn a_sweep_of_nothing_only_clears_the_headers() {
    let mut sweep = Sweep::new(vec![]);
    assert_eq!(trace(&mut sweep, &|_| vec![]), vec!["forget disguises"]);
    sweep.record(SweepAnswer::Done);
    assert!(matches!(sweep.next(), SweepStep::Finished));
}

#[test]
fn a_disguise_without_decorrelations_is_only_forgotten() {
    let mut sweep = Sweep::new(vec![header(5)]);
    let steps = trace(&mut sweep, &|_| vec![function(5, "removal", "contact_info", "contact_id=19")]);
    assert_eq!(steps, vec!["list Some(5)", "forget Some(5)", "forget disguises"]);
}

#[test]
fn a_failure_of_a_store_ends_the_sweep() {
    let mut sweep = Sweep::new(vec![header(1)]);
    sweep.record(SweepAnswer::Functions(vec![function(1, "decorrelation", "review", "review_id=1")]));
    assert!(matches!(sweep.next(), SweepStep::PurgeRows(_)));
    sweep.record(SweepAnswer::Failed("gone".to_string()));
    match sweep.next() {
        SweepStep::Aborted(EngineError::Store(message)) => assert_eq!(message, "gone"),
        other => panic!("unexpected: {:?}", other),
    }
    sweep.record(SweepAnswer::Done);
    assert!(matches!(sweep.next(), SweepStep::Aborted(_)));
}

#[test]
fn a_decorrelation_without_predicate_ends_the_sweep() {
    let mut broken = function(1, "decorrelation", "review", "x");
    broken.predicate = None;
    let mut sweep = Sweep::new(vec![header(1)]);
    sweep.record(SweepAnswer::Functions(vec![broken]));
    match sweep.next() {
        SweepStep::Aborted(EngineError::InvalidInput(message)) => {
            assert_eq!(message, "A required field is missing.")
        },
        other => panic!("unexpected: {:?}", other),
    }
}

#[test]
fn sweep_ignores_an_answer_of_the_wrong_kind() {
    let mut sweep = Sweep::new(vec![header(1)]);
    sweep.record(SweepAnswer::Done);
    assert!(matches!(sweep.next(), SweepStep::ListFunctions(Some(1))));
    sweep.record(SweepAnswer::Functions(vec![function(1, "decorrelation", "review", "review_id=1")]));
    sweep.record(SweepAnswer::Functions(vec![]));
    assert!(matches!(sweep.next(), SweepStep::PurgeRows(_)));
}
