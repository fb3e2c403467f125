use disguise_engine::accessor::{Answer, Cell, ColumnDescription, Request, SemanticType, Snapshot};
use disguise_engine::error::EngineError;
use disguise_engine::executor::{Executor, Step, StoreReply};
use disguise_engine::ledger::{assemble, record_functions};
use disguise_engine::models::target::Target;
use disguise_engine::models::transformation::Transformation;
use disguise_engine::models::vault::{Disguise, DisguiseFromDB, Function};
use disguise_engine::planner::{expand, select_owner};
use disguise_engine::recovery::{Recovery, RecoveryAnswer, RecoveryStep};

#[derive(Clone, Debug, PartialEq)]
struct Table {
    name: String,
    columns: Vec<(String, String, String)>,
    references: Vec<(usize, String, usize)>,
    rows: Vec<Vec<String>>,
}

#[derive(Clone, Debug, PartialEq)]
struct Store {
    tables: Vec<Table>,
    log: Vec<String>,
}

fn unquote(text: &str) -> String {
    let text = text.trim();
    if text.len() >= 2 && text.starts_with('"') && text.ends_with('"') {
        text[1..text.len() - 1].to_string()
    } else {
        text.to_string()
    }
}

impl Store {
    fn table(&self, name: &str) -> Result<usize, String> {
        self.tables.iter().position(|t| t.name == name).ok_or(format!("no table {}", name))
    }

    fn column(&self, table: usize, name: &str) -> Result<usize, String> {
        self.tables[table]
            .columns
            .iter()
            .position(|c| c.0 == name)
            .ok_or(format!("no column {}", name))
    }

    fn matching(&self, table: usize, predicate: &str) -> Result<Vec<usize>, String> {
        let (at, less) = match (predicate.find('='), predicate.find('<')) {
            (Some(at), None) => (at, false),
            (None, Some(at)) => (at, true),
            _ => return Err(format!("bad predicate {}", predicate)),
        };
        let column = self.column(table, predicate[..at].trim())?;
        let value = unquote(&predicate[at + 1..]);
        if value.is_empty() {
            return Err(format!("bad predicate {}", predicate));
        }
        Ok(self.tables[table]
            .rows
            .iter()
            .enumerate()
            .filter(|(_, row)| if less { row[column] < value } else { row[column] == value })
            .map(|(i, _)| i)
            .collect())
    }

    fn holds_references(&self) -> bool {
        self.tables.iter().all(|t| {
            t.rows.iter().all(|row| {
                t.references.iter().all(|(column, parent, key)| {
                    let parent = &self.tables[self.table(parent).unwrap()];
                    parent.rows.iter().any(|p| p[*key] == row[*column])
                })
            })
        })
    }

    fn has_unique_keys(&self) -> bool {
        self.tables.iter().all(|t| {
            let key = t.columns.iter().position(|c| c.2 == "PRI").unwrap();
            t.rows.iter().enumerate().all(|(i, row)| t.rows[..i].iter().all(|r| r[key] != row[key]))
        })
    }

    fn change(&mut self, statement: &str) -> Result<u64, String> {
        self.log.push(statement.to_string());
        let mut next = self.clone();
        let affected = next.apply(statement)?;
        if !next.holds_references() {
            return Err("a foreign key constraint fails".to_string());
        }
        if !next.has_unique_keys() {
            return Err("duplicate entry for the primary key".to_string());
        }
        self.tables = next.tables;
        Ok(affected)
    }

    fn apply(&mut self, statement: &str) -> Result<u64, String> {
        if let Some(rest) = statement.strip_prefix("DELETE FROM ") {
            let (table, predicate) = rest.split_once(" WHERE ").ok_or("bad delete")?;
            let table = self.table(table)?;
            let rows = self.matching(table, predicate)?;
            for i in rows.iter().rev() {
                self.tables[table].rows.remove(*i);
            }
            Ok(rows.len() as u64)
        } else if let Some(rest) = statement.strip_prefix("UPDATE ") {
            let (table, rest) = rest.split_once(" SET ").ok_or("bad update")?;
            let (assignments, predicate) = rest.split_once(" WHERE ").ok_or("bad update")?;
            let table = self.table(table)?;
            let rows = self.matching(table, predicate)?;
            for assignment in assignments.split(',') {
                let (column, value) = assignment.split_once('=').ok_or("bad assignment")?;
                let column = self.column(table, column.trim())?;
                for i in &rows {
                    self.tables[table].rows[*i][column] = unquote(value);
                }
            }
            Ok(rows.len() as u64)
        } else if let Some(rest) = statement.strip_prefix("INSERT INTO ") {
            let (table, values) = rest.split_once(" VALUES (").ok_or("bad insert")?;
            let values = values.strip_suffix(')').ok_or("bad insert")?;
            let table = self.table(table)?;
            let row: Vec<String> = values.split(", ").map(unquote).collect();
            if row.len() != self.tables[table].columns.len() {
                return Err("column count does not match value count".to_string());
            }
            self.tables[table].rows.push(row);
            Ok(1)
        } else {
            Err(format!("bad statement {}", statement))
        }
    }

    fn describe(&self, statement: &str) -> Result<Vec<ColumnDescription>, String> {
        let table = self.table(statement.strip_prefix("DESC ").ok_or("bad describe")?)?;
        Ok(self.tables[table]
            .columns
            .iter()
            .map(|c| ColumnDescription { field: c.0.clone(), column_type: c.1.clone(), key: c.2.clone() })
            .collect())
    }

    fn select(&self, statement: &str, kinds: &Vec<SemanticType>) -> Result<Vec<Vec<Cell>>, String> {
        let rest = statement.strip_prefix("SELECT * FROM ").ok_or("bad select")?;
        let (table, predicate) = rest.split_once(" WHERE ").ok_or("bad select")?;
        let table = self.table(table)?;
        let rows = self.matching(table, predicate)?;
        Ok(rows
            .iter()
            .map(|i| {
                self.tables[table].rows[*i]
                    .iter()
                    .zip(kinds.iter())
                    .map(|(value, kind)| match kind {
                        SemanticType::Integer => Cell::Integer(value.parse().unwrap()),
                        SemanticType::Timestamp => Cell::Timestamp(value.clone()),
                        _ => Cell::Text(value.clone()),
                    })
                    .collect()
            })
            .collect())
    }
}

fn column(name: &str, kind: &str, key: &str) -> (String, String, String) {
    (name.to_string(), kind.to_string(), key.to_string())
}

fn row(values: &[&str]) -> Vec<String> {
    values.iter().map(|v| v.to_string()).collect()
}

fn store() -> Store {
    Store {
        tables: vec![
            Table {
                name: "contact_info".into(),
                columns: vec![
                    column("contact_id", "int", "PRI"),
                    column("name", "varchar(60)", ""),
                    column("last_login_time", "datetime", ""),
                ],
                references: vec![],
                rows: vec![
                    row(&["0", "placeholder", "2022-01-01 00:00:00 +00:00"]),
                    row(&["19", "bea", "2015-03-01 08:30:00 +00:00"]),
                    row(&["20", "cal", "2022-06-01 12:00:00 +00:00"]),
                ],
            },
            Table {
                name: "review".into(),
                columns: vec![
                    column("review_id", "int", "PRI"),
                    column("contact_id", "int", "MUL"),
                    column("content", "varchar(200)", ""),
                ],
                references: vec![(1, "contact_info".into(), 0)],
                rows: vec![
                    row(&["1", "19", "good"]),
                    row(&["2", "20", "fine"]),
                    row(&["3", "19", "bad"]),
                ],
            },
        ],
        log: vec![],
    }
}

fn transformation(kind: &str, table: &str, predicate: Option<&str>) -> Transformation {
    Transformation {
        transform_type: Some(kind.to_string()),
        table_name: Some(table.to_string()),
        predicate: predicate.map(|p| p.to_string()),
        foreign_key: None,
        changes: None,
    }
}

fn read_rows(store: &Store, batch: &Vec<Transformation>) -> Result<Vec<Vec<Target>>, EngineError> {
    let mut reading = Snapshot::new(batch);
    loop {
        match reading.next() {
            Request::Describe(statement) => reading.record(match store.describe(&statement) {
                Ok(listing) => Answer::Listing(listing),
                Err(message) => Answer::Failed(message),
            }),
            Request::Select { statement, columns } => {
                let kinds = columns.iter().map(|c| c.semantic_type).collect();
                reading.record(match store.select(&statement, &kinds) {
                    Ok(rows) => Answer::Rows(rows),
                    Err(message) => Answer::Failed(message),
                })
            },
            Request::Finished(snapshots) => return Ok(snapshots),
            Request::Aborted(error) => return Err(error),
        }
    }
}

fn execute(store: &mut Store, placeholder: &str, batch: &Vec<Transformation>) -> Result<Vec<String>, EngineError> {
    let mut run = Executor::new(placeholder, batch);
    loop {
        match run.next() {
            Step::Run(statement) => run.record(match store.change(&statement) {
                Ok(affected) => StoreReply::Affected(affected),
                Err(message) => StoreReply::Failed(message),
            }),
            Step::Finished(changes) => return Ok(changes),
            Step::Aborted(error) => return Err(error),
        }
    }
}

fn recover(store: &mut Store, disguise: &Disguise) -> Result<(), EngineError> {
    let mut recovery = Recovery::new(disguise)?;
    loop {
        match recovery.next() {
            RecoveryStep::Describe(statement) => recovery.record(match store.describe(&statement) {
                Ok(listing) => RecoveryAnswer::Columns(listing.into_iter().map(|c| c.field).collect()),
                Err(message) => RecoveryAnswer::Failed(message),
            }),
            RecoveryStep::Run(statement) => recovery.record(match store.change(&statement) {
                Ok(_) => RecoveryAnswer::Done,
                Err(message) => RecoveryAnswer::Failed(message),
            }),
            RecoveryStep::Finished => return Ok(()),
            RecoveryStep::Aborted(error) => return Err(error),
        }
    }
}

fn apply(store: &mut Store, placeholder: &str, batch: &Vec<Transformation>) -> Result<Disguise, EngineError> {
    let originals = read_rows(store, batch)?;
    let changes = execute(store, placeholder, batch)?;
    let functions = record_functions(Some(1), batch, &originals, &changes)?;
    let header = DisguiseFromDB {
        disguise_id: Some(1),
        time: Some("2022-07-14 10:11:12 +02:00".into()),
        vault_id: Some("19".into()),
        disguise_type: Some("userscrub".into()),
    };
    assemble(Some(header), functions)
}

fn user_scrub() -> Vec<Transformation> {
    vec![
        transformation("decorrelation", "review", Some("contact_id=19")),
        transformation("removal", "contact_info", Some("contact_id=19")),
    ]
}

#[test]
fn decorrelation_and_removal_are_undone() {
    let before = store();
    let mut target = before.clone();
    let disguise = apply(&mut target, "contact_id=0", &user_scrub()).unwrap();
    assert_eq!(target.tables[0].rows.len(), 2);
    assert_eq!(target.tables[1].rows, vec![row(&["1", "0", "good"]), row(&["2", "20", "fine"]), row(&["3", "0", "bad"])]);
    let functions = disguise.functions.as_ref().unwrap();
    assert_eq!(functions.len(), 3);
    assert_eq!(functions[0].predicate, Some("review_id=1".to_string()));
    assert_eq!(functions[1].predicate, Some("review_id=3".to_string()));
    assert_eq!(functions[2].predicate, Some("contact_id=19".to_string()));
    assert_eq!(functions[0].updated, Some("contact_id=0".to_string()));
    assert_eq!(functions[1].updated, Some("contact_id=0".to_string()));
    assert_eq!(functions[2].updated, Some("".to_string()));
    recover(&mut target, &disguise).unwrap();
    let mut restored = target.tables.clone();
    for table in restored.iter_mut() {
        table.rows.sort();
    }
    let mut expected = before.tables.clone();
    for table in expected.iter_mut() {
        table.rows.sort();
    }
    assert_eq!(restored, expected);
}

#[test]
fn modification_is_undone() {
    let before = store();
    let mut target = before.clone();
    let mut rename = transformation("modification", "contact_info", Some("contact_id=19"));
    rename.changes = Some("name=\"anon\"".into());
    let disguise = apply(&mut target, "contact_id=0", &vec![rename]).unwrap();
    assert_eq!(target.tables[0].rows[1], row(&["19", "anon", "2015-03-01 08:30:00 +00:00"]));
    assert_eq!(disguise.functions.as_ref().unwrap()[0].updated, Some("name=\"anon\"".to_string()));
    recover(&mut target, &disguise).unwrap();
    assert_eq!(target.tables, before.tables);
}

#[test]
fn replay_in_stored_order_breaks_the_references() {
    let mut target = store();
    let disguise = apply(&mut target, "contact_id=0", &user_scrub()).unwrap();
    let after = target.clone();
    let mut forward = disguise.clone();
    forward.functions.as_mut().unwrap().reverse();
    match recover(&mut target, &forward) {
        Err(EngineError::Store(message)) => assert_eq!(message, "a foreign key constraint fails"),
        other => panic!("unexpected: {:?}", other),
    }
    assert_eq!(target.tables, after.tables);
    recover(&mut target, &disguise).unwrap();
    assert!(target.holds_references());
    assert_eq!(target.tables[0].rows.len(), 3);
}

#[test]
fn the_first_failure_leaves_the_later_tables_alone() {
    let before = store();
    let mut target = before.clone();
    let mut rename = transformation("modification", "review", Some("contact_id=19"));
    rename.changes = Some("content=\"x\"".into());
    let batch = vec![transformation("removal", "contact_info", Some("contact_id=77")), rename];
    match execute(&mut target, "contact_id=0", &batch) {
        Err(EngineError::InvalidInput(message)) => assert_eq!(message, "The predicate is not correct."),
        other => panic!("unexpected: {:?}", other),
    }
    assert_eq!(target.tables, before.tables);
    assert_eq!(target.log, vec!["DELETE FROM contact_info WHERE contact_id=77".to_string()]);
}

#[test]
fn the_steps_before_a_failure_stay_applied() {
    let mut target = store();
    let batch = vec![
        transformation("decorrelation", "review", Some("contact_id=19")),
        transformation("removal", "contact_info", Some("contact_id=77")),
    ];
    assert!(matches!(execute(&mut target, "contact_id=0", &batch), Err(EngineError::InvalidInput(_))));
    assert_eq!(target.tables[1].rows[0], row(&["1", "0", "good"]));
    assert_eq!(target.tables[0].rows.len(), 3);
}

#[test]
fn reading_nothing_is_no_match() {
    let target = store();
    match read_rows(&target, &vec![transformation("removal", "contact_info", Some("contact_id=77"))]) {
        Err(EngineError::OperationError(message)) => assert_eq!(message, "No data fits the requirement."),
        other => panic!("unexpected: {:?}", other),
    }
    match read_rows(&target, &vec![transformation("removal", "contact_info", Some("contact_id="))]) {
        Err(EngineError::InvalidInput(message)) => {
            assert_eq!(message, "The input \"table\" or \"predicate\" is not correct.")
        },
        other => panic!("unexpected: {:?}", other),
    }
}

#[test]
fn expiration_removes_old_accounts_after_their_reviews() {
    let before = store();
    let mut target = before.clone();
    let mut dependent = transformation("removal", "review", None);
    dependent.foreign_key = Some("contact_id".into());
    let owner = transformation("removal", "contact_info", Some("last_login_time"));
    let selection = select_owner(&vec![dependent, owner], "2017-07-15 10:11:12 +00:00");
    let owners = read_rows(&target, &vec![selection.owner.clone()]).unwrap();
    assert_eq!(owners[0].len(), 1);
    let plan = expand(&selection.owner, &selection.dependents, &owners[0]).unwrap();
    let summary: Vec<(String, String)> = plan
        .iter()
        .map(|t| (t.table_name.clone().unwrap(), t.predicate.clone().unwrap()))
        .collect();
    assert_eq!(
        summary,
        vec![
            ("review".to_string(), "contact_id=19".to_string()),
            ("contact_info".to_string(), "contact_id=19".to_string()),
        ]
    );
    let disguise = apply(&mut target, "contact_id=0", &plan).unwrap();
    assert_eq!(target.tables[0].rows.len(), 2);
    assert_eq!(target.tables[1].rows, vec![row(&["2", "20", "fine"])]);
    assert!(target.holds_references());
    let functions: &Vec<Function> = disguise.functions.as_ref().unwrap();
    assert_eq!(functions.len(), 3);
    assert_eq!(functions[0].predicate, Some("review_id=1".to_string()));
    assert_eq!(functions[1].predicate, Some("review_id=3".to_string()));
    recover(&mut target, &disguise).unwrap();
    assert!(target.holds_references());
    assert_eq!(target.tables[0].rows.len(), 3);
    assert_eq!(target.tables[1].rows.len(), 3);
    let mut reviews = target.tables[1].rows.clone();
    reviews.sort();
    assert_eq!(reviews, before.tables[1].rows);
}

#[test]
fn owner_before_dependents_would_break_the_references() {
    let mut target = store();
    let batch = vec![
        transformation("removal", "contact_info", Some("contact_id=19")),
        transformation("removal", "review", Some("contact_id=19")),
    ];
    match execute(&mut target, "contact_id=0", &batch) {
        Err(EngineError::Store(message)) => assert_eq!(message, "a foreign key constraint fails"),
        other => panic!("unexpected: {:?}", other),
    }
}
