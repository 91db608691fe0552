use game_catalog::clock::SaveTime;
use game_catalog::plan::{Answer, CatalogError, Request, Step, Task};
use game_catalog::statement::{Fault, Reply, Statement};
use game_catalog::records::{
    FileHash, GameMetadata, GameMetadataCreate, SavePathCreate, SaveReference, OS,
};
use game_catalog::rows::{DbFileHash, DbGameMetadata, DbGameName, DbGamePath, DbGameSave};
use game_catalog::store::MemoryStore;

fn foo() -> GameMetadataCreate {
    GameMetadataCreate {
        known_name: vec!["F".to_string(), "Foo Deluxe".to_string()],
        steam_appid: Some("42".to_string()),
        default_name: "Foo".to_string(),
    }
}

fn noon() -> SaveTime {
    SaveTime { year: 2019, month: 1, day: 1, hour: 12, minute: 0, second: 0, nanosecond: 0 }
}

fn expect_run(step: Step, statement: Statement) -> Task {
    match step {
        Step::Run(asked, task) => {
            assert_eq!(asked, statement);
            task
        }
        Step::Finish(outcome) => panic!("the plan ended with {:?}", outcome),
    }
}

fn game_row(id: Option<i32>, name: &str) -> DbGameMetadata {
    DbGameMetadata { id, steam_appid: None, default_name: name.to_string() }
}

#[test]
fn add_game_asks_for_its_statements_in_order() {
    let task = expect_run(Request::AddGameMetadata(foo()).start(), Statement::Begin);
    let task = expect_run(
        task.advance(Reply::Done),
        Statement::InsertGame(DbGameMetadata {
            id: None,
            steam_appid: Some("42".to_string()),
            default_name: "Foo".to_string(),
        }),
    );
    let task = expect_run(
        task.advance(Reply::Inserted(Some(5))),
        Statement::InsertAltNames(vec![
            DbGameName { name: "F".to_string(), game_metadata_id: 5 },
            DbGameName { name: "Foo Deluxe".to_string(), game_metadata_id: 5 },
        ]),
    );
    let task = expect_run(task.advance(Reply::Done), Statement::Commit);
    assert_eq!(task.advance(Reply::Done), Step::Finish(Ok(Answer::Registered(5))));
}

#[test]
fn add_game_without_aliases_inserts_no_alias() {
    let record = GameMetadataCreate { known_name: vec![], ..foo() };
    let task = expect_run(Request::AddGameMetadata(record).start(), Statement::Begin);
    let task = match task.advance(Reply::Done) {
        Step::Run(Statement::InsertGame(_), task) => task,
        other => panic!("{:?}", other),
    };
    let task = expect_run(task.advance(Reply::Inserted(Some(1))), Statement::Commit);
    assert_eq!(task.advance(Reply::Done), Step::Finish(Ok(Answer::Registered(1))));
}

#[test]
fn failed_alias_insert_leaves_no_game() {
    let mut store = MemoryStore::new();
    let mut step = Request::AddGameMetadata(foo()).start();
    let mut forced = false;
    let outcome = loop {
        match step {
            Step::Finish(outcome) => break outcome,
            Step::Run(statement, task) => {
                let reply = match statement {
                    Statement::InsertAltNames(_) => {
                        // The game row is there at this point.
                        match store.execute(&Statement::AllGames) {
                            Reply::Games(rows) => assert_eq!(rows.len(), 1),
                            other => panic!("{:?}", other),
                        }
                        forced = true;
                        Reply::Failed(Fault::Rejected)
                    }
                    other => store.execute(&other),
                };
                step = task.advance(reply);
            }
        }
    };
    assert!(forced);
    assert_eq!(outcome, Err(CatalogError::Storage));
    assert_eq!(store.execute(&Statement::AllGames), Reply::Games(vec![]));
    assert_eq!(store.execute(&Statement::AltNamesOf(vec![1])), Reply::NameLists(vec![vec![]]));
    // No transaction is left open.
    assert_eq!(store.execute(&Statement::Rollback), Reply::Failed(Fault::Rejected));
}

#[test]
fn failed_file_hash_insert_leaves_no_snapshot() {
    let mut store = MemoryStore::new();
    let request = Request::AddSave {
        uuid: "abc".to_string(),
        path_id: 7,
        time: noon(),
        files: vec![FileHash { relative_path: "a".to_string(), hash: "1".to_string() }],
    };
    let mut step = request.start();
    let outcome = loop {
        match step {
            Step::Finish(outcome) => break outcome,
            Step::Run(statement, task) => {
                let reply = match statement {
                    Statement::InsertFileHashes(_) => Reply::Failed(Fault::Unreachable),
                    other => store.execute(&other),
                };
                step = task.advance(reply);
            }
        }
    };
    assert_eq!(outcome, Err(CatalogError::Connection));
    assert_eq!(store.execute(&Statement::SavesByPath(7)), Reply::Saves(vec![]));
}

#[test]
fn unresolved_identifier_is_a_breach_of_integrity() {
    let task = expect_run(Request::AddGameMetadata(foo()).start(), Statement::Begin);
    let task = match task.advance(Reply::Done) {
        Step::Run(Statement::InsertGame(_), task) => task,
        other => panic!("{:?}", other),
    };
    let task = expect_run(task.advance(Reply::Inserted(None)), Statement::Rollback);
    assert_eq!(task.advance(Reply::Done), Step::Finish(Err(CatalogError::Integrity)));
}

#[test]
fn insert_that_brings_no_identifier_is_a_breach_of_integrity() {
    let task = expect_run(Request::AddGameMetadata(foo()).start(), Statement::Begin);
    let task = match task.advance(Reply::Done) {
        Step::Run(Statement::InsertGame(_), task) => task,
        other => panic!("{:?}", other),
    };
    let task = expect_run(task.advance(Reply::Done), Statement::Rollback);
    assert_eq!(task.advance(Reply::Done), Step::Finish(Err(CatalogError::Integrity)));
}

#[test]
fn failed_game_insert_is_rolled_back() {
    let task = expect_run(Request::AddGameMetadata(foo()).start(), Statement::Begin);
    let task = match task.advance(Reply::Done) {
        Step::Run(Statement::InsertGame(_), task) => task,
        other => panic!("{:?}", other),
    };
    let task = expect_run(task.advance(Reply::Failed(Fault::Rejected)), Statement::Rollback);
    assert_eq!(task.advance(Reply::Done), Step::Finish(Err(CatalogError::Storage)));
}

#[test]
fn unreachable_store_is_a_connection_error() {
    let task = expect_run(Request::AddGameMetadata(foo()).start(), Statement::Begin);
    assert_eq!(
        task.advance(Reply::Failed(Fault::Unreachable)),
        Step::Finish(Err(CatalogError::Connection))
    );
    let task = expect_run(Request::PathsByGame(1).start(), Statement::PathsByGame(1));
    assert_eq!(
        task.advance(Reply::Failed(Fault::Unreachable)),
        Step::Finish(Err(CatalogError::Connection))
    );
}

#[test]
fn refused_statement_is_a_storage_error() {
    let path = SavePathCreate { path: "/p".to_string(), operating_system: OS::Linux };
    let task = expect_run(
        Request::AddGamePath(3, path).start(),
        Statement::InsertPath(DbGamePath {
            id: None,
            path: "/p".to_string(),
            operating_system: OS::Linux,
            game_metadata_id: 3,
        }),
    );
    assert_eq!(
        task.advance(Reply::Failed(Fault::Rejected)),
        Step::Finish(Err(CatalogError::Storage))
    );
    let task = expect_run(Request::AddGameMetadata(foo()).start(), Statement::Begin);
    assert_eq!(
        task.advance(Reply::Failed(Fault::Rejected)),
        Step::Finish(Err(CatalogError::Storage))
    );
}

#[test]
fn failed_commit_is_rolled_back() {
    let task = expect_run(Request::GameMetadataById(1).start(), Statement::Begin);
    let task = expect_run(task.advance(Reply::Done), Statement::GameById(1));
    let task = expect_run(task.advance(Reply::Game(None)), Statement::Commit);
    let task = expect_run(task.advance(Reply::Failed(Fault::Rejected)), Statement::Rollback);
    assert_eq!(
        task.advance(Reply::Failed(Fault::Rejected)),
        Step::Finish(Err(CatalogError::Storage))
    );
}

#[test]
fn game_row_without_identifier_is_not_found() {
    let task = expect_run(Request::GameMetadataById(4).start(), Statement::Begin);
    let task = expect_run(task.advance(Reply::Done), Statement::GameById(4));
    let task = expect_run(
        task.advance(Reply::Game(Some(game_row(None, "Ghost")))),
        Statement::Commit,
    );
    assert_eq!(task.advance(Reply::Done), Step::Finish(Ok(Answer::Game(None))));
}

#[test]
fn game_by_id_is_hydrated_with_its_aliases() {
    let task = expect_run(Request::GameMetadataById(4).start(), Statement::Begin);
    let task = expect_run(task.advance(Reply::Done), Statement::GameById(4));
    let task = expect_run(
        task.advance(Reply::Game(Some(game_row(Some(4), "Foo")))),
        Statement::AltNamesOf(vec![4]),
    );
    let task = expect_run(
        task.advance(Reply::NameLists(vec![vec!["F".to_string()]])),
        Statement::Commit,
    );
    assert_eq!(
        task.advance(Reply::Done),
        Step::Finish(Ok(Answer::Game(Some(GameMetadata {
            id: Some(4),
            metadata: GameMetadataCreate {
                known_name: vec!["F".to_string()],
                steam_appid: None,
                default_name: "Foo".to_string(),
            },
        }))))
    );
}

#[test]
fn listed_game_without_identifier_is_a_breach_of_integrity() {
    let task = expect_run(Request::AllGameMetadata.start(), Statement::Begin);
    let task = expect_run(task.advance(Reply::Done), Statement::AllGames);
    let rows = vec![game_row(Some(1), "A"), game_row(None, "B")];
    let task = expect_run(task.advance(Reply::Games(rows)), Statement::Rollback);
    assert_eq!(task.advance(Reply::Done), Step::Finish(Err(CatalogError::Integrity)));
}

#[test]
fn alias_lists_of_wrong_number_are_a_breach_of_integrity() {
    let task = expect_run(
        Request::GameMetadataByName("A".to_string()).start(),
        Statement::Begin,
    );
    let task = expect_run(task.advance(Reply::Done), Statement::GamesByName("A".to_string()));
    let rows = vec![game_row(Some(1), "A"), game_row(Some(3), "A")];
    let task = expect_run(task.advance(Reply::Games(rows)), Statement::AltNamesOf(vec![1, 3]));
    let task = expect_run(task.advance(Reply::NameLists(vec![vec![]])), Statement::Rollback);
    assert_eq!(task.advance(Reply::Done), Step::Finish(Err(CatalogError::Integrity)));
}

#[test]
fn reply_of_another_kind_is_a_breach_of_integrity() {
    let task = expect_run(Request::PathsByGameAndOs(1, OS::Linux).start(),
        Statement::PathTextsByGameAndOs(1, OS::Linux));
    assert_eq!(task.advance(Reply::Done), Step::Finish(Err(CatalogError::Integrity)));
    let task = expect_run(Request::SavesByPath(1).start(), Statement::Begin);
    let task = expect_run(task.advance(Reply::Done), Statement::SavesByPath(1));
    let task = expect_run(task.advance(Reply::Texts(vec![])), Statement::Rollback);
    assert_eq!(task.advance(Reply::Done), Step::Finish(Err(CatalogError::Integrity)));
}

#[test]
fn snapshots_are_grouped_by_their_rows() {
    let task = expect_run(Request::SavesByPath(7).start(), Statement::Begin);
    let task = expect_run(task.advance(Reply::Done), Statement::SavesByPath(7));
    let saves = vec![
        DbGameSave { uuid: "a".to_string(), path_id: 7, time: noon() },
        DbGameSave { uuid: "b".to_string(), path_id: 7, time: noon() },
    ];
    let task = expect_run(
        task.advance(Reply::Saves(saves)),
        Statement::FileHashesOf(vec!["a".to_string(), "b".to_string()]),
    );
    let lists = vec![
        vec![],
        vec![DbFileHash {
            relative_path: "s1.dat".to_string(),
            hash: "h1".to_string(),
            game_save_uuid: "b".to_string(),
        }],
    ];
    let task = expect_run(task.advance(Reply::FileHashLists(lists)), Statement::Commit);
    assert_eq!(
        task.advance(Reply::Done),
        Step::Finish(Ok(Answer::Saves(Some(vec![
            SaveReference {
                uuid: "a".to_string(),
                path_id: 7,
                time: 1_546_344_000,
                files_hash: vec![],
            },
            SaveReference {
                uuid: "b".to_string(),
                path_id: 7,
                time: 1_546_344_000,
                files_hash: vec![FileHash {
                    relative_path: "s1.dat".to_string(),
                    hash: "h1".to_string(),
                }],
            },
        ]))))
    );
}

#[test]
fn no_snapshot_rows_give_an_absent_result() {
    let task = expect_run(Request::SavesByPath(7).start(), Statement::Begin);
    let task = expect_run(task.advance(Reply::Done), Statement::SavesByPath(7));
    let task = expect_run(task.advance(Reply::Saves(vec![])), Statement::Commit);
    assert_eq!(task.advance(Reply::Done), Step::Finish(Ok(Answer::Saves(None))));
}

#[test]
fn snapshot_row_at_no_real_moment_is_a_breach_of_integrity() {
    let task = expect_run(Request::SavesByPath(7).start(), Statement::Begin);
    let task = expect_run(task.advance(Reply::Done), Statement::SavesByPath(7));
    let never = SaveTime { month: 13, ..noon() };
    let saves = vec![DbGameSave { uuid: "a".to_string(), path_id: 7, time: never }];
    let task = expect_run(
        task.advance(Reply::Saves(saves)),
        Statement::FileHashesOf(vec!["a".to_string()]),
    );
    let task = expect_run(task.advance(Reply::FileHashLists(vec![vec![]])), Statement::Rollback);
    assert_eq!(task.advance(Reply::Done), Step::Finish(Err(CatalogError::Integrity)));
}

#[test]
fn snapshot_without_files_inserts_no_digest() {
    let request =
        Request::AddSave { uuid: "abc".to_string(), path_id: 7, time: noon(), files: vec![] };
    let task = expect_run(request.start(), Statement::Begin);
    let task = expect_run(
        task.advance(Reply::Done),
        Statement::InsertSave(DbGameSave { uuid: "abc".to_string(), path_id: 7, time: noon() }),
    );
    let task = expect_run(task.advance(Reply::Done), Statement::Commit);
    assert_eq!(task.advance(Reply::Done), Step::Finish(Ok(Answer::Done)));
}

#[test]
fn snapshot_with_files_tags_each_digest() {
    let request = Request::AddSave {
        uuid: "abc".to_string(),
        path_id: 7,
        time: noon(),
        files: vec![
            FileHash { relative_path: "a".to_string(), hash: "1".to_string() },
            FileHash { relative_path: "b".to_string(), hash: "2".to_string() },
        ],
    };
    let task = expect_run(request.start(), Statement::Begin);
    let task = match task.advance(Reply::Done) {
        Step::Run(Statement::InsertSave(_), task) => task,
        other => panic!("{:?}", other),
    };
    let task = expect_run(
        task.advance(Reply::Done),
        Statement::InsertFileHashes(vec![
            DbFileHash {
                relative_path: "a".to_string(),
                hash: "1".to_string(),
                game_save_uuid: "abc".to_string(),
            },
            DbFileHash {
                relative_path: "b".to_string(),
                hash: "2".to_string(),
                game_save_uuid: "abc".to_string(),
            },
        ]),
    );
    let task = expect_run(task.advance(Reply::Done), Statement::Commit);
    assert_eq!(task.advance(Reply::Done), Step::Finish(Ok(Answer::Done)));
}

#[test]
fn single_statements_run_outside_a_transaction() {
    assert!(!Request::PathsByGame(1).in_transaction());
    assert!(!Request::PathsByGameAndOs(1, OS::Linux).in_transaction());
    assert!(!Request::ExecutablesByGame(1).in_transaction());
    assert!(!Request::ExecutablesByGameAndOs(1, OS::Windows).in_transaction());
    assert!(Request::AddGameMetadata(foo()).in_transaction());
    assert!(Request::GameMetadataById(1).in_transaction());
    assert!(Request::GameMetadataByName("x".to_string()).in_transaction());
    assert!(Request::AllGameMetadata.in_transaction());
    assert!(Request::SavesByPath(1).in_transaction());
    let task = expect_run(
        Request::ExecutablesByGameAndOs(2, OS::Windows).start(),
        Statement::ExecutableTextsByGameAndOs(2, OS::Windows),
    );
    assert_eq!(
        task.advance(Reply::Texts(vec!["a.exe".to_string()])),
        Step::Finish(Ok(Answer::Locations(vec!["a.exe".to_string()])))
    );
}
