use game_catalog::clock::SaveTime;
use game_catalog::statement::{Fault, Reply, Statement};
use game_catalog::records::OS;
use game_catalog::rows::{
    DbFileHash, DbGameExecutable, DbGameMetadata, DbGameName, DbGamePath, DbGameSave,
};
use game_catalog::store::MemoryStore;

fn game(name: &str) -> DbGameMetadata {
    DbGameMetadata { id: None, steam_appid: None, default_name: name.to_string() }
}

fn save(uuid: &str, path_id: i32) -> DbGameSave {
    DbGameSave {
        uuid: uuid.to_string(),
        path_id,
        time: SaveTime { year: 2020, month: 2, day: 29, hour: 1, minute: 2, second: 3, nanosecond: 4 },
    }
}

fn refused() -> Reply {
    Reply::Failed(Fault::Rejected)
}

#[test]
fn identifiers_count_from_one() {
    let mut store = MemoryStore::new();
    assert_eq!(store.execute(&Statement::InsertGame(game("A"))), Reply::Inserted(Some(1)));
    assert_eq!(store.execute(&Statement::InsertGame(game("B"))), Reply::Inserted(Some(2)));
    assert_eq!(
        store.execute(&Statement::GameById(2)),
        Reply::Game(Some(DbGameMetadata { id: Some(2), ..game("B") }))
    );
    assert_eq!(store.execute(&Statement::GameById(3)), Reply::Game(None));
    assert_eq!(store.execute(&Statement::GameById(0)), Reply::Game(None));
}

#[test]
fn row_that_brings_its_identifier_is_refused() {
    let mut store = MemoryStore::new();
    let with_id = DbGameMetadata { id: Some(9), ..game("A") };
    assert_eq!(store.execute(&Statement::InsertGame(with_id)), refused());
    assert_eq!(store.execute(&Statement::AllGames), Reply::Games(vec![]));
    assert_eq!(store.execute(&Statement::InsertGame(game("A"))), Reply::Inserted(Some(1)));
    let path = DbGamePath {
        id: Some(1),
        path: "/p".to_string(),
        operating_system: OS::Linux,
        game_metadata_id: 1,
    };
    assert_eq!(store.execute(&Statement::InsertPath(path)), refused());
    let executable = DbGameExecutable {
        id: Some(1),
        executable: "x".to_string(),
        operating_system: OS::Linux,
        game_metadata_id: 1,
    };
    assert_eq!(store.execute(&Statement::InsertExecutable(executable)), refused());
    assert_eq!(store.execute(&Statement::PathsByGame(1)), Reply::Paths(vec![]));
    assert_eq!(store.execute(&Statement::ExecutablesByGame(1)), Reply::Executables(vec![]));
}

#[test]
fn alias_of_unknown_game_is_refused_with_its_whole_batch() {
    let mut store = MemoryStore::new();
    assert_eq!(store.execute(&Statement::InsertGame(game("A"))), Reply::Inserted(Some(1)));
    let rows = vec![
        DbGameName { name: "a".to_string(), game_metadata_id: 1 },
        DbGameName { name: "b".to_string(), game_metadata_id: 2 },
    ];
    assert_eq!(store.execute(&Statement::InsertAltNames(rows)), refused());
    assert_eq!(store.execute(&Statement::AltNamesOf(vec![1, 2])), Reply::NameLists(vec![vec![], vec![]]));
    let rows = vec![
        DbGameName { name: "a".to_string(), game_metadata_id: 1 },
        DbGameName { name: "b".to_string(), game_metadata_id: 1 },
    ];
    assert_eq!(store.execute(&Statement::InsertAltNames(rows)), Reply::Done);
    assert_eq!(
        store.execute(&Statement::AltNamesOf(vec![2, 1, 1])),
        Reply::NameLists(vec![
            vec![],
            vec!["a".to_string(), "b".to_string()],
            vec!["a".to_string(), "b".to_string()],
        ])
    );
    assert_eq!(store.execute(&Statement::AltNamesOf(vec![])), Reply::NameLists(vec![]));
}

#[test]
fn digest_of_unknown_snapshot_is_refused_with_its_whole_batch() {
    let mut store = MemoryStore::new();
    assert_eq!(store.execute(&Statement::InsertSave(save("s", 1))), Reply::Done);
    let file = |uuid: &str, path: &str| DbFileHash {
        relative_path: path.to_string(),
        hash: "h".to_string(),
        game_save_uuid: uuid.to_string(),
    };
    assert_eq!(
        store.execute(&Statement::InsertFileHashes(vec![file("s", "a"), file("t", "b")])),
        refused()
    );
    assert_eq!(
        store.execute(&Statement::FileHashesOf(vec!["s".to_string()])),
        Reply::FileHashLists(vec![vec![]])
    );
    assert_eq!(
        store.execute(&Statement::InsertFileHashes(vec![file("s", "a"), file("s", "b")])),
        Reply::Done
    );
    assert_eq!(
        store.execute(&Statement::FileHashesOf(vec!["t".to_string(), "s".to_string()])),
        Reply::FileHashLists(vec![vec![], vec![file("s", "a"), file("s", "b")]])
    );
}

#[test]
fn snapshot_identifier_is_unique() {
    let mut store = MemoryStore::new();
    assert_eq!(store.execute(&Statement::InsertSave(save("s", 1))), Reply::Done);
    assert_eq!(store.execute(&Statement::InsertSave(save("s", 2))), refused());
    assert_eq!(store.execute(&Statement::InsertSave(save("S", 2))), Reply::Done);
    assert_eq!(store.execute(&Statement::SavesByPath(1)), Reply::Saves(vec![save("s", 1)]));
    assert_eq!(store.execute(&Statement::SavesByPath(2)), Reply::Saves(vec![save("S", 2)]));
}

#[test]
fn rollback_undoes_and_commit_keeps() {
    let mut store = MemoryStore::new();
    assert_eq!(store.execute(&Statement::InsertGame(game("kept"))), Reply::Inserted(Some(1)));
    assert_eq!(store.execute(&Statement::Begin), Reply::Done);
    assert_eq!(store.execute(&Statement::InsertGame(game("undone"))), Reply::Inserted(Some(2)));
    assert_eq!(store.execute(&Statement::InsertSave(save("s", 1))), Reply::Done);
    assert_eq!(store.execute(&Statement::Rollback), Reply::Done);
    assert_eq!(
        store.execute(&Statement::AllGames),
        Reply::Games(vec![DbGameMetadata { id: Some(1), ..game("kept") }])
    );
    assert_eq!(store.execute(&Statement::SavesByPath(1)), Reply::Saves(vec![]));
    assert_eq!(store.execute(&Statement::Begin), Reply::Done);
    assert_eq!(store.execute(&Statement::InsertGame(game("second"))), Reply::Inserted(Some(2)));
    assert_eq!(store.execute(&Statement::Commit), Reply::Done);
    assert_eq!(
        store.execute(&Statement::GamesByName("second".to_string())),
        Reply::Games(vec![DbGameMetadata { id: Some(2), ..game("second") }])
    );
}

#[test]
fn transactions_do_not_nest() {
    let mut store = MemoryStore::new();
    assert_eq!(store.execute(&Statement::Commit), refused());
    assert_eq!(store.execute(&Statement::Rollback), refused());
    assert_eq!(store.execute(&Statement::Begin), Reply::Done);
    assert_eq!(store.execute(&Statement::Begin), refused());
    assert_eq!(store.execute(&Statement::Commit), Reply::Done);
    assert_eq!(store.execute(&Statement::Commit), refused());
    assert_eq!(store.execute(&Statement::Begin), Reply::Done);
    assert_eq!(store.execute(&Statement::Rollback), Reply::Done);
    assert_eq!(store.execute(&Statement::Rollback), refused());
}

#[test]
fn texts_are_selected_by_game_and_operating_system() {
    let mut store = MemoryStore::new();
    assert_eq!(store.execute(&Statement::InsertGame(game("A"))), Reply::Inserted(Some(1)));
    assert_eq!(store.execute(&Statement::InsertGame(game("B"))), Reply::Inserted(Some(2)));
    let path = |text: &str, os: OS, game: i32| DbGamePath {
        id: None,
        path: text.to_string(),
        operating_system: os,
        game_metadata_id: game,
    };
    for row in [
        path("w1", OS::Windows, 1),
        path("l1", OS::Linux, 1),
        path("l2", OS::Linux, 2),
        path("l3", OS::Linux, 1),
    ] {
        assert_eq!(store.execute(&Statement::InsertPath(row)), Reply::Done);
    }
    assert_eq!(
        store.execute(&Statement::PathTextsByGameAndOs(1, OS::Linux)),
        Reply::Texts(vec!["l1".to_string(), "l3".to_string()])
    );
    assert_eq!(
        store.execute(&Statement::PathTextsByGameAndOs(1, OS::Windows)),
        Reply::Texts(vec!["w1".to_string()])
    );
    assert_eq!(store.execute(&Statement::PathTextsByGameAndOs(2, OS::Windows)), Reply::Texts(vec![]));
    assert_eq!(
        store.execute(&Statement::PathsByGame(2)),
        Reply::Paths(vec![DbGamePath { id: Some(3), ..path("l2", OS::Linux, 2) }])
    );
    assert_eq!(store.execute(&Statement::ExecutableTextsByGameAndOs(1, OS::Linux)), Reply::Texts(vec![]));
}
