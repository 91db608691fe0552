use game_catalog::clock::SaveTime;
use game_catalog::ident::SaveUuid;
use game_catalog::interface::GameDatabase;
use game_catalog::plan::CatalogError;
use game_catalog::records::{
    Executable, ExecutableCreate, FileHash, GameMetadata, GameMetadataCreate, SavePath,
    SavePathCreate, SaveReference, OS,
};

fn game(default_name: &str, known_name: &[&str], steam_appid: Option<&str>) -> GameMetadataCreate {
    GameMetadataCreate {
        known_name: known_name.iter().map(|name| name.to_string()).collect(),
        steam_appid: steam_appid.map(|id| id.to_string()),
        default_name: default_name.to_string(),
    }
}

fn path(path: &str, operating_system: OS) -> SavePathCreate {
    SavePathCreate { path: path.to_string(), operating_system }
}

fn executable(executable: &str, operating_system: OS) -> ExecutableCreate {
    ExecutableCreate { executable: executable.to_string(), operating_system }
}

fn file(relative_path: &str, hash: &str) -> FileHash {
    FileHash { relative_path: relative_path.to_string(), hash: hash.to_string() }
}

fn new_year_2019() -> SaveTime {
    SaveTime { year: 2019, month: 1, day: 1, hour: 0, minute: 0, second: 0, nanosecond: 0 }
}

#[test]
fn scenario_game_path_and_snapshot() {
    let mut database = GameDatabase::new();
    assert_eq!(database.add_game_metadata(&game("Foo", &["F", "Foo Deluxe"], None)), Ok(1));
    let foo = database.get_game_metadata_by_name("Foo").unwrap();
    assert_eq!(foo.len(), 1);
    assert_eq!(foo[0].id, Some(1));
    for i in 0..6 {
        database.add_game_path(1, &path(&format!("/other/{}", i), OS::Windows)).unwrap();
    }
    database.add_game_path(1, &path("/save/foo", OS::Linux)).unwrap();
    let paths = database.get_paths_by_game_id(1).unwrap();
    assert_eq!(paths.len(), 7);
    assert_eq!(paths[6], SavePath { id: Some(7), path: path("/save/foo", OS::Linux) });
    database
        .record_save("abc".to_string(), 7, new_year_2019(), vec![file("s1.dat", "h1")])
        .unwrap();
    let saves = database.get_reference_to_save_by_path_id(7).unwrap();
    assert_eq!(
        saves,
        Some(vec![SaveReference {
            uuid: "abc".to_string(),
            path_id: 7,
            time: 1_546_300_800,
            files_hash: vec![file("s1.dat", "h1")],
        }])
    );
}

#[test]
fn registered_game_reads_back_by_id() {
    let mut database = GameDatabase::new();
    let first = game("Half-Life", &[], Some("70"));
    let second = game("Portal", &["Portal 1", "portal", "Portal: Still Alive"], Some("400"));
    assert_eq!(database.add_game_metadata(&first), Ok(1));
    let id = database.add_game_metadata(&second).unwrap();
    assert_eq!(id, 2);
    assert_eq!(
        database.get_game_metadata_by_id(&id).unwrap(),
        Some(GameMetadata { id: Some(id), metadata: second.clone() })
    );
    assert_eq!(
        database.get_game_metadata_by_id(&1).unwrap(),
        Some(GameMetadata { id: Some(1), metadata: first.clone() })
    );
}

#[test]
fn game_without_aliases_reads_back_with_none() {
    let mut database = GameDatabase::new();
    database.add_game_metadata(&game("Solo", &[], None)).unwrap();
    let found = database.get_game_metadata_by_id(&1).unwrap().unwrap();
    assert_eq!(found.metadata.known_name, Vec::<String>::new());
    assert_eq!(found.metadata.steam_appid, None);
    assert_eq!(found.metadata.default_name, "Solo");
}

#[test]
fn unknown_game_id_is_absent() {
    let mut database = GameDatabase::new();
    assert_eq!(database.get_game_metadata_by_id(&1), Ok(None));
    database.add_game_metadata(&game("Foo", &["F"], None)).unwrap();
    assert_eq!(database.get_game_metadata_by_id(&2), Ok(None));
    assert_eq!(database.get_game_metadata_by_id(&0), Ok(None));
    assert_eq!(database.get_game_metadata_by_id(&-1), Ok(None));
    assert_eq!(database.get_game_metadata_by_id(&i32::MAX), Ok(None));
    assert_eq!(database.get_game_metadata_by_id(&i32::MIN), Ok(None));
}

#[test]
fn games_by_name_match_exactly() {
    let mut database = GameDatabase::new();
    database.add_game_metadata(&game("Foo", &["a"], None)).unwrap();
    database.add_game_metadata(&game("Foo Deluxe", &["b"], None)).unwrap();
    database.add_game_metadata(&game("Foo", &["c", "d"], Some("1"))).unwrap();
    database.add_game_metadata(&game("foo", &[], None)).unwrap();
    let found = database.get_game_metadata_by_name("Foo").unwrap();
    assert_eq!(
        found,
        vec![
            GameMetadata { id: Some(1), metadata: game("Foo", &["a"], None) },
            GameMetadata { id: Some(3), metadata: game("Foo", &["c", "d"], Some("1")) },
        ]
    );
    assert_eq!(database.get_game_metadata_by_name("Bar").unwrap(), vec![]);
    assert_eq!(database.get_game_metadata_by_name("").unwrap(), vec![]);
    // An alias is no display name.
    assert_eq!(database.get_game_metadata_by_name("a").unwrap(), vec![]);
}

#[test]
fn all_games_come_with_their_own_aliases() {
    let mut database = GameDatabase::new();
    assert_eq!(database.get_games_metadata().unwrap(), vec![]);
    database.add_game_metadata(&game("A", &["a1", "a2"], None)).unwrap();
    database.add_game_metadata(&game("B", &[], None)).unwrap();
    database.add_game_metadata(&game("C", &["a1"], None)).unwrap();
    assert_eq!(
        database.get_games_metadata().unwrap(),
        vec![
            GameMetadata { id: Some(1), metadata: game("A", &["a1", "a2"], None) },
            GameMetadata { id: Some(2), metadata: game("B", &[], None) },
            GameMetadata { id: Some(3), metadata: game("C", &["a1"], None) },
        ]
    );
}

#[test]
fn paths_are_scoped_by_operating_system() {
    let mut database = GameDatabase::new();
    database.add_game_metadata(&game("Foo", &[], None)).unwrap();
    database.add_game_path(1, &path("C:\\saves\\foo", OS::Windows)).unwrap();
    database.add_game_path(1, &path("/home/u/.foo", OS::Linux)).unwrap();
    assert_eq!(
        database.get_paths_by_game_id_and_os(1, OS::Linux).unwrap(),
        vec!["/home/u/.foo".to_string()]
    );
    assert_eq!(
        database.get_paths_by_game_id_and_os(1, OS::Windows).unwrap(),
        vec!["C:\\saves\\foo".to_string()]
    );
    assert_eq!(
        database.get_paths_by_game_id(1).unwrap(),
        vec![
            SavePath { id: Some(1), path: path("C:\\saves\\foo", OS::Windows) },
            SavePath { id: Some(2), path: path("/home/u/.foo", OS::Linux) },
        ]
    );
}

#[test]
fn paths_are_scoped_by_game() {
    let mut database = GameDatabase::new();
    database.add_game_metadata(&game("Foo", &[], None)).unwrap();
    database.add_game_metadata(&game("Bar", &[], None)).unwrap();
    database.add_game_path(1, &path("/foo", OS::Linux)).unwrap();
    database.add_game_path(2, &path("/bar", OS::Linux)).unwrap();
    assert_eq!(database.get_paths_by_game_id_and_os(2, OS::Linux).unwrap(), vec!["/bar".to_string()]);
    assert_eq!(database.get_paths_by_game_id_and_os(2, OS::Windows).unwrap(), Vec::<String>::new());
    assert_eq!(database.get_paths_by_game_id_and_os(3, OS::Linux).unwrap(), Vec::<String>::new());
    assert_eq!(
        database.get_paths_by_game_id(2).unwrap(),
        vec![SavePath { id: Some(2), path: path("/bar", OS::Linux) }]
    );
    assert_eq!(database.get_paths_by_game_id(9).unwrap(), vec![]);
}

#[test]
fn executables_are_scoped_by_operating_system() {
    let mut database = GameDatabase::new();
    database.add_game_metadata(&game("Foo", &[], None)).unwrap();
    database.add_game_executable(1, &executable("foo.exe", OS::Windows)).unwrap();
    database.add_game_executable(1, &executable("foo.x86_64", OS::Linux)).unwrap();
    database.add_game_executable(1, &executable("foo-launcher", OS::Linux)).unwrap();
    assert_eq!(
        database.get_executable_by_game_id_and_os(1, OS::Linux).unwrap(),
        vec!["foo.x86_64".to_string(), "foo-launcher".to_string()]
    );
    assert_eq!(
        database.get_executable_by_game_id_and_os(1, OS::Windows).unwrap(),
        vec!["foo.exe".to_string()]
    );
    assert_eq!(
        database.get_executable_by_game_id(1).unwrap(),
        vec![
            Executable { id: Some(1), executable: executable("foo.exe", OS::Windows) },
            Executable { id: Some(2), executable: executable("foo.x86_64", OS::Linux) },
            Executable { id: Some(3), executable: executable("foo-launcher", OS::Linux) },
        ]
    );
    assert_eq!(database.get_executable_by_game_id(2).unwrap(), vec![]);
}

#[test]
fn location_of_unknown_game_is_refused() {
    let mut database = GameDatabase::new();
    assert_eq!(database.add_game_path(1, &path("/foo", OS::Linux)), Err(CatalogError::Storage));
    assert_eq!(
        database.add_game_executable(1, &executable("foo", OS::Linux)),
        Err(CatalogError::Storage)
    );
    database.add_game_metadata(&game("Foo", &[], None)).unwrap();
    assert_eq!(database.add_game_path(2, &path("/foo", OS::Linux)), Err(CatalogError::Storage));
    assert_eq!(database.add_game_path(0, &path("/foo", OS::Linux)), Err(CatalogError::Storage));
    assert_eq!(database.add_game_path(-1, &path("/foo", OS::Linux)), Err(CatalogError::Storage));
    assert_eq!(database.get_paths_by_game_id(1).unwrap(), vec![]);
    assert_eq!(database.get_executable_by_game_id(1).unwrap(), vec![]);
    assert_eq!(database.add_game_path(1, &path("/foo", OS::Linux)), Ok(()));
}

#[test]
fn empty_snapshot_is_found() {
    let mut database = GameDatabase::new();
    database.record_save("only".to_string(), 3, new_year_2019(), vec![]).unwrap();
    assert_eq!(
        database.get_reference_to_save_by_path_id(3).unwrap(),
        Some(vec![SaveReference {
            uuid: "only".to_string(),
            path_id: 3,
            time: 1_546_300_800,
            files_hash: vec![],
        }])
    );
}

#[test]
fn path_without_snapshot_is_absent() {
    let mut database = GameDatabase::new();
    assert_eq!(database.get_reference_to_save_by_path_id(1), Ok(None));
    database.record_save("s".to_string(), 1, new_year_2019(), vec![file("a", "1")]).unwrap();
    assert_eq!(database.get_reference_to_save_by_path_id(2), Ok(None));
    assert_eq!(database.get_reference_to_save_by_path_id(0), Ok(None));
}

#[test]
fn two_snapshots_keep_their_own_files() {
    let mut database = GameDatabase::new();
    let later = SaveTime { year: 2019, month: 1, day: 1, hour: 0, minute: 1, second: 1, nanosecond: 5 };
    database
        .record_save("one".to_string(), 4, new_year_2019(), vec![file("a", "1"), file("b", "2")])
        .unwrap();
    database.record_save("other".to_string(), 5, later, vec![file("x", "9")]).unwrap();
    database
        .record_save("two".to_string(), 4, later, vec![file("a", "3"), file("c", "4")])
        .unwrap();
    assert_eq!(
        database.get_reference_to_save_by_path_id(4).unwrap(),
        Some(vec![
            SaveReference {
                uuid: "one".to_string(),
                path_id: 4,
                time: 1_546_300_800,
                files_hash: vec![file("a", "1"), file("b", "2")],
            },
            SaveReference {
                uuid: "two".to_string(),
                path_id: 4,
                time: 1_546_300_861,
                files_hash: vec![file("a", "3"), file("c", "4")],
            },
        ])
    );
    assert_eq!(
        database.get_reference_to_save_by_path_id(5).unwrap(),
        Some(vec![SaveReference {
            uuid: "other".to_string(),
            path_id: 5,
            time: 1_546_300_861,
            files_hash: vec![file("x", "9")],
        }])
    );
}

#[test]
fn duplicate_snapshot_identifier_is_refused() {
    let mut database = GameDatabase::new();
    database.record_save("same".to_string(), 1, new_year_2019(), vec![file("a", "1")]).unwrap();
    assert_eq!(
        database.record_save("same".to_string(), 2, new_year_2019(), vec![file("b", "2")]),
        Err(CatalogError::Storage)
    );
    assert_eq!(database.get_reference_to_save_by_path_id(2), Ok(None));
    assert_eq!(
        database.get_reference_to_save_by_path_id(1).unwrap().unwrap()[0].files_hash,
        vec![file("a", "1")]
    );
}

#[test]
fn snapshot_at_no_real_moment_is_refused() {
    let mut database = GameDatabase::new();
    let february_30 =
        SaveTime { year: 2020, month: 2, day: 30, hour: 0, minute: 0, second: 0, nanosecond: 0 };
    assert_eq!(
        database.record_save("s".to_string(), 1, february_30, vec![file("a", "1")]),
        Err(CatalogError::Storage)
    );
    assert_eq!(database.get_reference_to_save_by_path_id(1), Ok(None));
}

#[test]
fn snapshot_is_stored_under_hyphenated_uuid() {
    let mut database = GameDatabase::new();
    let uuid = SaveUuid { value: 0xa1a2a3a4b1b2c1c2d1d2d3d4d5d6d7d8 };
    database.add_reference_to_save(uuid, 7, vec![file("s1.dat", "h1")]).unwrap();
    let saves = database.get_reference_to_save_by_path_id(7).unwrap().unwrap();
    assert_eq!(saves.len(), 1);
    assert_eq!(saves[0].uuid, "a1a2a3a4-b1b2-c1c2-d1d2-d3d4d5d6d7d8");
    assert_eq!(saves[0].path_id, 7);
    assert_eq!(saves[0].files_hash, vec![file("s1.dat", "h1")]);
    // Taken now: after 2020-09-13 and before the year 2200.
    assert!(saves[0].time > 1_600_000_000);
    assert!(saves[0].time < 7_258_118_400);
}

#[test]
fn same_uuid_twice_is_refused() {
    let mut database = GameDatabase::new();
    let uuid = SaveUuid { value: 7 };
    assert_eq!(database.add_reference_to_save(uuid, 1, vec![]), Ok(()));
    assert_eq!(
        database.add_reference_to_save(uuid, 1, vec![file("a", "1")]),
        Err(CatalogError::Storage)
    );
    let saves = database.get_reference_to_save_by_path_id(1).unwrap().unwrap();
    assert_eq!(saves.len(), 1);
    assert_eq!(saves[0].uuid, "00000000-0000-0000-0000-000000000007");
    assert_eq!(saves[0].files_hash, vec![]);
}

#[test]
fn uuid_text_has_leading_zeros_and_lower_case() {
    assert_eq!(SaveUuid { value: 0 }.text(), "00000000-0000-0000-0000-000000000000");
    assert_eq!(SaveUuid { value: u128::MAX }.text(), "ffffffff-ffff-ffff-ffff-ffffffffffff");
    assert_eq!(
        SaveUuid { value: 0x0123456789abcdef0123456789ABCDEF }.text(),
        "01234567-89ab-cdef-0123-456789abcdef"
    );
}
