use game_catalog::clock::SaveTime;
use game_catalog::mapper::{
    alt_name_rows, executable_record, executable_row, file_hash_records, file_hash_rows,
    game_ids, game_record, game_records, game_row, path_record, path_records, path_row,
    save_reference, save_reference_at, save_references, save_row, save_uuids,
};
use game_catalog::records::{
    Executable, ExecutableCreate, FileHash, GameMetadata, GameMetadataCreate, SavePath,
    SavePathCreate, SaveReference, OS,
};
use game_catalog::rows::{
    DbFileHash, DbGameExecutable, DbGameMetadata, DbGameName, DbGamePath, DbGameSave,
};

fn foo() -> GameMetadataCreate {
    GameMetadataCreate {
        known_name: vec!["F".to_string(), "Foo Deluxe".to_string()],
        steam_appid: Some("42".to_string()),
        default_name: "Foo".to_string(),
    }
}

fn epoch() -> SaveTime {
    SaveTime { year: 1970, month: 1, day: 1, hour: 0, minute: 0, second: 0, nanosecond: 0 }
}

#[test]
fn game_maps_to_a_row_without_identifier() {
    assert_eq!(
        game_row(&foo()),
        DbGameMetadata {
            id: None,
            steam_appid: Some("42".to_string()),
            default_name: "Foo".to_string(),
        }
    );
}

#[test]
fn aliases_map_to_rows_of_their_game() {
    assert_eq!(
        alt_name_rows(&foo().known_name, 3),
        vec![
            DbGameName { name: "F".to_string(), game_metadata_id: 3 },
            DbGameName { name: "Foo Deluxe".to_string(), game_metadata_id: 3 },
        ]
    );
    assert_eq!(alt_name_rows(&vec![], 3), vec![]);
}

#[test]
fn game_round_trips_through_its_rows() {
    let record = foo();
    let row = DbGameMetadata { id: Some(8), ..game_row(&record) };
    let names: Vec<String> =
        alt_name_rows(&record.known_name, 8).into_iter().map(|row| row.name).collect();
    assert_eq!(game_record(&row, &names), GameMetadata { id: Some(8), metadata: record });
}

#[test]
fn games_need_one_alias_list_each() {
    let rows = vec![game_row(&foo()), game_row(&foo())];
    assert_eq!(game_records(&rows, &vec![vec![]]), None);
    assert_eq!(game_records(&rows, &vec![vec![], vec![], vec![]]), None);
    assert_eq!(game_records(&vec![], &vec![]), Some(vec![]));
    let records = game_records(&rows, &vec![vec!["x".to_string()], vec![]]).unwrap();
    assert_eq!(records[0].metadata.known_name, vec!["x".to_string()]);
    assert_eq!(records[1].metadata.known_name, Vec::<String>::new());
    assert_eq!(records[0].id, None);
}

#[test]
fn identifiers_are_listed_only_when_all_are_there() {
    let with = |id: Option<i32>| DbGameMetadata { id, ..game_row(&foo()) };
    assert_eq!(game_ids(&vec![with(Some(3)), with(Some(1))]), Some(vec![3, 1]));
    assert_eq!(game_ids(&vec![with(Some(3)), with(None)]), None);
    assert_eq!(game_ids(&vec![with(None)]), None);
    assert_eq!(game_ids(&vec![]), Some(vec![]));
}

#[test]
fn path_round_trips_through_its_row() {
    let create = SavePathCreate { path: "/save/foo".to_string(), operating_system: OS::Linux };
    let row = path_row(5, &create);
    assert_eq!(
        row,
        DbGamePath {
            id: None,
            path: "/save/foo".to_string(),
            operating_system: OS::Linux,
            game_metadata_id: 5,
        }
    );
    assert_eq!(path_record(&row), SavePath { id: None, path: create.clone() });
    let stored = DbGamePath { id: Some(7), ..row };
    assert_eq!(path_records(&vec![stored]), vec![SavePath { id: Some(7), path: create }]);
}

#[test]
fn executable_round_trips_through_its_row() {
    let create =
        ExecutableCreate { executable: "foo.exe".to_string(), operating_system: OS::Windows };
    let row = executable_row(5, &create);
    assert_eq!(
        row,
        DbGameExecutable {
            id: None,
            executable: "foo.exe".to_string(),
            operating_system: OS::Windows,
            game_metadata_id: 5,
        }
    );
    assert_eq!(executable_record(&row), Executable { id: None, executable: create });
}

#[test]
fn file_hashes_round_trip_through_their_rows() {
    let files = vec![
        FileHash { relative_path: "a/b".to_string(), hash: "h1".to_string() },
        FileHash { relative_path: "c".to_string(), hash: "h2".to_string() },
    ];
    let rows = file_hash_rows(&files, &"u".to_string());
    assert_eq!(
        rows,
        vec![
            DbFileHash {
                relative_path: "a/b".to_string(),
                hash: "h1".to_string(),
                game_save_uuid: "u".to_string(),
            },
            DbFileHash {
                relative_path: "c".to_string(),
                hash: "h2".to_string(),
                game_save_uuid: "u".to_string(),
            },
        ]
    );
    assert_eq!(file_hash_records(&rows), files);
}

#[test]
fn snapshot_row_maps_to_a_reference_in_unix_seconds() {
    let row = save_row(&"u".to_string(), 7, SaveTime { hour: 1, ..epoch() });
    assert_eq!(row, DbGameSave { uuid: "u".to_string(), path_id: 7, time: SaveTime { hour: 1, ..epoch() } });
    assert_eq!(
        save_reference(&row, &vec![]),
        Some(SaveReference { uuid: "u".to_string(), path_id: 7, time: 3600, files_hash: vec![] })
    );
    let never = DbGameSave { time: SaveTime { day: 0, ..epoch() }, ..row };
    assert_eq!(save_reference(&never, &vec![]), None);
}

#[test]
fn snapshots_need_one_digest_list_each() {
    let rows = vec![
        save_row(&"a".to_string(), 1, epoch()),
        save_row(&"b".to_string(), 1, epoch()),
    ];
    assert_eq!(save_uuids(&rows), vec!["a".to_string(), "b".to_string()]);
    assert_eq!(save_references(&rows, &vec![vec![]]), None);
    let found = save_references(&rows, &vec![vec![], vec![]]).unwrap();
    assert_eq!(found.len(), 2);
    assert_eq!(found[1].uuid, "b");
    assert_eq!(found[1].time, 0);
}

#[test]
fn snapshot_row_maps_to_a_reference_at_given_seconds() {
    let row = save_row(&"u".to_string(), 7, epoch());
    let files = vec![DbFileHash {
        relative_path: "a".to_string(),
        hash: "h".to_string(),
        game_save_uuid: "u".to_string(),
    }];
    assert_eq!(
        save_reference_at(&row, -5, &files),
        SaveReference {
            uuid: "u".to_string(),
            path_id: 7,
            time: -5,
            files_hash: vec![FileHash { relative_path: "a".to_string(), hash: "h".to_string() }],
        }
    );
}
