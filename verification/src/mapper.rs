//! The entity mapper: from domain records to storage rows and back, without
//! loss in the fields that each side owns.

use crate::clock::{unix_timestamp_of, valid_time, SaveTime};
use crate::records::{
    Executable, ExecutableCreate, ExecutableCreateView, ExecutableView, FileHash, FileHashView,
    GameMetadata, GameMetadataCreate, GameMetadataCreateView, GameMetadataView, SavePath,
    SavePathCreate, SavePathCreateView, SavePathView, SaveReference, SaveReferenceView,
    copy_optional_text, copy_texts,
};
use crate::rows::{
    DbFileHash, DbFileHashView, DbGameExecutable, DbGameExecutableView, DbGameMetadata,
    DbGameMetadataView, DbGameName, DbGameNameView, DbGamePath, DbGamePathView, DbGameSave,
    DbGameSaveView,
};
use vstd::prelude::*;

verus! {

/// The game row that registers `record`: its identifier is left to the storage.
pub open spec fn game_row_of(record: GameMetadataCreateView) -> DbGameMetadataView {
    DbGameMetadataView {
        id: None,
        steam_appid: record.steam_appid,
        default_name: record.default_name,
    }
}

/// One alias row per name, in order, each owned by `game_id`.
pub open spec fn alt_name_rows_of(names: Seq<Seq<char>>, game_id: i32) -> Seq<DbGameNameView> {
    Seq::new(
        names.len(),
        |i: int| DbGameNameView { name: names[i], game_metadata_id: game_id },
    )
}

/// The game that a row and its aliases stand for.
pub open spec fn game_record_of(row: DbGameMetadataView, names: Seq<Seq<char>>) -> GameMetadataView {
    GameMetadataView {
        id: row.id,
        metadata: GameMetadataCreateView {
            known_name: names,
            steam_appid: row.steam_appid,
            default_name: row.default_name,
        },
    }
}

/// The games that the rows stand for, the i-th with the i-th list of aliases.
pub open spec fn game_records_of(
    rows: Seq<DbGameMetadataView>,
    names: Seq<Seq<Seq<char>>>,
) -> Seq<GameMetadataView> {
    Seq::new(rows.len(), |i: int| game_record_of(rows[i], names[i]))
}

/// Whether every row carries an identifier.
pub open spec fn all_identified(rows: Seq<DbGameMetadataView>) -> bool {
    forall|i: int| 0 <= i < rows.len() ==> (#[trigger] rows[i]).id is Some
}

/// The identifiers of the rows, in order.
pub open spec fn game_ids_of(rows: Seq<DbGameMetadataView>) -> Seq<i32> {
    Seq::new(rows.len(), |i: int| rows[i].id.unwrap())
}

/// The game row that registers `record`.
pub fn game_row(record: &GameMetadataCreate) -> (row: DbGameMetadata)
    ensures
        row.deep_view() == game_row_of(record.deep_view()),
{
    DbGameMetadata {
        id: None,
        steam_appid: copy_optional_text(&record.steam_appid),
        default_name: record.default_name.clone(),
    }
}

/// One alias row per name, in order, each owned by `game_id`.
pub fn alt_name_rows(names: &Vec<String>, game_id: i32) -> (rows: Vec<DbGameName>)
    ensures
        rows.deep_view() == alt_name_rows_of(names.deep_view(), game_id),
{
    let mut rows: Vec<DbGameName> = Vec::new();
    let mut i: usize = 0;
    while i < names.len()
        invariant
            i <= names.len(),
            rows.len() == i,
            forall|k: int|
                0 <= k < i ==> rows[k].deep_view() == alt_name_rows_of(
                    names.deep_view(),
                    game_id,
                )[k],
        decreases names.len() - i,
    {
        rows.push(DbGameName { name: names[i].clone(), game_metadata_id: game_id });
        i += 1;
    }
    assert(rows.deep_view() =~= alt_name_rows_of(names.deep_view(), game_id));
    rows
}

/// The game that a row and the names of its aliases stand for.
pub fn game_record(row: &DbGameMetadata, names: &Vec<String>) -> (record: GameMetadata)
    ensures
        record.deep_view() == game_record_of(row.deep_view(), names.deep_view()),
{
    GameMetadata {
        id: row.id,
        metadata: GameMetadataCreate {
            known_name: copy_texts(names),
            steam_appid: copy_optional_text(&row.steam_appid),
            default_name: row.default_name.clone(),
        },
    }
}

/// The games of the rows, or nothing where the two lists differ in length.
pub fn game_records(rows: &Vec<DbGameMetadata>, names: &Vec<Vec<String>>) -> (records: Option<
    Vec<GameMetadata>,
>)
    ensures
        records is Some <==> rows.len() == names.len(),
        records is Some ==> records.unwrap().deep_view() == game_records_of(
            rows.deep_view(),
            names.deep_view(),
        ),
{
    if rows.len() != names.len() {
        return None;
    }
    let ghost expected = game_records_of(rows.deep_view(), names.deep_view());
    let mut records: Vec<GameMetadata> = Vec::new();
    let mut i: usize = 0;
    while i < rows.len()
        invariant
            i <= rows.len(),
            rows.len() == names.len(),
            records.len() == i,
            expected == game_records_of(rows.deep_view(), names.deep_view()),
            forall|k: int| 0 <= k < i ==> records[k].deep_view() == expected[k],
        decreases rows.len() - i,
    {
        records.push(game_record(&rows[i], &names[i]));
        i += 1;
    }
    assert(records.deep_view() =~= expected);
    Some(records)
}

/// The identifiers of the rows, or nothing where a row has none.
pub fn game_ids(rows: &Vec<DbGameMetadata>) -> (ids: Option<Vec<i32>>)
    ensures
        ids is Some <==> all_identified(rows.deep_view()),
        ids is Some ==> ids.unwrap()@ == game_ids_of(rows.deep_view()),
{
    let mut ids: Vec<i32> = Vec::new();
    let mut i: usize = 0;
    while i < rows.len()
        invariant
            i <= rows.len(),
            ids.len() == i,
            forall|k: int| 0 <= k < i ==> (#[trigger] rows.deep_view()[k]).id == Some(ids[k]),
        decreases rows.len() - i,
    {
        match rows[i].id {
            Some(id) => {
                ids.push(id);
            },
            None => {
                assert(rows.deep_view()[i as int].id is None);
                return None;
            },
        }
        i += 1;
    }
    assert(ids@ =~= game_ids_of(rows.deep_view()));
    Some(ids)
}

/// The path row that registers `path` for `game_id`.
pub open spec fn path_row_of(game_id: i32, path: SavePathCreateView) -> DbGamePathView {
    DbGamePathView {
        id: None,
        path: path.path,
        operating_system: path.operating_system,
        game_metadata_id: game_id,
    }
}

/// The save location that a row stands for.
pub open spec fn path_record_of(row: DbGamePathView) -> SavePathView {
    SavePathView {
        id: row.id,
        path: SavePathCreateView { path: row.path, operating_system: row.operating_system },
    }
}

/// The save locations that the rows stand for, in order.
pub open spec fn path_records_of(rows: Seq<DbGamePathView>) -> Seq<SavePathView> {
    Seq::new(rows.len(), |i: int| path_record_of(rows[i]))
}

/// The save-path row that registers `path` for `game_id`.
pub fn path_row(game_id: i32, path: &SavePathCreate) -> (row: DbGamePath)
    ensures
        row.deep_view() == path_row_of(game_id, path.deep_view()),
{
    DbGamePath {
        id: None,
        path: path.path.clone(),
        operating_system: path.operating_system,
        game_metadata_id: game_id,
    }
}

/// The save location that a row stands for.
pub fn path_record(row: &DbGamePath) -> (record: SavePath)
    ensures
        record.deep_view() == path_record_of(row.deep_view()),
{
    SavePath {
        id: row.id,
        path: SavePathCreate { path: row.path.clone(), operating_system: row.operating_system },
    }
}

/// The save locations that the rows stand for, in order.
pub fn path_records(rows: &Vec<DbGamePath>) -> (records: Vec<SavePath>)
    ensures
        records.deep_view() == path_records_of(rows.deep_view()),
{
    let mut records: Vec<SavePath> = Vec::new();
    let mut i: usize = 0;
    while i < rows.len()
        invariant
            i <= rows.len(),
            records.len() == i,
            forall|k: int|
                0 <= k < i ==> records[k].deep_view() == path_record_of(rows[k].deep_view()),
        decreases rows.len() - i,
    {
        records.push(path_record(&rows[i]));
        i += 1;
    }
    assert(records.deep_view() =~= path_records_of(rows.deep_view()));
    records
}

/// The executable row that registers `executable` for `game_id`.
pub open spec fn executable_row_of(
    game_id: i32,
    executable: ExecutableCreateView,
) -> DbGameExecutableView {
    DbGameExecutableView {
        id: None,
        executable: executable.executable,
        operating_system: executable.operating_system,
        game_metadata_id: game_id,
    }
}

/// The executable location that a row stands for.
pub open spec fn executable_record_of(row: DbGameExecutableView) -> ExecutableView {
    ExecutableView {
        id: row.id,
        executable: ExecutableCreateView {
            executable: row.executable,
            operating_system: row.operating_system,
        },
    }
}

/// The executable locations that the rows stand for, in order.
pub open spec fn executable_records_of(rows: Seq<DbGameExecutableView>) -> Seq<ExecutableView> {
    Seq::new(rows.len(), |i: int| executable_record_of(rows[i]))
}

/// The executable row that registers `executable` for `game_id`.
pub fn executable_row(game_id: i32, executable: &ExecutableCreate) -> (row: DbGameExecutable)
    ensures
        row.deep_view() == executable_row_of(game_id, executable.deep_view()),
{
    DbGameExecutable {
        id: None,
        executable: executable.executable.clone(),
        operating_system: executable.operating_system,
        game_metadata_id: game_id,
    }
}

/// The executable location that a row stands for.
pub fn executable_record(row: &DbGameExecutable) -> (record: Executable)
    ensures
        record.deep_view() == executable_record_of(row.deep_view()),
{
    Executable {
        id: row.id,
        executable: ExecutableCreate {
            executable: row.executable.clone(),
            operating_system: row.operating_system,
        },
    }
}

/// The executable locations that the rows stand for, in order.
pub fn executable_records(rows: &Vec<DbGameExecutable>) -> (records: Vec<Executable>)
    ensures
        records.deep_view() == executable_records_of(rows.deep_view()),
{
    let mut records: Vec<Executable> = Vec::new();
    let mut i: usize = 0;
    while i < rows.len()
        invariant
            i <= rows.len(),
            records.len() == i,
            forall|k: int|
                0 <= k < i ==> records[k].deep_view() == executable_record_of(
                    rows[k].deep_view(),
                ),
        decreases rows.len() - i,
    {
        records.push(executable_record(&rows[i]));
        i += 1;
    }
    assert(records.deep_view() =~= executable_records_of(rows.deep_view()));
    records
}

/// The snapshot row for an identifier text, a save location and a moment.
pub open spec fn save_row_of(uuid: Seq<char>, path_id: i32, time: SaveTime) -> DbGameSaveView {
    DbGameSaveView { uuid, path_id, time }
}

/// One digest row per file, in order, each owned by the snapshot `uuid`.
pub open spec fn file_hash_rows_of(files: Seq<FileHashView>, uuid: Seq<char>) -> Seq<
    DbFileHashView,
> {
    Seq::new(
        files.len(),
        |i: int|
            DbFileHashView {
                relative_path: files[i].relative_path,
                hash: files[i].hash,
                game_save_uuid: uuid,
            },
    )
}

/// The file digest that a row stands for.
pub open spec fn file_hash_record_of(row: DbFileHashView) -> FileHashView {
    FileHashView { relative_path: row.relative_path, hash: row.hash }
}

/// The file digests that the rows stand for, in order.
pub open spec fn file_hash_records_of(rows: Seq<DbFileHashView>) -> Seq<FileHashView> {
    Seq::new(rows.len(), |i: int| file_hash_record_of(rows[i]))
}

/// The snapshot that a row and its digest rows stand for.
pub open spec fn save_reference_of(row: DbGameSaveView, files: Seq<DbFileHashView>) -> SaveReferenceView {
    SaveReferenceView {
        uuid: row.uuid,
        path_id: row.path_id,
        time: unix_timestamp_of(row.time),
        files_hash: file_hash_records_of(files),
    }
}


/// The snapshots of the rows, the i-th with the i-th list of digest rows.
pub open spec fn save_references_of(
    rows: Seq<DbGameSaveView>,
    files: Seq<Seq<DbFileHashView>>,
) -> Seq<SaveReferenceView> {
    Seq::new(rows.len(), |i: int| save_reference_of(rows[i], files[i]))
}

/// Whether every row carries a real moment.
pub open spec fn all_timed(rows: Seq<DbGameSaveView>) -> bool {
    forall|i: int| 0 <= i < rows.len() ==> valid_time((#[trigger] rows[i]).time)
}

/// The identifier texts of the rows, in order.
pub open spec fn save_uuids_of(rows: Seq<DbGameSaveView>) -> Seq<Seq<char>> {
    Seq::new(rows.len(), |i: int| rows[i].uuid)
}

/// The snapshot row for an identifier text, a save location and a moment.
pub fn save_row(uuid: &String, path_id: i32, time: SaveTime) -> (row: DbGameSave)
    ensures
        row.deep_view() == save_row_of(uuid@, path_id, time),
{
    DbGameSave { uuid: uuid.clone(), path_id, time }
}

/// One digest row per file, in order, each owned by the snapshot `uuid`.
pub fn file_hash_rows(files: &Vec<FileHash>, uuid: &String) -> (rows: Vec<DbFileHash>)
    ensures
        rows.deep_view() == file_hash_rows_of(files.deep_view(), uuid@),
{
    let ghost expected = file_hash_rows_of(files.deep_view(), uuid@);
    let mut rows: Vec<DbFileHash> = Vec::new();
    let mut i: usize = 0;
    while i < files.len()
        invariant
            i <= files.len(),
            rows.len() == i,
            expected == file_hash_rows_of(files.deep_view(), uuid@),
            forall|k: int| 0 <= k < i ==> rows[k].deep_view() == expected[k],
        decreases files.len() - i,
    {
        rows.push(
            DbFileHash {
                relative_path: files[i].relative_path.clone(),
                hash: files[i].hash.clone(),
                game_save_uuid: uuid.clone(),
            },
        );
        i += 1;
    }
    assert(rows.deep_view() =~= expected);
    rows
}

/// The file digests that the rows stand for, in order.
pub fn file_hash_records(rows: &Vec<DbFileHash>) -> (records: Vec<FileHash>)
    ensures
        records.deep_view() == file_hash_records_of(rows.deep_view()),
{
    let mut records: Vec<FileHash> = Vec::new();
    let mut i: usize = 0;
    while i < rows.len()
        invariant
            i <= rows.len(),
            records.len() == i,
            forall|k: int|
                0 <= k < i ==> records[k].deep_view() == file_hash_record_of(
                    rows[k].deep_view(),
                ),
        decreases rows.len() - i,
    {
        records.push(
            FileHash { relative_path: rows[i].relative_path.clone(), hash: rows[i].hash.clone() },
        );
        i += 1;
    }
    assert(records.deep_view() =~= file_hash_records_of(rows.deep_view()));
    records
}

/// The snapshot that a row and its digest rows stand for, taken at `seconds`
/// in Unix time.
pub open spec fn save_reference_at_of(
    row: DbGameSaveView,
    seconds: i64,
    files: Seq<DbFileHashView>,
) -> SaveReferenceView {
    SaveReferenceView {
        uuid: row.uuid,
        path_id: row.path_id,
        time: seconds,
        files_hash: file_hash_records_of(files),
    }
}

/// The snapshot of a row and its digest rows, taken at `seconds` in Unix
/// time.
pub fn save_reference_at(row: &DbGameSave, seconds: i64, files: &Vec<DbFileHash>) -> (record:
    SaveReference)
    ensures
        record.deep_view() == save_reference_at_of(row.deep_view(), seconds, files.deep_view()),
{
    SaveReference {
        uuid: row.uuid.clone(),
        path_id: row.path_id,
        time: seconds,
        files_hash: file_hash_records(files),
    }
}

/// The snapshot of a row and its digest rows, or nothing where the row's
/// moment is no real one.
pub fn save_reference(row: &DbGameSave, files: &Vec<DbFileHash>) -> (record: Option<SaveReference>)
    ensures
        record is Some <==> valid_time(row.time),
        record is Some ==> record.unwrap().deep_view() == save_reference_of(
            row.deep_view(),
            files.deep_view(),
        ),
{
    match row.time.unix_timestamp() {
        Some(seconds) => Some(save_reference_at(row, seconds, files)),
        None => None,
    }
}

/// The snapshots of the rows, or nothing where the two lists differ in length
/// or a row's moment is no real one.
pub fn save_references(rows: &Vec<DbGameSave>, files: &Vec<Vec<DbFileHash>>) -> (records: Option<
    Vec<SaveReference>,
>)
    ensures
        records is Some <==> rows.len() == files.len() && all_timed(rows.deep_view()),
        records is Some ==> records.unwrap().deep_view() == save_references_of(
            rows.deep_view(),
            files.deep_view(),
        ),
{
    if rows.len() != files.len() {
        return None;
    }
    let ghost expected = save_references_of(rows.deep_view(), files.deep_view());
    let mut records: Vec<SaveReference> = Vec::new();
    let mut i: usize = 0;
    while i < rows.len()
        invariant
            i <= rows.len(),
            rows.len() == files.len(),
            records.len() == i,
            expected == save_references_of(rows.deep_view(), files.deep_view()),
            forall|k: int| 0 <= k < i ==> valid_time((#[trigger] rows.deep_view()[k]).time),
            forall|k: int| 0 <= k < i ==> records[k].deep_view() == expected[k],
        decreases rows.len() - i,
    {
        match save_reference(&rows[i], &files[i]) {
            Some(record) => {
                records.push(record);
            },
            None => {
                assert(!valid_time(rows.deep_view()[i as int].time));
                return None;
            },
        }
        i += 1;
    }
    assert(records.deep_view() =~= expected);
    Some(records)
}

/// The identifier texts of the rows, in order.
pub fn save_uuids(rows: &Vec<DbGameSave>) -> (uuids: Vec<String>)
    ensures
        uuids.deep_view() == save_uuids_of(rows.deep_view()),
{
    let mut uuids: Vec<String> = Vec::new();
    let mut i: usize = 0;
    while i < rows.len()
        invariant
            i <= rows.len(),
            uuids.len() == i,
            forall|k: int| 0 <= k < i ==> uuids[k]@ == rows[k].uuid@,
        decreases rows.len() - i,
    {
        uuids.push(rows[i].uuid.clone());
        i += 1;
    }
    assert(uuids.deep_view() =~= save_uuids_of(rows.deep_view()));
    uuids
}

/// A game registered and read back is the game that was supplied: the row
/// keeps every field it owns, and the alias rows keep every name in order.
pub proof fn lemma_game_mapping_is_lossless(record: GameMetadataCreateView, game_id: i32)
    ensures
        game_record_of(game_row_of(record), record.known_name).metadata == record,
        alt_name_rows_of(record.known_name, game_id).len() == record.known_name.len(),
        forall|i: int|
            0 <= i < record.known_name.len() ==> {
                &&& (#[trigger] alt_name_rows_of(record.known_name, game_id)[i]).name
                    == record.known_name[i]
                &&& alt_name_rows_of(record.known_name, game_id)[i].game_metadata_id == game_id
            },
{
}

/// A location registered and read back is the location that was supplied.
pub proof fn lemma_location_mapping_is_lossless(
    game_id: i32,
    path: SavePathCreateView,
    executable: ExecutableCreateView,
)
    ensures
        path_record_of(path_row_of(game_id, path)).path == path,
        path_row_of(game_id, path).game_metadata_id == game_id,
        executable_record_of(executable_row_of(game_id, executable)).executable == executable,
        executable_row_of(game_id, executable).game_metadata_id == game_id,
{
}

/// The digests of a snapshot, stored and read back, are the digests that were
/// supplied, in order.
pub proof fn lemma_file_hash_mapping_is_lossless(files: Seq<FileHashView>, uuid: Seq<char>)
    ensures
        file_hash_records_of(file_hash_rows_of(files, uuid)) == files,
{
    assert(file_hash_records_of(file_hash_rows_of(files, uuid)) =~= files);
}

} // verus!
