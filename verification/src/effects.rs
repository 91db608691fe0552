//! What each operation of the catalog does to the tables and what it returns,
//! stated directly; and the proof that running its plan against the engine in
//! memory does exactly that.

use crate::clock::{valid_time, SaveTime};
use crate::driver::{lemma_run_keeps_invariant, run_spec};
use crate::mapper::{
    all_identified, all_timed, alt_name_rows_of, executable_records_of, executable_row_of,
    file_hash_rows_of, game_ids_of, game_record_of, game_records_of, game_row_of,
    path_records_of, path_row_of, save_references_of, save_row_of, save_uuids_of,
};
use crate::plan::{start_spec, AnswerView, CatalogError, RequestView};
use crate::records::{FileHashView, GameMetadataCreateView, GameMetadataView, SaveReferenceView};
use crate::rows::{DbGameMetadataView, DbGameSaveView};
use crate::select::{
    alias_name_lists, alias_names, executable_texts, executables_of_game, file_hash_lists,
    game_identified, games_named, has_save, is_named, is_save_of, lemma_filter_members,
    path_texts, paths_of_game, saves_of_path,
};
use crate::store::at_rest;
use crate::tables::{
    executable_insertable, path_insertable, save_insertable, tables_wf, with_alt_names,
    with_executable, with_file_hashes, with_game, with_path, with_save, TablesView,
};
use vstd::prelude::*;

verus! {

/// The identifier that the next game row gets.
pub open spec fn next_game_id(tables: TablesView) -> i32 {
    (tables.games.len() + 1) as i32
}

/// The tables after a game was registered with all its aliases.
pub open spec fn with_registered_game(
    tables: TablesView,
    record: GameMetadataCreateView,
) -> TablesView {
    with_alt_names(
        with_game(tables, game_row_of(record)),
        alt_name_rows_of(record.known_name, next_game_id(tables)),
    )
}

/// The games that these rows stand for, each with the names of its aliases.
pub open spec fn games_hydrated(tables: TablesView, rows: Seq<DbGameMetadataView>) -> Seq<
    GameMetadataView,
> {
    game_records_of(rows, alias_name_lists(tables.names, game_ids_of(rows)))
}

/// The game with this identifier and the names of its aliases, if it exists.
pub open spec fn game_found(tables: TablesView, id: i32) -> Option<GameMetadataView> {
    match game_identified(tables.games, id) {
        Some(row) => Some(game_record_of(row, alias_names(tables.names, id))),
        None => None,
    }
}

/// The tables after a snapshot was recorded with the digests of all its files.
pub open spec fn with_snapshot(
    tables: TablesView,
    uuid: Seq<char>,
    path_id: i32,
    time: SaveTime,
    files: Seq<FileHashView>,
) -> TablesView {
    with_file_hashes(
        with_save(tables, save_row_of(uuid, path_id, time)),
        file_hash_rows_of(files, uuid),
    )
}

/// The snapshots that these rows stand for, each with the digests of its own
/// files.
pub open spec fn snapshots_hydrated(tables: TablesView, rows: Seq<DbGameSaveView>) -> Seq<
    SaveReferenceView,
> {
    save_references_of(rows, file_hash_lists(tables.file_hashes, save_uuids_of(rows)))
}

/// The snapshots of a save path, or nothing where it has none.
pub open spec fn snapshots_found(tables: TablesView, path: i32) -> Option<Seq<SaveReferenceView>> {
    if saves_of_path(tables.saves, path).len() == 0 {
        None
    } else {
        Some(snapshots_hydrated(tables, saves_of_path(tables.saves, path)))
    }
}

/// What an operation returns on these tables.
pub open spec fn outcome_of(tables: TablesView, request: RequestView) -> Result<
    AnswerView,
    CatalogError,
> {
    match request {
        RequestView::AddGameMetadata(record) => if tables.games.len() < i32::MAX {
            Ok(AnswerView::Registered(next_game_id(tables)))
        } else {
            Err(CatalogError::Storage)
        },
        RequestView::GameMetadataByName(name) => Ok(
            AnswerView::Games(games_hydrated(tables, games_named(tables.games, name))),
        ),
        RequestView::GameMetadataById(id) => Ok(AnswerView::Game(game_found(tables, id))),
        RequestView::AllGameMetadata => Ok(AnswerView::Games(games_hydrated(tables, tables.games))),
        RequestView::AddGamePath(game, path) => if path_insertable(
            tables,
            path_row_of(game, path),
        ) {
            Ok(AnswerView::Done)
        } else {
            Err(CatalogError::Storage)
        },
        RequestView::PathsByGameAndOs(game, os) => Ok(
            AnswerView::Locations(path_texts(tables.paths, game, os)),
        ),
        RequestView::PathsByGame(game) => Ok(
            AnswerView::Paths(path_records_of(paths_of_game(tables.paths, game))),
        ),
        RequestView::AddGameExecutable(game, executable) => if executable_insertable(
            tables,
            executable_row_of(game, executable),
        ) {
            Ok(AnswerView::Done)
        } else {
            Err(CatalogError::Storage)
        },
        RequestView::ExecutablesByGameAndOs(game, os) => Ok(
            AnswerView::Locations(executable_texts(tables.executables, game, os)),
        ),
        RequestView::ExecutablesByGame(game) => Ok(
            AnswerView::Executables(
                executable_records_of(executables_of_game(tables.executables, game)),
            ),
        ),
        RequestView::AddSave { uuid, path_id, time, files } => if save_insertable(
            tables,
            save_row_of(uuid, path_id, time),
        ) {
            Ok(AnswerView::Done)
        } else {
            Err(CatalogError::Storage)
        },
        RequestView::SavesByPath(path) => Ok(AnswerView::Saves(snapshots_found(tables, path))),
    }
}

/// The tables after an operation. An operation that fails, and one that only
/// reads, leaves them as they were.
pub open spec fn tables_after(tables: TablesView, request: RequestView) -> TablesView {
    match request {
        RequestView::AddGameMetadata(record) => if tables.games.len() < i32::MAX {
            with_registered_game(tables, record)
        } else {
            tables
        },
        RequestView::AddGamePath(game, path) => if path_insertable(
            tables,
            path_row_of(game, path),
        ) {
            with_path(tables, path_row_of(game, path))
        } else {
            tables
        },
        RequestView::AddGameExecutable(game, executable) => if executable_insertable(
            tables,
            executable_row_of(game, executable),
        ) {
            with_executable(tables, executable_row_of(game, executable))
        } else {
            tables
        },
        RequestView::AddSave { uuid, path_id, time, files } => if save_insertable(
            tables,
            save_row_of(uuid, path_id, time),
        ) {
            with_snapshot(tables, uuid, path_id, time, files)
        } else {
            tables
        },
        _ => tables,
    }
}

proof fn lemma_add_game_metadata(tables: TablesView, record: GameMetadataCreateView)
    requires
        tables_wf(tables),
    ensures
        run_spec(start_spec(RequestView::AddGameMetadata(record)), at_rest(tables)) == (
            outcome_of(tables, RequestView::AddGameMetadata(record)),
            at_rest(tables_after(tables, RequestView::AddGameMetadata(record))),
        ),
{
    reveal_with_fuel(run_spec, 8);
    let row = game_row_of(record);
    if tables.games.len() < i32::MAX {
        let inserted = with_game(tables, row);
        if record.known_name.len() == 0 {
            assert(inserted.names + alt_name_rows_of(record.known_name, next_game_id(tables))
                =~= inserted.names);
            assert(with_registered_game(tables, record) == inserted);
        }
    }
}

proof fn lemma_games_by_name(tables: TablesView, name: Seq<char>)
    requires
        tables_wf(tables),
    ensures
        run_spec(start_spec(RequestView::GameMetadataByName(name)), at_rest(tables)) == (
            outcome_of(tables, RequestView::GameMetadataByName(name)),
            at_rest(tables),
        ),
{
    reveal_with_fuel(run_spec, 8);
    let rows = games_named(tables.games, name);
    lemma_filter_members(tables.games, is_named(name));
    assert(all_identified(rows)) by {
        assert forall|i: int| 0 <= i < rows.len() implies (#[trigger] rows[i]).id is Some by {
            assert(tables.games.contains(rows[i]));
        }
    }
}

proof fn lemma_game_by_id(tables: TablesView, id: i32)
    requires
        tables_wf(tables),
    ensures
        run_spec(start_spec(RequestView::GameMetadataById(id)), at_rest(tables)) == (
            outcome_of(tables, RequestView::GameMetadataById(id)),
            at_rest(tables),
        ),
{
    reveal_with_fuel(run_spec, 8);
    if 1 <= id <= tables.games.len() {
        assert(tables.games[id - 1].id == Some(id));
        assert(seq![id][0] == id);
    }
}

proof fn lemma_all_games(tables: TablesView)
    requires
        tables_wf(tables),
    ensures
        run_spec(start_spec(RequestView::AllGameMetadata), at_rest(tables)) == (
            outcome_of(tables, RequestView::AllGameMetadata),
            at_rest(tables),
        ),
{
    reveal_with_fuel(run_spec, 8);
    assert(all_identified(tables.games));
}

proof fn lemma_add_save(
    tables: TablesView,
    uuid: Seq<char>,
    path_id: i32,
    time: SaveTime,
    files: Seq<FileHashView>,
)
    requires
        tables_wf(tables),
    ensures
        run_spec(
            start_spec(RequestView::AddSave { uuid, path_id, time, files }),
            at_rest(tables),
        ) == (
            outcome_of(tables, RequestView::AddSave { uuid, path_id, time, files }),
            at_rest(tables_after(tables, RequestView::AddSave { uuid, path_id, time, files })),
        ),
{
    reveal_with_fuel(run_spec, 8);
    let row = save_row_of(uuid, path_id, time);
    if save_insertable(tables, row) {
        let inserted = with_save(tables, row);
        let rows = file_hash_rows_of(files, uuid);
        assert(inserted.saves[tables.saves.len() as int].uuid == uuid);
        assert(has_save(inserted.saves, uuid));
        if files.len() == 0 {
            assert(inserted.file_hashes + rows =~= inserted.file_hashes);
            assert(with_snapshot(tables, uuid, path_id, time, files) == inserted);
        }
    }
}

proof fn lemma_saves_by_path(tables: TablesView, path: i32)
    requires
        tables_wf(tables),
    ensures
        run_spec(start_spec(RequestView::SavesByPath(path)), at_rest(tables)) == (
            outcome_of(tables, RequestView::SavesByPath(path)),
            at_rest(tables),
        ),
{
    reveal_with_fuel(run_spec, 8);
    let rows = saves_of_path(tables.saves, path);
    lemma_filter_members(tables.saves, is_save_of(path));
    assert(all_timed(rows)) by {
        assert forall|i: int| 0 <= i < rows.len() implies valid_time(
            (#[trigger] rows[i]).time,
        ) by {
            assert(tables.saves.contains(rows[i]));
        }
    }
}

/// Running the plan of an operation against the engine at rest returns what
/// the operation is stated to return, leaves the tables as it is stated to
/// leave them, and leaves no transaction open.
pub proof fn lemma_run_does_the_operation(tables: TablesView, request: RequestView)
    requires
        tables_wf(tables),
    ensures
        run_spec(start_spec(request), at_rest(tables)) == (
            outcome_of(tables, request),
            at_rest(tables_after(tables, request)),
        ),
{
    match request {
        RequestView::AddGameMetadata(record) => lemma_add_game_metadata(tables, record),
        RequestView::GameMetadataByName(name) => lemma_games_by_name(tables, name),
        RequestView::GameMetadataById(id) => lemma_game_by_id(tables, id),
        RequestView::AllGameMetadata => lemma_all_games(tables),
        RequestView::AddSave { uuid, path_id, time, files } => lemma_add_save(
            tables,
            uuid,
            path_id,
            time,
            files,
        ),
        RequestView::SavesByPath(path) => lemma_saves_by_path(tables, path),
        _ => {
            reveal_with_fuel(run_spec, 3);
        },
    }
}

/// Recording a snapshot keeps the tables' invariant.
pub proof fn lemma_snapshot_keeps_invariant(
    tables: TablesView,
    uuid: Seq<char>,
    path_id: i32,
    time: SaveTime,
    files: Seq<FileHashView>,
)
    requires
        tables_wf(tables),
        save_insertable(tables, save_row_of(uuid, path_id, time)),
    ensures
        tables_wf(with_snapshot(tables, uuid, path_id, time, files)),
{
    let request = RequestView::AddSave { uuid, path_id, time, files };
    lemma_run_does_the_operation(tables, request);
    lemma_run_keeps_invariant(start_spec(request), at_rest(tables));
}

} // verus!
