//! What holds of the catalog across its operations.

use crate::clock::{unix_timestamp_of, valid_time, SaveTime};
use crate::driver::run_spec;
use crate::effects::{
    game_found, lemma_snapshot_keeps_invariant, next_game_id, snapshots_found,
    snapshots_hydrated, with_registered_game, with_snapshot,
};
use crate::mapper::{
    alt_name_rows_of, file_hash_records_of, file_hash_rows_of, game_row_of, save_row_of,
};
use crate::plan::{
    advance_spec, fault_error, AnswerView, CatalogError, StepView, TaskView,
};
use crate::records::{
    FileHashView, GameMetadataCreateView, GameMetadataView, SaveReferenceView, OS,
};
use crate::rows::{DbFileHashView, DbGameExecutableView, DbGameNameView, DbGamePathView};
use crate::select::{
    alias_names, executable_texts, file_hashes_of_save, has_save, is_alias_of,
    is_executable_of_on, is_file_of, is_path_of_on, is_save_of, lemma_filter_all,
    lemma_filter_joined, lemma_filter_members, lemma_filter_none, path_texts, saves_of_path,
};
use crate::statement::{Fault, ReplyView, StatementView};
use crate::store::{at_rest, execute_spec, EngineView};
use crate::tables::{has_game, tables_wf, with_game, TablesView};
use vstd::prelude::*;

verus! {

/// A game that was registered is read back under its identifier as it was
/// supplied: every field, and every alias in the order given.
pub proof fn lemma_registered_game_reads_back(tables: TablesView, record: GameMetadataCreateView)
    requires
        tables_wf(tables),
        tables.games.len() < i32::MAX,
    ensures
        game_found(with_registered_game(tables, record), next_game_id(tables)) == Some(
            GameMetadataView { id: Some(next_game_id(tables)), metadata: record },
        ),
{
    let id = next_game_id(tables);
    let after = with_registered_game(tables, record);
    let rows = alt_name_rows_of(record.known_name, id);
    assert(after.games[id - 1].id == Some(id));
    lemma_filter_joined(tables.names, rows, is_alias_of(id));
    assert forall|i: int| 0 <= i < tables.names.len() implies !is_alias_of(id)(
        #[trigger] tables.names[i],
    ) by {
        assert(has_game(tables, tables.names[i].game_metadata_id));
    }
    lemma_filter_none(tables.names, is_alias_of(id));
    lemma_filter_all(rows, is_alias_of(id));
    assert(Seq::<DbGameNameView>::empty() + rows =~= rows);
    assert(alias_names(after.names, id) =~= record.known_name);
}

/// Whether a task waits for a reply inside an open transaction.
pub open spec fn inside_transaction(task: TaskView) -> bool {
    match task {
        TaskView::InsertingGame { .. } => true,
        TaskView::Writing { .. } => true,
        TaskView::ListingGames => true,
        TaskView::NamingGames { .. } => true,
        TaskView::FindingGame => true,
        TaskView::NamingGame { .. } => true,
        TaskView::InsertingSave { .. } => true,
        TaskView::ListingSaves => true,
        TaskView::GroupingFiles { .. } => true,
        TaskView::Committing { .. } => true,
        _ => false,
    }
}

/// Whatever statement fails inside a transaction, the operation ends with
/// the engine's fault as its error, and the tables stand as they stood when
/// the transaction was opened: nothing of the operation can be observed.
pub proof fn lemma_failure_undoes_the_transaction(task: TaskView, fault: Fault, store: EngineView)
    requires
        inside_transaction(task),
        store.saved is Some,
    ensures
        run_spec(advance_spec(task, ReplyView::Failed(fault)), store) == (
            Err::<AnswerView, CatalogError>(fault_error(fault)),
            at_rest(store.saved.unwrap()),
        ),
{
    reveal_with_fuel(run_spec, 3);
}

/// If the insertion of the aliases fails after the game row was inserted,
/// the game row is gone afterwards: the tables stand as before the operation.
pub proof fn lemma_failed_alias_insert_leaves_no_game(
    tables: TablesView,
    record: GameMetadataCreateView,
    fault: Fault,
)
    requires
        tables_wf(tables),
        tables.games.len() < i32::MAX,
        record.known_name.len() > 0,
    ensures
        ({
            let opened = execute_spec(at_rest(tables), StatementView::Begin).0;
            let insertion = execute_spec(opened, StatementView::InsertGame(game_row_of(record)));
            let inserted = insertion.0;
            &&& inserted.tables == with_game(tables, game_row_of(record))
            &&& advance_spec(TaskView::InsertingGame { names: record.known_name }, insertion.1)
                == StepView::Run(
                StatementView::InsertAltNames(
                    alt_name_rows_of(record.known_name, next_game_id(tables)),
                ),
                TaskView::Writing { answer: AnswerView::Registered(next_game_id(tables)) },
            )
            &&& run_spec(
                advance_spec(
                    TaskView::Writing { answer: AnswerView::Registered(next_game_id(tables)) },
                    ReplyView::Failed(fault),
                ),
                inserted,
            ) == (
                Err::<AnswerView, CatalogError>(fault_error(fault)),
                at_rest(tables),
            )
        }),
{
    let opened = execute_spec(at_rest(tables), StatementView::Begin).0;
    let inserted = execute_spec(opened, StatementView::InsertGame(game_row_of(record))).0;
    lemma_failure_undoes_the_transaction(
        TaskView::Writing { answer: AnswerView::Registered(next_game_id(tables)) },
        fault,
        inserted,
    );
}

/// A snapshot that was recorded is read back last among the snapshots of its
/// save location, with exactly the digests that were supplied, and every
/// earlier snapshot of that location is read back as before.
pub proof fn lemma_snapshot_reads_back(
    tables: TablesView,
    uuid: Seq<char>,
    path_id: i32,
    time: SaveTime,
    files: Seq<FileHashView>,
)
    requires
        tables_wf(tables),
        valid_time(time),
        !has_save(tables.saves, uuid),
    ensures
        snapshots_found(with_snapshot(tables, uuid, path_id, time, files), path_id) == Some(
            snapshots_hydrated(tables, saves_of_path(tables.saves, path_id)).push(
                SaveReferenceView {
                    uuid,
                    path_id,
                    time: unix_timestamp_of(time),
                    files_hash: files,
                },
            ),
        ),
{
    let after = with_snapshot(tables, uuid, path_id, time, files);
    let row = save_row_of(uuid, path_id, time);
    let new_files = file_hash_rows_of(files, uuid);
    let before_rows = saves_of_path(tables.saves, path_id);
    let after_rows = saves_of_path(after.saves, path_id);
    assert(after.saves =~= tables.saves + seq![row]);
    lemma_filter_joined(tables.saves, seq![row], is_save_of(path_id));
    lemma_filter_all(seq![row], is_save_of(path_id));
    assert(after_rows =~= before_rows.push(row));
    lemma_filter_members(tables.saves, is_save_of(path_id));
    // The files of the new snapshot are the supplied ones.
    lemma_filter_joined(tables.file_hashes, new_files, is_file_of(uuid));
    assert forall|i: int| 0 <= i < tables.file_hashes.len() implies !is_file_of(uuid)(
        #[trigger] tables.file_hashes[i],
    ) by {
        assert(has_save(tables.saves, tables.file_hashes[i].game_save_uuid));
    }
    lemma_filter_none(tables.file_hashes, is_file_of(uuid));
    lemma_filter_all(new_files, is_file_of(uuid));
    assert(Seq::<DbFileHashView>::empty() + new_files =~= new_files);
    assert(file_hashes_of_save(after.file_hashes, uuid) == new_files);
    assert(file_hash_records_of(new_files) =~= files);
    // The files of every earlier snapshot are the ones it had.
    assert forall|k: int| 0 <= k < before_rows.len() implies file_hashes_of_save(
        after.file_hashes,
        (#[trigger] before_rows[k]).uuid,
    ) == file_hashes_of_save(tables.file_hashes, before_rows[k].uuid) by {
        let earlier = before_rows[k].uuid;
        assert(tables.saves.contains(before_rows[k]));
        assert(has_save(tables.saves, earlier));
        lemma_filter_joined(tables.file_hashes, new_files, is_file_of(earlier));
        lemma_filter_none(new_files, is_file_of(earlier));
        assert(file_hashes_of_save(tables.file_hashes, earlier) + Seq::<DbFileHashView>::empty()
            =~= file_hashes_of_save(tables.file_hashes, earlier));
    }
    assert(snapshots_hydrated(after, after_rows) =~= snapshots_hydrated(tables, before_rows).push(
        SaveReferenceView { uuid, path_id, time: unix_timestamp_of(time), files_hash: files },
    ));
}

/// A snapshot recorded without files is found afterwards, with an empty
/// list of digests: the result is not absent.
pub proof fn lemma_empty_snapshot_is_found(
    tables: TablesView,
    uuid: Seq<char>,
    path_id: i32,
    time: SaveTime,
)
    requires
        tables_wf(tables),
        valid_time(time),
        !has_save(tables.saves, uuid),
    ensures
        snapshots_found(
            with_snapshot(tables, uuid, path_id, time, Seq::empty()),
            path_id,
        ) matches Some(found) && found.len() > 0 && found.last() == (SaveReferenceView {
            uuid,
            path_id,
            time: unix_timestamp_of(time),
            files_hash: Seq::empty(),
        }),
{
    lemma_snapshot_reads_back(tables, uuid, path_id, time, Seq::empty());
}

/// Two snapshots recorded for one save location are read back as two
/// entries, each with exactly its own digests.
pub proof fn lemma_two_snapshots_keep_their_files(
    tables: TablesView,
    path_id: i32,
    first_uuid: Seq<char>,
    first_time: SaveTime,
    first_files: Seq<FileHashView>,
    second_uuid: Seq<char>,
    second_time: SaveTime,
    second_files: Seq<FileHashView>,
)
    requires
        tables_wf(tables),
        valid_time(first_time),
        valid_time(second_time),
        !has_save(tables.saves, first_uuid),
        !has_save(tables.saves, second_uuid),
        first_uuid != second_uuid,
    ensures
        snapshots_found(
            with_snapshot(
                with_snapshot(tables, first_uuid, path_id, first_time, first_files),
                second_uuid,
                path_id,
                second_time,
                second_files,
            ),
            path_id,
        ) == Some(
            snapshots_hydrated(tables, saves_of_path(tables.saves, path_id)).push(
                SaveReferenceView {
                    uuid: first_uuid,
                    path_id,
                    time: unix_timestamp_of(first_time),
                    files_hash: first_files,
                },
            ).push(
                SaveReferenceView {
                    uuid: second_uuid,
                    path_id,
                    time: unix_timestamp_of(second_time),
                    files_hash: second_files,
                },
            ),
        ),
{
    let middle = with_snapshot(tables, first_uuid, path_id, first_time, first_files);
    lemma_snapshot_reads_back(tables, first_uuid, path_id, first_time, first_files);
    lemma_snapshot_keeps_invariant(
        tables,
        first_uuid,
        path_id,
        first_time,
        first_files,
    );
    assert(!has_save(middle.saves, second_uuid)) by {
        if has_save(middle.saves, second_uuid) {
            let at = choose|at: int|
                0 <= at < middle.saves.len() && (#[trigger] middle.saves[at]).uuid == second_uuid;
            if at < tables.saves.len() {
                assert(tables.saves[at].uuid == second_uuid);
            }
        }
    }
    lemma_snapshot_reads_back(middle, second_uuid, path_id, second_time, second_files);
}

/// A location registered under one operating system is never returned for
/// another: registering it leaves what is returned for every other operating
/// system as it was.
pub proof fn lemma_other_os_stays_out(
    paths: Seq<DbGamePathView>,
    row: DbGamePathView,
    game: i32,
    os: OS,
)
    requires
        row.operating_system != os,
    ensures
        path_texts(paths.push(row), game, os) == path_texts(paths, game, os),
{
    assert(paths.push(row) =~= paths + seq![row]);
    lemma_filter_joined(paths, seq![row], is_path_of_on(game, os));
    lemma_filter_none(seq![row], is_path_of_on(game, os));
    assert(paths.filter(is_path_of_on(game, os)) + Seq::<DbGamePathView>::empty()
        =~= paths.filter(is_path_of_on(game, os)));
}

/// Whether some save-path row of this game under this operating system holds
/// this location.
pub open spec fn is_path_of_game_on(
    paths: Seq<DbGamePathView>,
    game: i32,
    os: OS,
    text: Seq<char>,
) -> bool {
    exists|i: int|
        0 <= i < paths.len() && (#[trigger] paths[i]).game_metadata_id == game
            && paths[i].operating_system == os && paths[i].path == text
}

/// Every location returned for a game and an operating system is the
/// location of a save-path row of that game under that operating system.
pub proof fn lemma_path_texts_are_scoped(paths: Seq<DbGamePathView>, game: i32, os: OS)
    ensures
        forall|k: int|
            0 <= k < path_texts(paths, game, os).len() ==> is_path_of_game_on(
                paths,
                game,
                os,
                #[trigger] path_texts(paths, game, os)[k],
            ),
{
    lemma_filter_members(paths, is_path_of_on(game, os));
    let kept = paths.filter(is_path_of_on(game, os));
    assert forall|k: int| 0 <= k < path_texts(paths, game, os).len() implies is_path_of_game_on(
        paths,
        game,
        os,
        #[trigger] path_texts(paths, game, os)[k],
    ) by {
        assert(paths.contains(kept[k]));
        let i = choose|i: int| 0 <= i < paths.len() && paths[i] == kept[k];
        assert(paths[i].path == path_texts(paths, game, os)[k]);
    }
}

/// Whether some executable row of this game under this operating system
/// holds this location.
pub open spec fn is_executable_of_game_on(
    executables: Seq<DbGameExecutableView>,
    game: i32,
    os: OS,
    text: Seq<char>,
) -> bool {
    exists|i: int|
        0 <= i < executables.len() && (#[trigger] executables[i]).game_metadata_id == game
            && executables[i].operating_system == os && executables[i].executable == text
}

/// Every location returned for a game and an operating system is the
/// location of an executable row of that game under that operating system.
pub proof fn lemma_executable_texts_are_scoped(
    executables: Seq<DbGameExecutableView>,
    game: i32,
    os: OS,
)
    ensures
        forall|k: int|
            0 <= k < executable_texts(executables, game, os).len() ==> is_executable_of_game_on(
                executables,
                game,
                os,
                #[trigger] executable_texts(executables, game, os)[k],
            ),
{
    lemma_filter_members(executables, is_executable_of_on(game, os));
    let kept = executables.filter(is_executable_of_on(game, os));
    assert forall|k: int|
        0 <= k < executable_texts(executables, game, os).len() implies is_executable_of_game_on(
        executables,
        game,
        os,
        #[trigger] executable_texts(executables, game, os)[k],
    ) by {
        assert(executables.contains(kept[k]));
        let i = choose|i: int| 0 <= i < executables.len() && executables[i] == kept[k];
        assert(executables[i].executable == executable_texts(executables, game, os)[k]);
    }
}

/// What was never put in is not found: an identifier that no game has gives
/// no game, and a save location without a snapshot gives no snapshots.
pub proof fn lemma_absent_is_not_found(tables: TablesView, game: i32, path: i32)
    ensures
        !has_game(tables, game) ==> game_found(tables, game) is None,
        (forall|i: int| 0 <= i < tables.saves.len() ==> (#[trigger] tables.saves[i]).path_id != path)
            ==> snapshots_found(tables, path) is None,
{
    if forall|i: int| 0 <= i < tables.saves.len() ==> (#[trigger] tables.saves[i]).path_id != path {
        lemma_filter_none(tables.saves, is_save_of(path));
    }
}

} // verus!
