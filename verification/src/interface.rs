//! The catalog repository: game metadata, the places of saves and executables
//! on each operating system, and the history of save snapshots, kept in
//! memory. Every operation is one unit of work: it changes the tables as a
//! whole or not at all.

use crate::clock::{valid_time, SaveTime};
use crate::driver::run;
use crate::effects::{
    game_found, games_hydrated, lemma_run_does_the_operation, next_game_id, outcome_of,
    snapshots_found, tables_after, with_registered_game, with_snapshot,
};
use crate::ident::{hyphenated, SaveUuid};
use crate::mapper::{executable_records_of, executable_row_of, path_records_of, path_row_of};
use crate::plan::{outcome_view, Answer, CatalogError, Request};
use crate::records::{
    Executable, ExecutableCreate, FileHash, GameMetadata, GameMetadataCreate, SavePath,
    SavePathCreate, SaveReference, OS,
};
use crate::select::{
    executable_texts, executables_of_game, games_named, has_save, path_texts, paths_of_game,
};
use crate::store::{at_rest, EngineView, MemoryStore};
use crate::tables::{
    empty_tables, executable_insertable, path_insertable, tables_wf, with_executable, with_path,
    TablesView,
};
use vstd::prelude::*;

verus! {

/// The catalog.
#[derive(Debug)]
pub struct GameDatabase {
    store: MemoryStore,
}

impl DeepView for GameDatabase {
    type V = EngineView;

    closed spec fn deep_view(&self) -> EngineView {
        self.store.deep_view()
    }
}

impl GameDatabase {
    /// The tables of the catalog.
    pub open spec fn tables(&self) -> TablesView {
        self.deep_view().tables
    }

    /// The catalog's invariant: the tables' invariant holds, and between two
    /// operations no transaction is open.
    pub open spec fn wf(&self) -> bool {
        tables_wf(self.tables()) && self.deep_view() == at_rest(self.tables())
    }

    /// A catalog without a game.
    pub fn new() -> (database: Self)
        ensures
            database.wf(),
            database.tables() == empty_tables(),
    {
        GameDatabase { store: MemoryStore::new() }
    }

    /// Carries out one operation as one unit of work.
    pub fn perform(&mut self, request: Request) -> (outcome: Result<Answer, CatalogError>)
        requires
            old(self).wf(),
        ensures
            final(self).wf(),
            outcome_view(outcome) == outcome_of(old(self).tables(), request.deep_view()),
            final(self).tables() == tables_after(old(self).tables(), request.deep_view()),
    {
        proof {
            lemma_run_does_the_operation(self.tables(), request.deep_view());
        }
        run(request.start(), &mut self.store)
    }

    /// Registers a game with all its aliases, or nothing at all, and hands
    /// back the identifier that the game was given, which is the next one.
    /// Where the game table has no identifier left the catalog stays as it
    /// was.
    pub fn add_game_metadata(&mut self, game_metadata: &GameMetadataCreate) -> (result: Result<
        i32,
        CatalogError,
    >)
        requires
            old(self).wf(),
        ensures
            final(self).wf(),
            old(self).tables().games.len() < i32::MAX ==> result == Ok::<i32, CatalogError>(
                next_game_id(old(self).tables()),
            ) && final(self).tables() == with_registered_game(
                old(self).tables(),
                game_metadata.deep_view(),
            ),
            old(self).tables().games.len() >= i32::MAX ==> result == Err::<i32, CatalogError>(
                CatalogError::Storage,
            ) && final(self).tables() == old(self).tables(),
    {
        match self.perform(Request::AddGameMetadata(game_metadata.clone())) {
            Ok(Answer::Registered(id)) => Ok(id),
            Ok(_) => Err(CatalogError::Integrity),
            Err(error) => Err(error),
        }
    }

    /// The games whose display name is exactly `target_name`, each with its
    /// aliases, in the order in which they were registered.
    pub fn get_game_metadata_by_name(&mut self, target_name: &str) -> (result: Result<
        Vec<GameMetadata>,
        CatalogError,
    >)
        requires
            old(self).wf(),
        ensures
            final(self).wf(),
            final(self).tables() == old(self).tables(),
            result is Ok,
            result.unwrap().deep_view() == games_hydrated(
                old(self).tables(),
                games_named(old(self).tables().games, target_name@),
            ),
    {
        match self.perform(Request::GameMetadataByName(target_name.to_owned())) {
            Ok(Answer::Games(games)) => Ok(games),
            Ok(_) => Err(CatalogError::Integrity),
            Err(error) => Err(error),
        }
    }

    /// The game with this identifier and its aliases, or nothing where no
    /// game has it.
    pub fn get_game_metadata_by_id(&mut self, target_id: &i32) -> (result: Result<
        Option<GameMetadata>,
        CatalogError,
    >)
        requires
            old(self).wf(),
        ensures
            final(self).wf(),
            final(self).tables() == old(self).tables(),
            result is Ok,
            result.unwrap().deep_view() == game_found(old(self).tables(), *target_id),
    {
        match self.perform(Request::GameMetadataById(*target_id)) {
            Ok(Answer::Game(game)) => Ok(game),
            Ok(_) => Err(CatalogError::Integrity),
            Err(error) => Err(error),
        }
    }

    /// Every game, each with its aliases, in the order in which they were
    /// registered.
    pub fn get_games_metadata(&mut self) -> (result: Result<Vec<GameMetadata>, CatalogError>)
        requires
            old(self).wf(),
        ensures
            final(self).wf(),
            final(self).tables() == old(self).tables(),
            result is Ok,
            result.unwrap().deep_view() == games_hydrated(
                old(self).tables(),
                old(self).tables().games,
            ),
    {
        match self.perform(Request::AllGameMetadata) {
            Ok(Answer::Games(games)) => Ok(games),
            Ok(_) => Err(CatalogError::Integrity),
            Err(error) => Err(error),
        }
    }

    /// Registers a save location for an existing game. Where the game does
    /// not exist, or the table has no identifier left, the catalog stays as
    /// it was.
    pub fn add_game_path(&mut self, game_id: i32, path: &SavePathCreate) -> (result: Result<
        (),
        CatalogError,
    >)
        requires
            old(self).wf(),
        ensures
            final(self).wf(),
            path_insertable(old(self).tables(), path_row_of(game_id, path.deep_view())) ==> result
                == Ok::<(), CatalogError>(()) && final(self).tables() == with_path(
                old(self).tables(),
                path_row_of(game_id, path.deep_view()),
            ),
            !path_insertable(old(self).tables(), path_row_of(game_id, path.deep_view()))
                ==> result == Err::<(), CatalogError>(CatalogError::Storage) && final(self).tables() == old(self).tables(),
    {
        match self.perform(Request::AddGamePath(game_id, path.clone())) {
            Ok(_) => Ok(()),
            Err(error) => Err(error),
        }
    }

    /// The save locations of a game under one operating system, and under no
    /// other.
    pub fn get_paths_by_game_id_and_os(&mut self, game_id: i32, os: OS) -> (result: Result<
        Vec<String>,
        CatalogError,
    >)
        requires
            old(self).wf(),
        ensures
            final(self).wf(),
            final(self).tables() == old(self).tables(),
            result is Ok,
            result.unwrap().deep_view() == path_texts(old(self).tables().paths, game_id, os),
    {
        match self.perform(Request::PathsByGameAndOs(game_id, os)) {
            Ok(Answer::Locations(texts)) => Ok(texts),
            Ok(_) => Err(CatalogError::Integrity),
            Err(error) => Err(error),
        }
    }

    /// The save locations of a game under every operating system, each with
    /// its identifier and its operating system.
    pub fn get_paths_by_game_id(&mut self, game_id: i32) -> (result: Result<
        Vec<SavePath>,
        CatalogError,
    >)
        requires
            old(self).wf(),
        ensures
            final(self).wf(),
            final(self).tables() == old(self).tables(),
            result is Ok,
            result.unwrap().deep_view() == path_records_of(
                paths_of_game(old(self).tables().paths, game_id),
            ),
    {
        match self.perform(Request::PathsByGame(game_id)) {
            Ok(Answer::Paths(paths)) => Ok(paths),
            Ok(_) => Err(CatalogError::Integrity),
            Err(error) => Err(error),
        }
    }

    /// Registers an executable location for an existing game. Where the game
    /// does not exist, or the table has no identifier left, the catalog stays
    /// as it was.
    pub fn add_game_executable(&mut self, game_id: i32, executable: &ExecutableCreate) -> (result:
        Result<(), CatalogError>)
        requires
            old(self).wf(),
        ensures
            final(self).wf(),
            executable_insertable(
                old(self).tables(),
                executable_row_of(game_id, executable.deep_view()),
            ) ==> result == Ok::<(), CatalogError>(()) && final(self).tables() == with_executable(
                old(self).tables(),
                executable_row_of(game_id, executable.deep_view()),
            ),
            !executable_insertable(
                old(self).tables(),
                executable_row_of(game_id, executable.deep_view()),
            ) ==> result == Err::<(), CatalogError>(CatalogError::Storage) && final(self).tables() == old(self).tables(),
    {
        match self.perform(Request::AddGameExecutable(game_id, executable.clone())) {
            Ok(_) => Ok(()),
            Err(error) => Err(error),
        }
    }

    /// The executable locations of a game under one operating system, and
    /// under no other.
    pub fn get_executable_by_game_id_and_os(&mut self, game_id: i32, os: OS) -> (result: Result<
        Vec<String>,
        CatalogError,
    >)
        requires
            old(self).wf(),
        ensures
            final(self).wf(),
            final(self).tables() == old(self).tables(),
            result is Ok,
            result.unwrap().deep_view() == executable_texts(
                old(self).tables().executables,
                game_id,
                os,
            ),
    {
        match self.perform(Request::ExecutablesByGameAndOs(game_id, os)) {
            Ok(Answer::Locations(texts)) => Ok(texts),
            Ok(_) => Err(CatalogError::Integrity),
            Err(error) => Err(error),
        }
    }

    /// The executable locations of a game under every operating system, each
    /// with its identifier and its operating system.
    pub fn get_executable_by_game_id(&mut self, game_id: i32) -> (result: Result<
        Vec<Executable>,
        CatalogError,
    >)
        requires
            old(self).wf(),
        ensures
            final(self).wf(),
            final(self).tables() == old(self).tables(),
            result is Ok,
            result.unwrap().deep_view() == executable_records_of(
                executables_of_game(old(self).tables().executables, game_id),
            ),
    {
        match self.perform(Request::ExecutablesByGame(game_id)) {
            Ok(Answer::Executables(executables)) => Ok(executables),
            Ok(_) => Err(CatalogError::Integrity),
            Err(error) => Err(error),
        }
    }

    /// Records a snapshot taken at `time` under the identifier text `uuid`,
    /// with the digest of each of its files, or nothing at all: where `time`
    /// is no real moment, or a snapshot has that identifier already, the
    /// catalog stays as it was. A snapshot without files is recorded as such.
    pub fn record_save(
        &mut self,
        uuid: String,
        path_id: i32,
        time: SaveTime,
        files_hash: Vec<FileHash>,
    ) -> (result: Result<(), CatalogError>)
        requires
            old(self).wf(),
        ensures
            final(self).wf(),
            valid_time(time) && !has_save(old(self).tables().saves, uuid@) ==> result == Ok::<
                (),
                CatalogError,
            >(()) && final(self).tables() == with_snapshot(
                old(self).tables(),
                uuid@,
                path_id,
                time,
                files_hash.deep_view(),
            ),
            !valid_time(time) || has_save(old(self).tables().saves, uuid@) ==> result == Err::<
                (),
                CatalogError,
            >(CatalogError::Storage) && final(self).tables() == old(self).tables(),
    {
        match self.perform(Request::AddSave { uuid, path_id, time, files: files_hash }) {
            Ok(_) => Ok(()),
            Err(error) => Err(error),
        }
    }

    /// Records a snapshot taken now under the hyphenated text of `uuid`, with
    /// the digest of each of its files, or nothing at all: where a snapshot
    /// has that identifier already the catalog stays as it was.
    pub fn add_reference_to_save(
        &mut self,
        uuid: SaveUuid,
        path_id: i32,
        files_hash: Vec<FileHash>,
    ) -> (result: Result<(), CatalogError>)
        requires
            old(self).wf(),
        ensures
            final(self).wf(),
            !has_save(old(self).tables().saves, hyphenated(uuid.value)) ==> result == Ok::<
                (),
                CatalogError,
            >(()) && exists|time: SaveTime|
                valid_time(time) && final(self).tables() == #[trigger] with_snapshot(
                    old(self).tables(),
                    hyphenated(uuid.value),
                    path_id,
                    time,
                    files_hash.deep_view(),
                ),
            has_save(old(self).tables().saves, hyphenated(uuid.value)) ==> result == Err::<
                (),
                CatalogError,
            >(CatalogError::Storage) && final(self).tables() == old(self).tables(),
    {
        match self.perform(Request::add_save_now(uuid, path_id, files_hash)) {
            Ok(_) => Ok(()),
            Err(error) => Err(error),
        }
    }

    /// The snapshots of a save location, each with the digests of its own
    /// files, in the order in which they were recorded; or nothing where the
    /// location has no snapshot.
    pub fn get_reference_to_save_by_path_id(&mut self, path_id: i32) -> (result: Result<
        Option<Vec<SaveReference>>,
        CatalogError,
    >)
        requires
            old(self).wf(),
        ensures
            final(self).wf(),
            final(self).tables() == old(self).tables(),
            result is Ok,
            result.unwrap().deep_view() == snapshots_found(old(self).tables(), path_id),
    {
        match self.perform(Request::SavesByPath(path_id)) {
            Ok(Answer::Saves(saves)) => Ok(saves),
            Ok(_) => Err(CatalogError::Integrity),
            Err(error) => Err(error),
        }
    }
}

} // verus!
