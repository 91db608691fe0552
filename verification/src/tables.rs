//! The catalog's tables and what each data statement does to them.

use crate::clock::valid_time;
use crate::statement::{Fault, Reply, ReplyView, Statement, StatementView};
use crate::rows::{
    DbFileHash, DbFileHashView, DbGameExecutable, DbGameExecutableView, DbGameMetadata,
    DbGameMetadataView, DbGameName, DbGameNameView, DbGamePath, DbGamePathView, DbGameSave,
    DbGameSaveView,
};
use crate::select::{
    alias_name_lists, contains_save, executable_texts, executables_of_game, file_hash_lists,
    game_identified, games_named, has_save, lemma_pushed_view, path_texts, paths_of_game,
    saves_of_path, select_alias_name_lists, select_executable_texts, select_executables_of_game,
    select_file_hash_lists, select_games_named, select_path_texts, select_paths_of_game,
    select_saves_of_path,
};
use vstd::prelude::*;

verus! {

/// The six tables as mathematical values, each in the order of insertion.
pub struct TablesView {
    pub games: Seq<DbGameMetadataView>,
    pub names: Seq<DbGameNameView>,
    pub paths: Seq<DbGamePathView>,
    pub executables: Seq<DbGameExecutableView>,
    pub saves: Seq<DbGameSaveView>,
    pub file_hashes: Seq<DbFileHashView>,
}

/// The tables without a row.
pub open spec fn empty_tables() -> TablesView {
    TablesView {
        games: Seq::empty(),
        names: Seq::empty(),
        paths: Seq::empty(),
        executables: Seq::empty(),
        saves: Seq::empty(),
        file_hashes: Seq::empty(),
    }
}

/// Whether a game with this identifier exists.
pub open spec fn has_game(tables: TablesView, id: i32) -> bool {
    1 <= id <= tables.games.len()
}

/// The tables' invariant: identifiers count the rows of a table from 1, every
/// alias, save path and executable belongs to an existing game, no two
/// snapshots share an identifier, every snapshot was taken at a real moment,
/// and every digest belongs to an existing snapshot.
pub open spec fn tables_wf(tables: TablesView) -> bool {
    &&& tables.games.len() <= i32::MAX
    &&& tables.paths.len() <= i32::MAX
    &&& tables.executables.len() <= i32::MAX
    &&& forall|i: int|
        0 <= i < tables.games.len() ==> (#[trigger] tables.games[i]).id == Some((i + 1) as i32)
    &&& forall|i: int|
        0 <= i < tables.paths.len() ==> (#[trigger] tables.paths[i]).id == Some((i + 1) as i32)
    &&& forall|i: int|
        0 <= i < tables.executables.len() ==> (#[trigger] tables.executables[i]).id == Some(
            (i + 1) as i32,
        )
    &&& forall|i: int|
        0 <= i < tables.names.len() ==> has_game(
            tables,
            (#[trigger] tables.names[i]).game_metadata_id,
        )
    &&& forall|i: int|
        0 <= i < tables.paths.len() ==> has_game(
            tables,
            (#[trigger] tables.paths[i]).game_metadata_id,
        )
    &&& forall|i: int|
        0 <= i < tables.executables.len() ==> has_game(
            tables,
            (#[trigger] tables.executables[i]).game_metadata_id,
        )
    &&& forall|i: int, j: int|
        0 <= i < j < tables.saves.len() ==> (#[trigger] tables.saves[i]).uuid != (
        #[trigger] tables.saves[j]).uuid
    &&& forall|i: int| 0 <= i < tables.saves.len() ==> valid_time((#[trigger] tables.saves[i]).time)
    &&& forall|i: int|
        0 <= i < tables.file_hashes.len() ==> has_save(
            tables.saves,
            (#[trigger] tables.file_hashes[i]).game_save_uuid,
        )
}

/// A game row can be inserted when it leaves its identifier to the storage
/// and the table has an identifier left.
pub open spec fn game_insertable(tables: TablesView, row: DbGameMetadataView) -> bool {
    row.id is None && tables.games.len() < i32::MAX
}

/// The tables after the game row was inserted under the next identifier.
pub open spec fn with_game(tables: TablesView, row: DbGameMetadataView) -> TablesView {
    TablesView {
        games: tables.games.push(
            DbGameMetadataView { id: Some((tables.games.len() + 1) as i32), ..row },
        ),
        ..tables
    }
}

/// Alias rows can be inserted when each belongs to an existing game.
pub open spec fn alt_names_insertable(tables: TablesView, rows: Seq<DbGameNameView>) -> bool {
    forall|i: int| 0 <= i < rows.len() ==> has_game(tables, (#[trigger] rows[i]).game_metadata_id)
}

/// The tables after the alias rows were appended.
pub open spec fn with_alt_names(tables: TablesView, rows: Seq<DbGameNameView>) -> TablesView {
    TablesView { names: tables.names + rows, ..tables }
}

/// A save-path row can be inserted when it leaves its identifier to the
/// storage, the table has an identifier left and its game exists.
pub open spec fn path_insertable(tables: TablesView, row: DbGamePathView) -> bool {
    row.id is None && tables.paths.len() < i32::MAX && has_game(tables, row.game_metadata_id)
}

/// The tables after the save-path row was inserted under the next identifier.
pub open spec fn with_path(tables: TablesView, row: DbGamePathView) -> TablesView {
    TablesView {
        paths: tables.paths.push(
            DbGamePathView { id: Some((tables.paths.len() + 1) as i32), ..row },
        ),
        ..tables
    }
}

/// An executable row can be inserted when it leaves its identifier to the
/// storage, the table has an identifier left and its game exists.
pub open spec fn executable_insertable(tables: TablesView, row: DbGameExecutableView) -> bool {
    row.id is None && tables.executables.len() < i32::MAX && has_game(
        tables,
        row.game_metadata_id,
    )
}

/// The tables after the executable row was inserted under the next identifier.
pub open spec fn with_executable(tables: TablesView, row: DbGameExecutableView) -> TablesView {
    TablesView {
        executables: tables.executables.push(
            DbGameExecutableView { id: Some((tables.executables.len() + 1) as i32), ..row },
        ),
        ..tables
    }
}

/// A snapshot row can be inserted when its moment is a real one and no
/// snapshot has its identifier yet.
pub open spec fn save_insertable(tables: TablesView, row: DbGameSaveView) -> bool {
    valid_time(row.time) && !has_save(tables.saves, row.uuid)
}

/// The tables after the snapshot row was appended.
pub open spec fn with_save(tables: TablesView, row: DbGameSaveView) -> TablesView {
    TablesView { saves: tables.saves.push(row), ..tables }
}

/// Digest rows can be inserted when each belongs to an existing snapshot.
pub open spec fn file_hashes_insertable(tables: TablesView, rows: Seq<DbFileHashView>) -> bool {
    forall|i: int|
        0 <= i < rows.len() ==> has_save(tables.saves, (#[trigger] rows[i]).game_save_uuid)
}

/// The tables after the digest rows were appended.
pub open spec fn with_file_hashes(tables: TablesView, rows: Seq<DbFileHashView>) -> TablesView {
    TablesView { file_hashes: tables.file_hashes + rows, ..tables }
}

/// The tables after a data statement, and the reply to it. A statement that
/// cannot be carried out leaves the tables as they were.
pub open spec fn apply_spec(tables: TablesView, statement: StatementView) -> (
    TablesView,
    ReplyView,
) {
    match statement {
        StatementView::InsertGame(row) => if game_insertable(tables, row) {
            (with_game(tables, row), ReplyView::Inserted(Some((tables.games.len() + 1) as i32)))
        } else {
            (tables, ReplyView::Failed(Fault::Rejected))
        },
        StatementView::InsertAltNames(rows) => if alt_names_insertable(tables, rows) {
            (with_alt_names(tables, rows), ReplyView::Done)
        } else {
            (tables, ReplyView::Failed(Fault::Rejected))
        },
        StatementView::GamesByName(name) => (
            tables,
            ReplyView::Games(games_named(tables.games, name)),
        ),
        StatementView::GameById(id) => (tables, ReplyView::Game(game_identified(tables.games, id))),
        StatementView::AllGames => (tables, ReplyView::Games(tables.games)),
        StatementView::AltNamesOf(games) => (
            tables,
            ReplyView::NameLists(alias_name_lists(tables.names, games)),
        ),
        StatementView::InsertPath(row) => if path_insertable(tables, row) {
            (with_path(tables, row), ReplyView::Done)
        } else {
            (tables, ReplyView::Failed(Fault::Rejected))
        },
        StatementView::PathTextsByGameAndOs(game, os) => (
            tables,
            ReplyView::Texts(path_texts(tables.paths, game, os)),
        ),
        StatementView::PathsByGame(game) => (
            tables,
            ReplyView::Paths(paths_of_game(tables.paths, game)),
        ),
        StatementView::InsertExecutable(row) => if executable_insertable(tables, row) {
            (with_executable(tables, row), ReplyView::Done)
        } else {
            (tables, ReplyView::Failed(Fault::Rejected))
        },
        StatementView::ExecutableTextsByGameAndOs(game, os) => (
            tables,
            ReplyView::Texts(executable_texts(tables.executables, game, os)),
        ),
        StatementView::ExecutablesByGame(game) => (
            tables,
            ReplyView::Executables(executables_of_game(tables.executables, game)),
        ),
        StatementView::InsertSave(row) => if save_insertable(tables, row) {
            (with_save(tables, row), ReplyView::Done)
        } else {
            (tables, ReplyView::Failed(Fault::Rejected))
        },
        StatementView::InsertFileHashes(rows) => if file_hashes_insertable(tables, rows) {
            (with_file_hashes(tables, rows), ReplyView::Done)
        } else {
            (tables, ReplyView::Failed(Fault::Rejected))
        },
        StatementView::SavesByPath(path) => (
            tables,
            ReplyView::Saves(saves_of_path(tables.saves, path)),
        ),
        StatementView::FileHashesOf(uuids) => (
            tables,
            ReplyView::FileHashLists(file_hash_lists(tables.file_hashes, uuids)),
        ),
        StatementView::Begin | StatementView::Commit | StatementView::Rollback => (
            tables,
            ReplyView::Failed(Fault::Rejected),
        ),
    }
}

/// Every data statement keeps the tables' invariant.
pub proof fn lemma_apply_keeps_invariant(tables: TablesView, statement: StatementView)
    requires
        tables_wf(tables),
    ensures
        tables_wf(apply_spec(tables, statement).0),
{
    let after = apply_spec(tables, statement).0;
    match statement {
        StatementView::InsertGame(row) => {
            if game_insertable(tables, row) {
                assert forall|i: int| 0 <= i < after.names.len() implies has_game(
                    after,
                    (#[trigger] after.names[i]).game_metadata_id,
                ) by {
                    assert(has_game(tables, tables.names[i].game_metadata_id));
                }
                assert forall|i: int| 0 <= i < after.paths.len() implies has_game(
                    after,
                    (#[trigger] after.paths[i]).game_metadata_id,
                ) by {
                    assert(has_game(tables, tables.paths[i].game_metadata_id));
                }
                assert forall|i: int| 0 <= i < after.executables.len() implies has_game(
                    after,
                    (#[trigger] after.executables[i]).game_metadata_id,
                ) by {
                    assert(has_game(tables, tables.executables[i].game_metadata_id));
                }
            }
        },
        StatementView::InsertAltNames(rows) => {
            if alt_names_insertable(tables, rows) {
                assert forall|i: int| 0 <= i < after.names.len() implies has_game(
                    after,
                    (#[trigger] after.names[i]).game_metadata_id,
                ) by {
                    if i >= tables.names.len() {
                        assert(after.names[i] == rows[i - tables.names.len()]);
                    }
                }
            }
        },
        StatementView::InsertSave(row) => {
            if save_insertable(tables, row) {
                assert forall|i: int| 0 <= i < after.file_hashes.len() implies has_save(
                    after.saves,
                    (#[trigger] after.file_hashes[i]).game_save_uuid,
                ) by {
                    let uuid = tables.file_hashes[i].game_save_uuid;
                    assert(has_save(tables.saves, uuid));
                    let k = choose|k: int|
                        0 <= k < tables.saves.len() && (#[trigger] tables.saves[k]).uuid == uuid;
                    assert(after.saves[k].uuid == uuid);
                }
            }
        },
        StatementView::InsertFileHashes(rows) => {
            if file_hashes_insertable(tables, rows) {
                assert forall|i: int| 0 <= i < after.file_hashes.len() implies has_save(
                    after.saves,
                    (#[trigger] after.file_hashes[i]).game_save_uuid,
                ) by {
                    if i >= tables.file_hashes.len() {
                        assert(after.file_hashes[i] == rows[i - tables.file_hashes.len()]);
                    }
                }
            }
        },
        _ => {},
    }
}

/// The six tables, held in memory.
#[derive(Debug)]
pub struct Tables {
    games: Vec<DbGameMetadata>,
    names: Vec<DbGameName>,
    paths: Vec<DbGamePath>,
    executables: Vec<DbGameExecutable>,
    saves: Vec<DbGameSave>,
    file_hashes: Vec<DbFileHash>,
}

impl DeepView for Tables {
    type V = TablesView;

    closed spec fn deep_view(&self) -> TablesView {
        TablesView {
            games: self.games.deep_view(),
            names: self.names.deep_view(),
            paths: self.paths.deep_view(),
            executables: self.executables.deep_view(),
            saves: self.saves.deep_view(),
            file_hashes: self.file_hashes.deep_view(),
        }
    }
}

fn copy_games(rows: &Vec<DbGameMetadata>) -> (copy: Vec<DbGameMetadata>)
    ensures
        copy.deep_view() == rows.deep_view(),
{
    let mut copy: Vec<DbGameMetadata> = Vec::new();
    let mut i: usize = 0;
    while i < rows.len()
        invariant
            i <= rows.len(),
            copy.len() == i,
            forall|k: int| 0 <= k < i ==> copy[k].deep_view() == rows[k].deep_view(),
        decreases rows.len() - i,
    {
        copy.push(rows[i].clone());
        i += 1;
    }
    assert(copy.deep_view() =~= rows.deep_view());
    copy
}

fn copy_names(rows: &Vec<DbGameName>) -> (copy: Vec<DbGameName>)
    ensures
        copy.deep_view() == rows.deep_view(),
{
    let mut copy: Vec<DbGameName> = Vec::new();
    let mut i: usize = 0;
    while i < rows.len()
        invariant
            i <= rows.len(),
            copy.len() == i,
            forall|k: int| 0 <= k < i ==> copy[k].deep_view() == rows[k].deep_view(),
        decreases rows.len() - i,
    {
        copy.push(rows[i].clone());
        i += 1;
    }
    assert(copy.deep_view() =~= rows.deep_view());
    copy
}

fn copy_paths(rows: &Vec<DbGamePath>) -> (copy: Vec<DbGamePath>)
    ensures
        copy.deep_view() == rows.deep_view(),
{
    let mut copy: Vec<DbGamePath> = Vec::new();
    let mut i: usize = 0;
    while i < rows.len()
        invariant
            i <= rows.len(),
            copy.len() == i,
            forall|k: int| 0 <= k < i ==> copy[k].deep_view() == rows[k].deep_view(),
        decreases rows.len() - i,
    {
        copy.push(rows[i].clone());
        i += 1;
    }
    assert(copy.deep_view() =~= rows.deep_view());
    copy
}

fn copy_executables(rows: &Vec<DbGameExecutable>) -> (copy: Vec<DbGameExecutable>)
    ensures
        copy.deep_view() == rows.deep_view(),
{
    let mut copy: Vec<DbGameExecutable> = Vec::new();
    let mut i: usize = 0;
    while i < rows.len()
        invariant
            i <= rows.len(),
            copy.len() == i,
            forall|k: int| 0 <= k < i ==> copy[k].deep_view() == rows[k].deep_view(),
        decreases rows.len() - i,
    {
        copy.push(rows[i].clone());
        i += 1;
    }
    assert(copy.deep_view() =~= rows.deep_view());
    copy
}

fn copy_saves(rows: &Vec<DbGameSave>) -> (copy: Vec<DbGameSave>)
    ensures
        copy.deep_view() == rows.deep_view(),
{
    let mut copy: Vec<DbGameSave> = Vec::new();
    let mut i: usize = 0;
    while i < rows.len()
        invariant
            i <= rows.len(),
            copy.len() == i,
            forall|k: int| 0 <= k < i ==> copy[k].deep_view() == rows[k].deep_view(),
        decreases rows.len() - i,
    {
        copy.push(rows[i].clone());
        i += 1;
    }
    assert(copy.deep_view() =~= rows.deep_view());
    copy
}

fn copy_file_hash_rows(rows: &Vec<DbFileHash>) -> (copy: Vec<DbFileHash>)
    ensures
        copy.deep_view() == rows.deep_view(),
{
    let mut copy: Vec<DbFileHash> = Vec::new();
    let mut i: usize = 0;
    while i < rows.len()
        invariant
            i <= rows.len(),
            copy.len() == i,
            forall|k: int| 0 <= k < i ==> copy[k].deep_view() == rows[k].deep_view(),
        decreases rows.len() - i,
    {
        copy.push(rows[i].clone());
        i += 1;
    }
    assert(copy.deep_view() =~= rows.deep_view());
    copy
}

impl Clone for Tables {
    fn clone(&self) -> (copy: Self)
        ensures
            copy.deep_view() == self.deep_view(),
    {
        Tables {
            games: copy_games(&self.games),
            names: copy_names(&self.names),
            paths: copy_paths(&self.paths),
            executables: copy_executables(&self.executables),
            saves: copy_saves(&self.saves),
            file_hashes: copy_file_hash_rows(&self.file_hashes),
        }
    }
}

impl Tables {
    /// Tables without a row.
    pub fn new() -> (tables: Self)
        ensures
            tables.deep_view() == empty_tables(),
            tables_wf(tables.deep_view()),
    {
        let tables = Tables {
            games: Vec::new(),
            names: Vec::new(),
            paths: Vec::new(),
            executables: Vec::new(),
            saves: Vec::new(),
            file_hashes: Vec::new(),
        };
        assert(tables.deep_view().games =~= Seq::empty());
        assert(tables.deep_view().names =~= Seq::empty());
        assert(tables.deep_view().paths =~= Seq::empty());
        assert(tables.deep_view().executables =~= Seq::empty());
        assert(tables.deep_view().saves =~= Seq::empty());
        assert(tables.deep_view().file_hashes =~= Seq::empty());
        tables
    }

    fn knows_game(&self, id: i32) -> (known: bool)
        ensures
            known == has_game(self.deep_view(), id),
    {
        id >= 1 && (id as usize) <= self.games.len()
    }

    fn knows_each_game(&self, rows: &Vec<DbGameName>) -> (known: bool)
        ensures
            known == alt_names_insertable(self.deep_view(), rows.deep_view()),
    {
        let mut i: usize = 0;
        while i < rows.len()
            invariant
                i <= rows.len(),
                forall|k: int|
                    0 <= k < i ==> has_game(
                        self.deep_view(),
                        (#[trigger] rows.deep_view()[k]).game_metadata_id,
                    ),
            decreases rows.len() - i,
        {
            if !self.knows_game(rows[i].game_metadata_id) {
                assert(!has_game(self.deep_view(), rows.deep_view()[i as int].game_metadata_id));
                return false;
            }
            i += 1;
        }
        true
    }

    fn knows_each_save(&self, rows: &Vec<DbFileHash>) -> (known: bool)
        ensures
            known == file_hashes_insertable(self.deep_view(), rows.deep_view()),
    {
        let mut i: usize = 0;
        while i < rows.len()
            invariant
                i <= rows.len(),
                forall|k: int|
                    0 <= k < i ==> has_save(
                        self.deep_view().saves,
                        (#[trigger] rows.deep_view()[k]).game_save_uuid,
                    ),
            decreases rows.len() - i,
        {
            if !contains_save(&self.saves, &rows[i].game_save_uuid) {
                assert(!has_save(
                    self.deep_view().saves,
                    rows.deep_view()[i as int].game_save_uuid,
                ));
                return false;
            }
            i += 1;
        }
        true
    }

    fn append_names(&mut self, rows: &Vec<DbGameName>)
        ensures
            final(self).deep_view() == with_alt_names(old(self).deep_view(), rows.deep_view()),
    {
        let ghost before = old(self).names.deep_view();
        let mut i: usize = 0;
        assert(self.names.deep_view() =~= before + rows.deep_view().take(0));
        while i < rows.len()
            invariant
                i <= rows.len(),
                self.names.deep_view() == before + rows.deep_view().take(i as int),
                self.games == old(self).games,
                self.paths == old(self).paths,
                self.executables == old(self).executables,
                self.saves == old(self).saves,
                self.file_hashes == old(self).file_hashes,
            decreases rows.len() - i,
        {
            let ghost earlier = self.names;
            let row = rows[i].clone();
            self.names.push(row);
            proof {
                lemma_pushed_view(earlier, self.names, row);
                assert(self.names.deep_view() =~= before + rows.deep_view().take(i + 1));
            }
            i += 1;
        }
        assert(rows.deep_view().take(rows.len() as int) =~= rows.deep_view());
    }

    fn append_file_hashes(&mut self, rows: &Vec<DbFileHash>)
        ensures
            final(self).deep_view() == with_file_hashes(old(self).deep_view(), rows.deep_view()),
    {
        let ghost before = old(self).file_hashes.deep_view();
        let mut i: usize = 0;
        assert(self.file_hashes.deep_view() =~= before + rows.deep_view().take(0));
        while i < rows.len()
            invariant
                i <= rows.len(),
                self.file_hashes.deep_view() == before + rows.deep_view().take(i as int),
                self.games == old(self).games,
                self.names == old(self).names,
                self.paths == old(self).paths,
                self.executables == old(self).executables,
                self.saves == old(self).saves,
            decreases rows.len() - i,
        {
            let ghost earlier = self.file_hashes;
            let row = rows[i].clone();
            self.file_hashes.push(row);
            proof {
                lemma_pushed_view(earlier, self.file_hashes, row);
                assert(self.file_hashes.deep_view() =~= before + rows.deep_view().take(i + 1));
            }
            i += 1;
        }
        assert(rows.deep_view().take(rows.len() as int) =~= rows.deep_view());
    }

    fn game_at(&self, id: i32) -> (row: Option<DbGameMetadata>)
        ensures
            row.deep_view() == game_identified(self.deep_view().games, id),
    {
        if self.knows_game(id) {
            Some(self.games[(id - 1) as usize].clone())
        } else {
            None
        }
    }

    /// Carries out one data statement.
    pub fn apply(&mut self, statement: &Statement) -> (reply: Reply)
        requires
            tables_wf(old(self).deep_view()),
        ensures
            tables_wf(final(self).deep_view()),
            (final(self).deep_view(), reply.deep_view()) == apply_spec(
                old(self).deep_view(),
                statement.deep_view(),
            ),
    {
        proof {
            lemma_apply_keeps_invariant(self.deep_view(), statement.deep_view());
        }
        match statement {
            Statement::InsertGame(row) => {
                if row.id.is_none() && self.games.len() < 2147483647 {
                    let ghost earlier = self.games;
                    let id: i32 = (self.games.len() + 1) as i32;
                    let mut stored = row.clone();
                    stored.id = Some(id);
                    self.games.push(stored);
                    proof {
                        lemma_pushed_view(earlier, self.games, stored);
                    }
                    Reply::Inserted(Some(id))
                } else {
                    Reply::Failed(Fault::Rejected)
                }
            },
            Statement::InsertAltNames(rows) => {
                if self.knows_each_game(rows) {
                    self.append_names(rows);
                    Reply::Done
                } else {
                    Reply::Failed(Fault::Rejected)
                }
            },
            Statement::GamesByName(name) => Reply::Games(select_games_named(&self.games, name)),
            Statement::GameById(id) => Reply::Game(self.game_at(*id)),
            Statement::AllGames => Reply::Games(copy_games(&self.games)),
            Statement::AltNamesOf(games) => Reply::NameLists(
                select_alias_name_lists(&self.names, games),
            ),
            Statement::InsertPath(row) => {
                if row.id.is_none() && self.paths.len() < 2147483647 && self.knows_game(
                    row.game_metadata_id,
                ) {
                    let ghost earlier = self.paths;
                    let id: i32 = (self.paths.len() + 1) as i32;
                    let mut stored = row.clone();
                    stored.id = Some(id);
                    self.paths.push(stored);
                    proof {
                        lemma_pushed_view(earlier, self.paths, stored);
                    }
                    Reply::Done
                } else {
                    Reply::Failed(Fault::Rejected)
                }
            },
            Statement::PathTextsByGameAndOs(game, os) => Reply::Texts(
                select_path_texts(&self.paths, *game, *os),
            ),
            Statement::PathsByGame(game) => Reply::Paths(select_paths_of_game(&self.paths, *game)),
            Statement::InsertExecutable(row) => {
                if row.id.is_none() && self.executables.len() < 2147483647 && self.knows_game(
                    row.game_metadata_id,
                ) {
                    let ghost earlier = self.executables;
                    let id: i32 = (self.executables.len() + 1) as i32;
                    let mut stored = row.clone();
                    stored.id = Some(id);
                    self.executables.push(stored);
                    proof {
                        lemma_pushed_view(earlier, self.executables, stored);
                    }
                    Reply::Done
                } else {
                    Reply::Failed(Fault::Rejected)
                }
            },
            Statement::ExecutableTextsByGameAndOs(game, os) => Reply::Texts(
                select_executable_texts(&self.executables, *game, *os),
            ),
            Statement::ExecutablesByGame(game) => Reply::Executables(
                select_executables_of_game(&self.executables, *game),
            ),
            Statement::InsertSave(row) => {
                if row.time.is_valid() && !contains_save(&self.saves, &row.uuid) {
                    let ghost earlier = self.saves;
                    let stored = row.clone();
                    self.saves.push(stored);
                    proof {
                        lemma_pushed_view(earlier, self.saves, stored);
                    }
                    Reply::Done
                } else {
                    Reply::Failed(Fault::Rejected)
                }
            },
            Statement::InsertFileHashes(rows) => {
                if self.knows_each_save(rows) {
                    self.append_file_hashes(rows);
                    Reply::Done
                } else {
                    Reply::Failed(Fault::Rejected)
                }
            },
            Statement::SavesByPath(path) => Reply::Saves(select_saves_of_path(&self.saves, *path)),
            Statement::FileHashesOf(uuids) => Reply::FileHashLists(
                select_file_hash_lists(&self.file_hashes, uuids),
            ),
            Statement::Begin => Reply::Failed(Fault::Rejected),
            Statement::Commit => Reply::Failed(Fault::Rejected),
            Statement::Rollback => Reply::Failed(Fault::Rejected),
        }
    }
}

} // verus!
