//! What the catalog's queries select from a table: stated over rows as
//! mathematical values, and computed over stored rows.

use crate::records::OS;
use crate::rows::{
    DbFileHash, DbFileHashView, DbGameExecutable, DbGameExecutableView, DbGameMetadata,
    DbGameMetadataView, DbGameName, DbGameNameView, DbGamePath, DbGamePathView, DbGameSave,
    DbGameSaveView,
};
use vstd::prelude::*;

verus! {

/// Filtering one row more either appends that row or changes nothing.
pub proof fn lemma_filter_next<T>(rows: Seq<T>, keep: spec_fn(T) -> bool, i: int)
    requires
        0 <= i < rows.len(),
    ensures
        rows.take(i + 1).filter(keep) == (if keep(rows[i]) {
            rows.take(i).filter(keep).push(rows[i])
        } else {
            rows.take(i).filter(keep)
        }),
{
    reveal(Seq::filter);
    assert(rows.take(i + 1).drop_last() =~= rows.take(i));
}

/// Every row that a filter keeps is a row of the table and passes the filter.
pub proof fn lemma_filter_members<T>(rows: Seq<T>, keep: spec_fn(T) -> bool)
    ensures
        forall|k: int|
            0 <= k < rows.filter(keep).len() ==> keep(#[trigger] rows.filter(keep)[k])
                && rows.contains(rows.filter(keep)[k]),
    decreases rows.len(),
{
    reveal(Seq::filter);
    if rows.len() > 0 {
        let front = rows.drop_last();
        lemma_filter_members(front, keep);
        assert forall|k: int| 0 <= k < rows.filter(keep).len() implies keep(
            #[trigger] rows.filter(keep)[k],
        ) && rows.contains(rows.filter(keep)[k]) by {
            if k < front.filter(keep).len() {
                let row = front.filter(keep)[k];
                assert(front.contains(row));
                let at = choose|at: int| 0 <= at < front.len() && front[at] == row;
                assert(rows[at] == row);
            } else {
                assert(rows.filter(keep)[k] == rows.last());
                assert(rows[rows.len() - 1] == rows.last());
            }
        }
    }
}

/// A filter that no row passes keeps nothing.
pub proof fn lemma_filter_none<T>(rows: Seq<T>, keep: spec_fn(T) -> bool)
    requires
        forall|i: int| 0 <= i < rows.len() ==> !keep(#[trigger] rows[i]),
    ensures
        rows.filter(keep) == Seq::<T>::empty(),
    decreases rows.len(),
{
    reveal(Seq::filter);
    if rows.len() > 0 {
        lemma_filter_none(rows.drop_last(), keep);
    }
}

/// A filter that every row passes keeps the table as it is.
pub proof fn lemma_filter_all<T>(rows: Seq<T>, keep: spec_fn(T) -> bool)
    requires
        forall|i: int| 0 <= i < rows.len() ==> keep(#[trigger] rows[i]),
    ensures
        rows.filter(keep) == rows,
    decreases rows.len(),
{
    reveal(Seq::filter);
    if rows.len() > 0 {
        lemma_filter_all(rows.drop_last(), keep);
        assert(rows.drop_last().push(rows.last()) =~= rows);
    }
}

/// Filtering two tables laid end to end is filtering each and laying the
/// results end to end.
pub proof fn lemma_filter_joined<T>(front: Seq<T>, back: Seq<T>, keep: spec_fn(T) -> bool)
    ensures
        (front + back).filter(keep) == front.filter(keep) + back.filter(keep),
    decreases back.len(),
{
    reveal(Seq::filter);
    if back.len() == 0 {
        assert(front + back =~= front);
        assert(front.filter(keep) + back.filter(keep) =~= front.filter(keep));
    } else {
        lemma_filter_joined(front, back.drop_last(), keep);
        assert((front + back).drop_last() =~= front + back.drop_last());
        assert((front + back).last() == back.last());
        if keep(back.last()) {
            assert((front.filter(keep) + back.drop_last().filter(keep)).push(back.last())
                =~= front.filter(keep) + back.drop_last().filter(keep).push(back.last()));
        }
    }
}

/// The view of a vector after a push is the view before it with the pushed
/// value's view appended.
pub proof fn lemma_pushed_view<T: DeepView>(before: Vec<T>, after: Vec<T>, pushed: T)
    requires
        after@ == before@.push(pushed),
    ensures
        after.deep_view() == before.deep_view().push(pushed.deep_view()),
{
    assert(after.deep_view() =~= before.deep_view().push(pushed.deep_view()));
}

/// Whether a game row has this display name.
pub open spec fn is_named(name: Seq<char>) -> spec_fn(DbGameMetadataView) -> bool {
    |row: DbGameMetadataView| row.default_name == name
}

/// The game rows whose display name is exactly `name`.
pub open spec fn games_named(games: Seq<DbGameMetadataView>, name: Seq<char>) -> Seq<
    DbGameMetadataView,
> {
    games.filter(is_named(name))
}

/// The game row that stands at identifier `id`, where identifiers count the
/// rows from 1.
pub open spec fn game_identified(games: Seq<DbGameMetadataView>, id: i32) -> Option<
    DbGameMetadataView,
> {
    if 1 <= id <= games.len() {
        Some(games[id - 1])
    } else {
        None
    }
}

/// Whether an alias row belongs to this game.
pub open spec fn is_alias_of(game: i32) -> spec_fn(DbGameNameView) -> bool {
    |row: DbGameNameView| row.game_metadata_id == game
}

/// The name that an alias row holds.
pub open spec fn alias_name() -> spec_fn(DbGameNameView) -> Seq<char> {
    |row: DbGameNameView| row.name
}

/// The names of the aliases of `game`.
pub open spec fn alias_names(names: Seq<DbGameNameView>, game: i32) -> Seq<Seq<char>> {
    names.filter(is_alias_of(game)).map_values(alias_name())
}

/// For each game of `games`, in order, the names of its aliases.
pub open spec fn alias_name_lists(names: Seq<DbGameNameView>, games: Seq<i32>) -> Seq<
    Seq<Seq<char>>,
> {
    Seq::new(games.len(), |i: int| alias_names(names, games[i]))
}

/// Whether a save-path row belongs to this game.
pub open spec fn is_path_of(game: i32) -> spec_fn(DbGamePathView) -> bool {
    |row: DbGamePathView| row.game_metadata_id == game
}

/// Whether a save-path row belongs to this game under this operating system.
pub open spec fn is_path_of_on(game: i32, os: OS) -> spec_fn(DbGamePathView) -> bool {
    |row: DbGamePathView| row.game_metadata_id == game && row.operating_system == os
}

/// The location that a save-path row holds.
pub open spec fn path_text() -> spec_fn(DbGamePathView) -> Seq<char> {
    |row: DbGamePathView| row.path
}

/// The save-path rows of `game`.
pub open spec fn paths_of_game(paths: Seq<DbGamePathView>, game: i32) -> Seq<DbGamePathView> {
    paths.filter(is_path_of(game))
}

/// The save locations of `game` under `os`.
pub open spec fn path_texts(paths: Seq<DbGamePathView>, game: i32, os: OS) -> Seq<Seq<char>> {
    paths.filter(is_path_of_on(game, os)).map_values(path_text())
}

/// Whether an executable row belongs to this game.
pub open spec fn is_executable_of(game: i32) -> spec_fn(DbGameExecutableView) -> bool {
    |row: DbGameExecutableView| row.game_metadata_id == game
}

/// Whether an executable row belongs to this game under this operating system.
pub open spec fn is_executable_of_on(game: i32, os: OS) -> spec_fn(DbGameExecutableView) -> bool {
    |row: DbGameExecutableView| row.game_metadata_id == game && row.operating_system == os
}

/// The location that an executable row holds.
pub open spec fn executable_text() -> spec_fn(DbGameExecutableView) -> Seq<char> {
    |row: DbGameExecutableView| row.executable
}

/// The executable rows of `game`.
pub open spec fn executables_of_game(executables: Seq<DbGameExecutableView>, game: i32) -> Seq<
    DbGameExecutableView,
> {
    executables.filter(is_executable_of(game))
}

/// The executable locations of `game` under `os`.
pub open spec fn executable_texts(executables: Seq<DbGameExecutableView>, game: i32, os: OS) -> Seq<
    Seq<char>,
> {
    executables.filter(is_executable_of_on(game, os)).map_values(executable_text())
}

/// Whether a snapshot row belongs to this save path.
pub open spec fn is_save_of(path: i32) -> spec_fn(DbGameSaveView) -> bool {
    |row: DbGameSaveView| row.path_id == path
}

/// The snapshot rows of the save path `path`.
pub open spec fn saves_of_path(saves: Seq<DbGameSaveView>, path: i32) -> Seq<DbGameSaveView> {
    saves.filter(is_save_of(path))
}

/// Whether some snapshot row has this identifier text.
pub open spec fn has_save(saves: Seq<DbGameSaveView>, uuid: Seq<char>) -> bool {
    exists|i: int| 0 <= i < saves.len() && (#[trigger] saves[i]).uuid == uuid
}

/// Whether a digest row belongs to this snapshot.
pub open spec fn is_file_of(uuid: Seq<char>) -> spec_fn(DbFileHashView) -> bool {
    |row: DbFileHashView| row.game_save_uuid == uuid
}

/// The digest rows of the snapshot `uuid`.
pub open spec fn file_hashes_of_save(files: Seq<DbFileHashView>, uuid: Seq<char>) -> Seq<
    DbFileHashView,
> {
    files.filter(is_file_of(uuid))
}

/// For each snapshot of `uuids`, in order, its digest rows.
pub open spec fn file_hash_lists(files: Seq<DbFileHashView>, uuids: Seq<Seq<char>>) -> Seq<
    Seq<DbFileHashView>,
> {
    Seq::new(uuids.len(), |i: int| file_hashes_of_save(files, uuids[i]))
}

/// The game rows whose display name is exactly `name`, copied in order.
pub fn select_games_named(games: &Vec<DbGameMetadata>, name: &String) -> (found: Vec<
    DbGameMetadata,
>)
    ensures
        found.deep_view() == games_named(games.deep_view(), name@),
{
    let ghost rows = games.deep_view();
    let mut found: Vec<DbGameMetadata> = Vec::new();
    let mut i: usize = 0;
    assert(found.deep_view() =~= rows.take(0).filter(is_named(name@))) by {
        reveal(Seq::filter);
    }
    while i < games.len()
        invariant
            i <= games.len(),
            rows == games.deep_view(),
            found.deep_view() == rows.take(i as int).filter(is_named(name@)),
        decreases games.len() - i,
    {
        proof {
            lemma_filter_next(rows, is_named(name@), i as int);
        }
        if games[i].default_name == *name {
            let ghost before = found;
            let row = games[i].clone();
            found.push(row);
            proof {
                lemma_pushed_view(before, found, row);
            }
        }
        i += 1;
    }
    assert(rows.take(games.len() as int) =~= rows);
    found
}

/// The names of the aliases of `game`, copied in order.
pub fn select_alias_names(names: &Vec<DbGameName>, game: i32) -> (found: Vec<String>)
    ensures
        found.deep_view() == alias_names(names.deep_view(), game),
{
    let ghost rows = names.deep_view();
    let mut found: Vec<String> = Vec::new();
    let mut i: usize = 0;
    assert(found.deep_view() =~= alias_names(rows.take(0), game)) by {
        reveal(Seq::filter);
    }
    while i < names.len()
        invariant
            i <= names.len(),
            rows == names.deep_view(),
            found.deep_view() == alias_names(rows.take(i as int), game),
        decreases names.len() - i,
    {
        proof {
            lemma_filter_next(rows, is_alias_of(game), i as int);
        }
        if names[i].game_metadata_id == game {
            let ghost before = found;
            let name = names[i].name.clone();
            found.push(name);
            proof {
                lemma_pushed_view(before, found, name);
                assert(found.deep_view() =~= alias_names(rows.take(i + 1), game));
            }
        }
        i += 1;
    }
    assert(rows.take(names.len() as int) =~= rows);
    found
}

/// For each game of `games`, in order, the names of its aliases.
pub fn select_alias_name_lists(names: &Vec<DbGameName>, games: &Vec<i32>) -> (found: Vec<
    Vec<String>,
>)
    ensures
        found.deep_view() == alias_name_lists(names.deep_view(), games@),
{
    let ghost expected = alias_name_lists(names.deep_view(), games@);
    let mut found: Vec<Vec<String>> = Vec::new();
    let mut i: usize = 0;
    while i < games.len()
        invariant
            i <= games.len(),
            found.len() == i,
            expected == alias_name_lists(names.deep_view(), games@),
            forall|k: int| 0 <= k < i ==> found[k].deep_view() == expected[k],
        decreases games.len() - i,
    {
        found.push(select_alias_names(names, games[i]));
        i += 1;
    }
    assert(found.deep_view() =~= expected);
    found
}

/// The save-path rows of `game`, copied in order.
pub fn select_paths_of_game(paths: &Vec<DbGamePath>, game: i32) -> (found: Vec<DbGamePath>)
    ensures
        found.deep_view() == paths_of_game(paths.deep_view(), game),
{
    let ghost rows = paths.deep_view();
    let mut found: Vec<DbGamePath> = Vec::new();
    let mut i: usize = 0;
    assert(found.deep_view() =~= rows.take(0).filter(is_path_of(game))) by {
        reveal(Seq::filter);
    }
    while i < paths.len()
        invariant
            i <= paths.len(),
            rows == paths.deep_view(),
            found.deep_view() == rows.take(i as int).filter(is_path_of(game)),
        decreases paths.len() - i,
    {
        proof {
            lemma_filter_next(rows, is_path_of(game), i as int);
        }
        if paths[i].game_metadata_id == game {
            let ghost before = found;
            let row = paths[i].clone();
            found.push(row);
            proof {
                lemma_pushed_view(before, found, row);
            }
        }
        i += 1;
    }
    assert(rows.take(paths.len() as int) =~= rows);
    found
}

/// The save locations of `game` under `os`, copied in order.
pub fn select_path_texts(paths: &Vec<DbGamePath>, game: i32, os: OS) -> (found: Vec<String>)
    ensures
        found.deep_view() == path_texts(paths.deep_view(), game, os),
{
    let ghost rows = paths.deep_view();
    let mut found: Vec<String> = Vec::new();
    let mut i: usize = 0;
    assert(found.deep_view() =~= path_texts(rows.take(0), game, os)) by {
        reveal(Seq::filter);
    }
    while i < paths.len()
        invariant
            i <= paths.len(),
            rows == paths.deep_view(),
            found.deep_view() == path_texts(rows.take(i as int), game, os),
        decreases paths.len() - i,
    {
        proof {
            lemma_filter_next(rows, is_path_of_on(game, os), i as int);
        }
        if paths[i].game_metadata_id == game && paths[i].operating_system == os {
            let ghost before = found;
            let text = paths[i].path.clone();
            found.push(text);
            proof {
                lemma_pushed_view(before, found, text);
                assert(found.deep_view() =~= path_texts(rows.take(i + 1), game, os));
            }
        }
        i += 1;
    }
    assert(rows.take(paths.len() as int) =~= rows);
    found
}

/// The executable rows of `game`, copied in order.
pub fn select_executables_of_game(executables: &Vec<DbGameExecutable>, game: i32) -> (found: Vec<
    DbGameExecutable,
>)
    ensures
        found.deep_view() == executables_of_game(executables.deep_view(), game),
{
    let ghost rows = executables.deep_view();
    let mut found: Vec<DbGameExecutable> = Vec::new();
    let mut i: usize = 0;
    assert(found.deep_view() =~= rows.take(0).filter(is_executable_of(game))) by {
        reveal(Seq::filter);
    }
    while i < executables.len()
        invariant
            i <= executables.len(),
            rows == executables.deep_view(),
            found.deep_view() == rows.take(i as int).filter(is_executable_of(game)),
        decreases executables.len() - i,
    {
        proof {
            lemma_filter_next(rows, is_executable_of(game), i as int);
        }
        if executables[i].game_metadata_id == game {
            let ghost before = found;
            let row = executables[i].clone();
            found.push(row);
            proof {
                lemma_pushed_view(before, found, row);
            }
        }
        i += 1;
    }
    assert(rows.take(executables.len() as int) =~= rows);
    found
}

/// The executable locations of `game` under `os`, copied in order.
pub fn select_executable_texts(executables: &Vec<DbGameExecutable>, game: i32, os: OS) -> (found:
    Vec<String>)
    ensures
        found.deep_view() == executable_texts(executables.deep_view(), game, os),
{
    let ghost rows = executables.deep_view();
    let mut found: Vec<String> = Vec::new();
    let mut i: usize = 0;
    assert(found.deep_view() =~= executable_texts(rows.take(0), game, os)) by {
        reveal(Seq::filter);
    }
    while i < executables.len()
        invariant
            i <= executables.len(),
            rows == executables.deep_view(),
            found.deep_view() == executable_texts(rows.take(i as int), game, os),
        decreases executables.len() - i,
    {
        proof {
            lemma_filter_next(rows, is_executable_of_on(game, os), i as int);
        }
        if executables[i].game_metadata_id == game && executables[i].operating_system == os {
            let ghost before = found;
            let text = executables[i].executable.clone();
            found.push(text);
            proof {
                lemma_pushed_view(before, found, text);
                assert(found.deep_view() =~= executable_texts(rows.take(i + 1), game, os));
            }
        }
        i += 1;
    }
    assert(rows.take(executables.len() as int) =~= rows);
    found
}

/// The snapshot rows of the save path `path`, copied in order.
pub fn select_saves_of_path(saves: &Vec<DbGameSave>, path: i32) -> (found: Vec<DbGameSave>)
    ensures
        found.deep_view() == saves_of_path(saves.deep_view(), path),
{
    let ghost rows = saves.deep_view();
    let mut found: Vec<DbGameSave> = Vec::new();
    let mut i: usize = 0;
    assert(found.deep_view() =~= rows.take(0).filter(is_save_of(path))) by {
        reveal(Seq::filter);
    }
    while i < saves.len()
        invariant
            i <= saves.len(),
            rows == saves.deep_view(),
            found.deep_view() == rows.take(i as int).filter(is_save_of(path)),
        decreases saves.len() - i,
    {
        proof {
            lemma_filter_next(rows, is_save_of(path), i as int);
        }
        if saves[i].path_id == path {
            let ghost before = found;
            let row = saves[i].clone();
            found.push(row);
            proof {
                lemma_pushed_view(before, found, row);
            }
        }
        i += 1;
    }
    assert(rows.take(saves.len() as int) =~= rows);
    found
}

/// Whether some snapshot row has this identifier text.
pub fn contains_save(saves: &Vec<DbGameSave>, uuid: &String) -> (found: bool)
    ensures
        found == has_save(saves.deep_view(), uuid@),
{
    let mut i: usize = 0;
    while i < saves.len()
        invariant
            i <= saves.len(),
            forall|k: int| 0 <= k < i ==> (#[trigger] saves.deep_view()[k]).uuid != uuid@,
        decreases saves.len() - i,
    {
        if saves[i].uuid == *uuid {
            assert(saves.deep_view()[i as int].uuid == uuid@);
            return true;
        }
        i += 1;
    }
    false
}

/// The digest rows of the snapshot `uuid`, copied in order.
pub fn select_file_hashes_of_save(files: &Vec<DbFileHash>, uuid: &String) -> (found: Vec<
    DbFileHash,
>)
    ensures
        found.deep_view() == file_hashes_of_save(files.deep_view(), uuid@),
{
    let ghost rows = files.deep_view();
    let mut found: Vec<DbFileHash> = Vec::new();
    let mut i: usize = 0;
    assert(found.deep_view() =~= rows.take(0).filter(is_file_of(uuid@))) by {
        reveal(Seq::filter);
    }
    while i < files.len()
        invariant
            i <= files.len(),
            rows == files.deep_view(),
            found.deep_view() == rows.take(i as int).filter(is_file_of(uuid@)),
        decreases files.len() - i,
    {
        proof {
            lemma_filter_next(rows, is_file_of(uuid@), i as int);
        }
        if files[i].game_save_uuid == *uuid {
            let ghost before = found;
            let row = files[i].clone();
            found.push(row);
            proof {
                lemma_pushed_view(before, found, row);
            }
        }
        i += 1;
    }
    assert(rows.take(files.len() as int) =~= rows);
    found
}

/// For each snapshot of `uuids`, in order, its digest rows.
pub fn select_file_hash_lists(files: &Vec<DbFileHash>, uuids: &Vec<String>) -> (found: Vec<
    Vec<DbFileHash>,
>)
    ensures
        found.deep_view() == file_hash_lists(files.deep_view(), uuids.deep_view()),
{
    let ghost expected = file_hash_lists(files.deep_view(), uuids.deep_view());
    let mut found: Vec<Vec<DbFileHash>> = Vec::new();
    let mut i: usize = 0;
    while i < uuids.len()
        invariant
            i <= uuids.len(),
            found.len() == i,
            expected == file_hash_lists(files.deep_view(), uuids.deep_view()),
            forall|k: int| 0 <= k < i ==> found[k].deep_view() == expected[k],
        decreases uuids.len() - i,
    {
        found.push(select_file_hashes_of_save(files, &uuids[i]));
        i += 1;
    }
    assert(found.deep_view() =~= expected);
    found
}

} // verus!
