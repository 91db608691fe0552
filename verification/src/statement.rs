//! The statements that the catalog puts to its storage engine, a closed set,
//! and the replies that an engine can give.

use crate::records::OS;
use crate::rows::{
    DbFileHash, DbFileHashView, DbGameExecutable, DbGameExecutableView, DbGameMetadata,
    DbGameMetadataView, DbGameName, DbGameNameView, DbGamePath, DbGamePathView, DbGameSave,
    DbGameSaveView,
};
use vstd::prelude::*;

verus! {

/// Why the engine did not carry out a statement.
#[derive(Clone, Copy, Debug, PartialEq, Eq, Structural)]
pub enum Fault {
    /// No connection could be had, or the store cannot be reached.
    Unreachable,
    /// The engine refused the statement: a constraint was violated, a row was
    /// missing, or reading or writing failed.
    Rejected,
}

/// One statement to the storage engine.
#[derive(Debug, PartialEq, Eq)]
pub enum Statement {
    /// Open a transaction that takes the write lock at once.
    Begin,
    /// Make the open transaction's changes durable.
    Commit,
    /// Undo the open transaction's changes.
    Rollback,
    /// Insert a game row; the engine assigns its identifier and hands it back
    /// in its reply, so that no second statement has to look it up.
    InsertGame(DbGameMetadata),
    /// Insert all these alias rows, or none.
    InsertAltNames(Vec<DbGameName>),
    /// The game rows whose display name is exactly this.
    GamesByName(String),
    /// The game row with this identifier, if there is one.
    GameById(i32),
    /// Every game row.
    AllGames,
    /// For each of these game identifiers, in order, the names of its aliases.
    AltNamesOf(Vec<i32>),
    /// Insert a save-path row; the engine assigns its identifier.
    InsertPath(DbGamePath),
    /// The paths registered for this game under this operating system.
    PathTextsByGameAndOs(i32, OS),
    /// The save-path rows of this game.
    PathsByGame(i32),
    /// Insert an executable row; the engine assigns its identifier.
    InsertExecutable(DbGameExecutable),
    /// The executables registered for this game under this operating system.
    ExecutableTextsByGameAndOs(i32, OS),
    /// The executable rows of this game.
    ExecutablesByGame(i32),
    /// Insert a snapshot row.
    InsertSave(DbGameSave),
    /// Insert all these digest rows, or none.
    InsertFileHashes(Vec<DbFileHash>),
    /// The snapshot rows of this save path.
    SavesByPath(i32),
    /// For each of these snapshot identifiers, in order, its digest rows.
    FileHashesOf(Vec<String>),
}

/// One statement, as a mathematical value.
pub enum StatementView {
    Begin,
    Commit,
    Rollback,
    InsertGame(DbGameMetadataView),
    InsertAltNames(Seq<DbGameNameView>),
    GamesByName(Seq<char>),
    GameById(i32),
    AllGames,
    AltNamesOf(Seq<i32>),
    InsertPath(DbGamePathView),
    PathTextsByGameAndOs(i32, OS),
    PathsByGame(i32),
    InsertExecutable(DbGameExecutableView),
    ExecutableTextsByGameAndOs(i32, OS),
    ExecutablesByGame(i32),
    InsertSave(DbGameSaveView),
    InsertFileHashes(Seq<DbFileHashView>),
    SavesByPath(i32),
    FileHashesOf(Seq<Seq<char>>),
}

impl DeepView for Statement {
    type V = StatementView;

    open spec fn deep_view(&self) -> StatementView {
        match self {
            Statement::Begin => StatementView::Begin,
            Statement::Commit => StatementView::Commit,
            Statement::Rollback => StatementView::Rollback,
            Statement::InsertGame(row) => StatementView::InsertGame(row.deep_view()),
            Statement::InsertAltNames(rows) => StatementView::InsertAltNames(rows.deep_view()),
            Statement::GamesByName(name) => StatementView::GamesByName(name@),
            Statement::GameById(id) => StatementView::GameById(*id),
            Statement::AllGames => StatementView::AllGames,
            Statement::AltNamesOf(ids) => StatementView::AltNamesOf(ids@),
            Statement::InsertPath(row) => StatementView::InsertPath(row.deep_view()),
            Statement::PathTextsByGameAndOs(game, os) => StatementView::PathTextsByGameAndOs(
                *game,
                *os,
            ),
            Statement::PathsByGame(game) => StatementView::PathsByGame(*game),
            Statement::InsertExecutable(row) => StatementView::InsertExecutable(row.deep_view()),
            Statement::ExecutableTextsByGameAndOs(
                game,
                os,
            ) => StatementView::ExecutableTextsByGameAndOs(*game, *os),
            Statement::ExecutablesByGame(game) => StatementView::ExecutablesByGame(*game),
            Statement::InsertSave(row) => StatementView::InsertSave(row.deep_view()),
            Statement::InsertFileHashes(rows) => StatementView::InsertFileHashes(
                rows.deep_view(),
            ),
            Statement::SavesByPath(path) => StatementView::SavesByPath(*path),
            Statement::FileHashesOf(uuids) => StatementView::FileHashesOf(uuids.deep_view()),
        }
    }
}

/// What the engine answers to one statement.
#[derive(Debug, PartialEq, Eq)]
pub enum Reply {
    /// The statement was carried out and has nothing to hand back.
    Done,
    /// The statement was not carried out.
    Failed(Fault),
    /// The row was inserted; this is its identifier column, which may be null.
    Inserted(Option<i32>),
    Games(Vec<DbGameMetadata>),
    Game(Option<DbGameMetadata>),
    NameLists(Vec<Vec<String>>),
    Texts(Vec<String>),
    Paths(Vec<DbGamePath>),
    Executables(Vec<DbGameExecutable>),
    Saves(Vec<DbGameSave>),
    FileHashLists(Vec<Vec<DbFileHash>>),
}

/// One reply, as a mathematical value.
pub enum ReplyView {
    Done,
    Failed(Fault),
    Inserted(Option<i32>),
    Games(Seq<DbGameMetadataView>),
    Game(Option<DbGameMetadataView>),
    NameLists(Seq<Seq<Seq<char>>>),
    Texts(Seq<Seq<char>>),
    Paths(Seq<DbGamePathView>),
    Executables(Seq<DbGameExecutableView>),
    Saves(Seq<DbGameSaveView>),
    FileHashLists(Seq<Seq<DbFileHashView>>),
}

impl DeepView for Reply {
    type V = ReplyView;

    open spec fn deep_view(&self) -> ReplyView {
        match self {
            Reply::Done => ReplyView::Done,
            Reply::Failed(fault) => ReplyView::Failed(*fault),
            Reply::Inserted(id) => ReplyView::Inserted(*id),
            Reply::Games(rows) => ReplyView::Games(rows.deep_view()),
            Reply::Game(row) => ReplyView::Game(row.deep_view()),
            Reply::NameLists(lists) => ReplyView::NameLists(lists.deep_view()),
            Reply::Texts(texts) => ReplyView::Texts(texts.deep_view()),
            Reply::Paths(rows) => ReplyView::Paths(rows.deep_view()),
            Reply::Executables(rows) => ReplyView::Executables(rows.deep_view()),
            Reply::Saves(rows) => ReplyView::Saves(rows.deep_view()),
            Reply::FileHashLists(lists) => ReplyView::FileHashLists(lists.deep_view()),
        }
    }
}

} // verus!
