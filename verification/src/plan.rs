//! The catalog's operations as plans: which statement is put to the storage
//! engine next, given the replies so far, and what the operation returns in
//! the end. A plan touches no storage itself, so one plan serves every engine.

use crate::clock::{utc_now, valid_time, SaveTime};
use crate::ident::{hyphenated, uuid_text, SaveUuid};
use crate::mapper::{
    all_identified, all_timed, alt_name_rows, alt_name_rows_of, executable_records,
    executable_records_of, executable_row, executable_row_of, file_hash_rows, file_hash_rows_of,
    game_ids, game_ids_of, game_record, game_record_of, game_records, game_records_of, game_row,
    game_row_of, path_records, path_records_of, path_row, path_row_of, save_references,
    save_references_of, save_row, save_row_of, save_uuids, save_uuids_of,
};
use crate::statement::{Fault, Reply, ReplyView, Statement, StatementView};
use crate::records::{
    Executable, ExecutableCreate, ExecutableCreateView, ExecutableView, FileHash, FileHashView,
    GameMetadata, GameMetadataCreate, GameMetadataCreateView, GameMetadataView, SavePath,
    SavePathCreate, SavePathCreateView, SavePathView, SaveReference, SaveReferenceView, OS,
};
use crate::rows::{
    DbFileHash, DbFileHashView, DbGameMetadata, DbGameMetadataView, DbGameSave, DbGameSaveView,
};
use vstd::prelude::*;

verus! {

/// Why an operation of the catalog failed.
#[derive(Clone, Copy, Debug, PartialEq, Eq, Structural)]
pub enum CatalogError {
    /// No connection could be had, or the store cannot be reached.
    Connection,
    /// The storage engine refused a statement.
    Storage,
    /// Something that the catalog relies on did not hold of what the storage
    /// engine handed back.
    Integrity,
}

/// The error that a fault of the engine is surfaced as.
pub open spec fn fault_error(fault: Fault) -> CatalogError {
    match fault {
        Fault::Unreachable => CatalogError::Connection,
        Fault::Rejected => CatalogError::Storage,
    }
}

/// The error that a reply other than the expected one is surfaced as: the
/// engine's fault if it reported one, else a breach of integrity.
pub open spec fn reply_error(reply: ReplyView) -> CatalogError {
    match reply {
        ReplyView::Failed(fault) => fault_error(fault),
        _ => CatalogError::Integrity,
    }
}

/// An operation of the catalog with its arguments.
#[derive(Debug, PartialEq, Eq)]
pub enum Request {
    AddGameMetadata(GameMetadataCreate),
    GameMetadataByName(String),
    GameMetadataById(i32),
    AllGameMetadata,
    AddGamePath(i32, SavePathCreate),
    PathsByGameAndOs(i32, OS),
    PathsByGame(i32),
    AddGameExecutable(i32, ExecutableCreate),
    ExecutablesByGameAndOs(i32, OS),
    ExecutablesByGame(i32),
    AddSave { uuid: String, path_id: i32, time: SaveTime, files: Vec<FileHash> },
    SavesByPath(i32),
}

/// An operation with its arguments, as a mathematical value.
pub enum RequestView {
    AddGameMetadata(GameMetadataCreateView),
    GameMetadataByName(Seq<char>),
    GameMetadataById(i32),
    AllGameMetadata,
    AddGamePath(i32, SavePathCreateView),
    PathsByGameAndOs(i32, OS),
    PathsByGame(i32),
    AddGameExecutable(i32, ExecutableCreateView),
    ExecutablesByGameAndOs(i32, OS),
    ExecutablesByGame(i32),
    AddSave { uuid: Seq<char>, path_id: i32, time: SaveTime, files: Seq<FileHashView> },
    SavesByPath(i32),
}

impl DeepView for Request {
    type V = RequestView;

    open spec fn deep_view(&self) -> RequestView {
        match self {
            Request::AddGameMetadata(record) => RequestView::AddGameMetadata(record.deep_view()),
            Request::GameMetadataByName(name) => RequestView::GameMetadataByName(name@),
            Request::GameMetadataById(id) => RequestView::GameMetadataById(*id),
            Request::AllGameMetadata => RequestView::AllGameMetadata,
            Request::AddGamePath(game, path) => RequestView::AddGamePath(*game, path.deep_view()),
            Request::PathsByGameAndOs(game, os) => RequestView::PathsByGameAndOs(*game, *os),
            Request::PathsByGame(game) => RequestView::PathsByGame(*game),
            Request::AddGameExecutable(game, executable) => RequestView::AddGameExecutable(
                *game,
                executable.deep_view(),
            ),
            Request::ExecutablesByGameAndOs(game, os) => RequestView::ExecutablesByGameAndOs(
                *game,
                *os,
            ),
            Request::ExecutablesByGame(game) => RequestView::ExecutablesByGame(*game),
            Request::AddSave { uuid, path_id, time, files } => RequestView::AddSave {
                uuid: uuid@,
                path_id: *path_id,
                time: *time,
                files: files.deep_view(),
            },
            Request::SavesByPath(path) => RequestView::SavesByPath(*path),
        }
    }
}

/// What an operation hands back when it succeeds.
#[derive(Debug, PartialEq, Eq)]
pub enum Answer {
    /// The rows were written.
    Done,
    /// The game was registered under this identifier.
    Registered(i32),
    Games(Vec<GameMetadata>),
    /// The game, or nothing where there is none.
    Game(Option<GameMetadata>),
    Locations(Vec<String>),
    Paths(Vec<SavePath>),
    Executables(Vec<Executable>),
    /// The snapshots, or nothing where there is none.
    Saves(Option<Vec<SaveReference>>),
}

/// What an operation hands back, as a mathematical value.
pub enum AnswerView {
    Done,
    Registered(i32),
    Games(Seq<GameMetadataView>),
    Game(Option<GameMetadataView>),
    Locations(Seq<Seq<char>>),
    Paths(Seq<SavePathView>),
    Executables(Seq<ExecutableView>),
    Saves(Option<Seq<SaveReferenceView>>),
}

impl DeepView for Answer {
    type V = AnswerView;

    open spec fn deep_view(&self) -> AnswerView {
        match self {
            Answer::Done => AnswerView::Done,
            Answer::Registered(id) => AnswerView::Registered(*id),
            Answer::Games(games) => AnswerView::Games(games.deep_view()),
            Answer::Game(game) => AnswerView::Game(game.deep_view()),
            Answer::Locations(texts) => AnswerView::Locations(texts.deep_view()),
            Answer::Paths(paths) => AnswerView::Paths(paths.deep_view()),
            Answer::Executables(executables) => AnswerView::Executables(
                executables.deep_view(),
            ),
            Answer::Saves(saves) => AnswerView::Saves(saves.deep_view()),
        }
    }
}

/// The value of an operation's result.
pub open spec fn outcome_view(outcome: Result<Answer, CatalogError>) -> Result<
    AnswerView,
    CatalogError,
> {
    match outcome {
        Ok(answer) => Ok(answer.deep_view()),
        Err(error) => Err(error),
    }
}

/// Where a plan stands: the reply that it waits for, and what it has to keep
/// until then.
#[derive(Debug, PartialEq, Eq)]
pub enum Task {
    /// `Begin` was issued for this request.
    Opening { request: Request },
    /// The game row is being inserted; these aliases follow, under the
    /// identifier that the reply brings.
    InsertingGame { names: Vec<String> },
    /// The last rows of the transaction are being written; this answer
    /// follows their commit.
    Writing { answer: Answer },
    /// Game rows are being listed.
    ListingGames,
    /// The aliases of these game rows are being listed.
    NamingGames { games: Vec<DbGameMetadata> },
    /// One game row is being looked up.
    FindingGame,
    /// The aliases of this game row are being listed.
    NamingGame { row: DbGameMetadata },
    /// A single row is being inserted outside a transaction.
    Storing,
    /// Locations are being read outside a transaction.
    ReadingTexts,
    /// Save-path rows are being read outside a transaction.
    ReadingPaths,
    /// Executable rows are being read outside a transaction.
    ReadingExecutables,
    /// The snapshot row is being inserted; these digest rows follow.
    InsertingSave { files: Vec<DbFileHash> },
    /// Snapshot rows are being listed.
    ListingSaves,
    /// The digest rows of these snapshot rows are being listed.
    GroupingFiles { saves: Vec<DbGameSave> },
    /// `Commit` was issued; this answer follows.
    Committing { answer: Answer },
    /// `Rollback` was issued; this error follows.
    RollingBack { error: CatalogError },
}

/// Where a plan stands, as a mathematical value.
pub enum TaskView {
    Opening { request: RequestView },
    InsertingGame { names: Seq<Seq<char>> },
    Writing { answer: AnswerView },
    ListingGames,
    NamingGames { games: Seq<DbGameMetadataView> },
    FindingGame,
    NamingGame { row: DbGameMetadataView },
    Storing,
    ReadingTexts,
    ReadingPaths,
    ReadingExecutables,
    InsertingSave { files: Seq<DbFileHashView> },
    ListingSaves,
    GroupingFiles { saves: Seq<DbGameSaveView> },
    Committing { answer: AnswerView },
    RollingBack { error: CatalogError },
}

impl DeepView for Task {
    type V = TaskView;

    open spec fn deep_view(&self) -> TaskView {
        match self {
            Task::Opening { request } => TaskView::Opening { request: request.deep_view() },
            Task::InsertingGame { names } => TaskView::InsertingGame { names: names.deep_view() },
            Task::Writing { answer } => TaskView::Writing { answer: answer.deep_view() },
            Task::ListingGames => TaskView::ListingGames,
            Task::NamingGames { games } => TaskView::NamingGames { games: games.deep_view() },
            Task::FindingGame => TaskView::FindingGame,
            Task::NamingGame { row } => TaskView::NamingGame { row: row.deep_view() },
            Task::Storing => TaskView::Storing,
            Task::ReadingTexts => TaskView::ReadingTexts,
            Task::ReadingPaths => TaskView::ReadingPaths,
            Task::ReadingExecutables => TaskView::ReadingExecutables,
            Task::InsertingSave { files } => TaskView::InsertingSave { files: files.deep_view() },
            Task::ListingSaves => TaskView::ListingSaves,
            Task::GroupingFiles { saves } => TaskView::GroupingFiles { saves: saves.deep_view() },
            Task::Committing { answer } => TaskView::Committing { answer: answer.deep_view() },
            Task::RollingBack { error } => TaskView::RollingBack { error: *error },
        }
    }
}

/// What a plan asks for next: a statement to carry out, with the task that
/// takes the reply, or the end of the operation with its result.
#[derive(Debug, PartialEq, Eq)]
pub enum Step {
    Run(Statement, Task),
    Finish(Result<Answer, CatalogError>),
}

/// What a plan asks for next, as a mathematical value.
pub enum StepView {
    Run(StatementView, TaskView),
    Finish(Result<AnswerView, CatalogError>),
}

impl DeepView for Step {
    type V = StepView;

    open spec fn deep_view(&self) -> StepView {
        match self {
            Step::Run(statement, task) => StepView::Run(statement.deep_view(), task.deep_view()),
            Step::Finish(outcome) => StepView::Finish(outcome_view(*outcome)),
        }
    }
}

/// Whether an operation takes more than one statement, and so runs inside a
/// transaction.
pub open spec fn is_transactional(request: RequestView) -> bool {
    match request {
        RequestView::AddGameMetadata(_) => true,
        RequestView::GameMetadataByName(_) => true,
        RequestView::GameMetadataById(_) => true,
        RequestView::AllGameMetadata => true,
        RequestView::AddSave { .. } => true,
        RequestView::SavesByPath(_) => true,
        _ => false,
    }
}

/// The step that undoes the open transaction and then fails with `error`.
pub open spec fn abort_spec(error: CatalogError) -> StepView {
    StepView::Run(StatementView::Rollback, TaskView::RollingBack { error })
}

/// The step that commits the open transaction and then succeeds with `answer`.
pub open spec fn commit_spec(answer: AnswerView) -> StepView {
    StepView::Run(StatementView::Commit, TaskView::Committing { answer })
}

/// The first data statement of an operation.
pub open spec fn first_step_spec(request: RequestView) -> StepView {
    match request {
        RequestView::AddGameMetadata(record) => StepView::Run(
            StatementView::InsertGame(game_row_of(record)),
            TaskView::InsertingGame { names: record.known_name },
        ),
        RequestView::GameMetadataByName(name) => StepView::Run(
            StatementView::GamesByName(name),
            TaskView::ListingGames,
        ),
        RequestView::GameMetadataById(id) => StepView::Run(
            StatementView::GameById(id),
            TaskView::FindingGame,
        ),
        RequestView::AllGameMetadata => StepView::Run(
            StatementView::AllGames,
            TaskView::ListingGames,
        ),
        RequestView::AddGamePath(game, path) => StepView::Run(
            StatementView::InsertPath(path_row_of(game, path)),
            TaskView::Storing,
        ),
        RequestView::PathsByGameAndOs(game, os) => StepView::Run(
            StatementView::PathTextsByGameAndOs(game, os),
            TaskView::ReadingTexts,
        ),
        RequestView::PathsByGame(game) => StepView::Run(
            StatementView::PathsByGame(game),
            TaskView::ReadingPaths,
        ),
        RequestView::AddGameExecutable(game, executable) => StepView::Run(
            StatementView::InsertExecutable(executable_row_of(game, executable)),
            TaskView::Storing,
        ),
        RequestView::ExecutablesByGameAndOs(game, os) => StepView::Run(
            StatementView::ExecutableTextsByGameAndOs(game, os),
            TaskView::ReadingTexts,
        ),
        RequestView::ExecutablesByGame(game) => StepView::Run(
            StatementView::ExecutablesByGame(game),
            TaskView::ReadingExecutables,
        ),
        RequestView::AddSave { uuid, path_id, time, files } => StepView::Run(
            StatementView::InsertSave(save_row_of(uuid, path_id, time)),
            TaskView::InsertingSave { files: file_hash_rows_of(files, uuid) },
        ),
        RequestView::SavesByPath(path) => StepView::Run(
            StatementView::SavesByPath(path),
            TaskView::ListingSaves,
        ),
    }
}

/// The first step of an operation: `Begin` where it runs inside a
/// transaction, else its first data statement.
pub open spec fn start_spec(request: RequestView) -> StepView {
    if is_transactional(request) {
        StepView::Run(StatementView::Begin, TaskView::Opening { request })
    } else {
        first_step_spec(request)
    }
}

/// The step that follows a reply. Inside a transaction every reply other
/// than the expected one leads to `Rollback` and then to the error; outside
/// one it leads to the error at once. Nothing is committed but after every
/// statement of the operation was carried out.
pub open spec fn advance_spec(task: TaskView, reply: ReplyView) -> StepView {
    match task {
        TaskView::Opening { request } => match reply {
            ReplyView::Done => first_step_spec(request),
            ReplyView::Failed(fault) => StepView::Finish(Err(fault_error(fault))),
            _ => abort_spec(CatalogError::Integrity),
        },
        TaskView::InsertingGame { names } => match reply {
            ReplyView::Inserted(Some(id)) => if names.len() == 0 {
                commit_spec(AnswerView::Registered(id))
            } else {
                StepView::Run(
                    StatementView::InsertAltNames(alt_name_rows_of(names, id)),
                    TaskView::Writing { answer: AnswerView::Registered(id) },
                )
            },
            _ => abort_spec(reply_error(reply)),
        },
        TaskView::Writing { answer } => match reply {
            ReplyView::Done => commit_spec(answer),
            _ => abort_spec(reply_error(reply)),
        },
        TaskView::ListingGames => match reply {
            ReplyView::Games(rows) => if all_identified(rows) {
                StepView::Run(
                    StatementView::AltNamesOf(game_ids_of(rows)),
                    TaskView::NamingGames { games: rows },
                )
            } else {
                abort_spec(CatalogError::Integrity)
            },
            _ => abort_spec(reply_error(reply)),
        },
        TaskView::NamingGames { games: rows } => match reply {
            ReplyView::NameLists(lists) => if lists.len() == rows.len() {
                commit_spec(AnswerView::Games(game_records_of(rows, lists)))
            } else {
                abort_spec(CatalogError::Integrity)
            },
            _ => abort_spec(reply_error(reply)),
        },
        TaskView::FindingGame => match reply {
            ReplyView::Game(None) => commit_spec(AnswerView::Game(None)),
            ReplyView::Game(Some(row)) => match row.id {
                Some(id) => StepView::Run(
                    StatementView::AltNamesOf(seq![id]),
                    TaskView::NamingGame { row },
                ),
                None => commit_spec(AnswerView::Game(None)),
            },
            _ => abort_spec(reply_error(reply)),
        },
        TaskView::NamingGame { row } => match reply {
            ReplyView::NameLists(lists) => if lists.len() == 1 {
                commit_spec(AnswerView::Game(Some(game_record_of(row, lists[0]))))
            } else {
                abort_spec(CatalogError::Integrity)
            },
            _ => abort_spec(reply_error(reply)),
        },
        TaskView::Storing => match reply {
            ReplyView::Done => StepView::Finish(Ok(AnswerView::Done)),
            _ => StepView::Finish(Err(reply_error(reply))),
        },
        TaskView::ReadingTexts => match reply {
            ReplyView::Texts(texts) => StepView::Finish(Ok(AnswerView::Locations(texts))),
            _ => StepView::Finish(Err(reply_error(reply))),
        },
        TaskView::ReadingPaths => match reply {
            ReplyView::Paths(rows) => StepView::Finish(
                Ok(AnswerView::Paths(path_records_of(rows))),
            ),
            _ => StepView::Finish(Err(reply_error(reply))),
        },
        TaskView::ReadingExecutables => match reply {
            ReplyView::Executables(rows) => StepView::Finish(
                Ok(AnswerView::Executables(executable_records_of(rows))),
            ),
            _ => StepView::Finish(Err(reply_error(reply))),
        },
        TaskView::InsertingSave { files: rows } => match reply {
            ReplyView::Done => if rows.len() == 0 {
                commit_spec(AnswerView::Done)
            } else {
                StepView::Run(
                    StatementView::InsertFileHashes(rows),
                    TaskView::Writing { answer: AnswerView::Done },
                )
            },
            _ => abort_spec(reply_error(reply)),
        },
        TaskView::ListingSaves => match reply {
            ReplyView::Saves(rows) => if rows.len() == 0 {
                commit_spec(AnswerView::Saves(None))
            } else {
                StepView::Run(
                    StatementView::FileHashesOf(save_uuids_of(rows)),
                    TaskView::GroupingFiles { saves: rows },
                )
            },
            _ => abort_spec(reply_error(reply)),
        },
        TaskView::GroupingFiles { saves: rows } => match reply {
            ReplyView::FileHashLists(lists) => if lists.len() == rows.len() && all_timed(rows) {
                commit_spec(AnswerView::Saves(Some(save_references_of(rows, lists))))
            } else {
                abort_spec(CatalogError::Integrity)
            },
            _ => abort_spec(reply_error(reply)),
        },
        TaskView::Committing { answer } => match reply {
            ReplyView::Done => StepView::Finish(Ok(answer)),
            _ => abort_spec(reply_error(reply)),
        },
        TaskView::RollingBack { error } => StepView::Finish(Err(error)),
    }
}

/// The number of replies that a task still waits for, this one included, at
/// most.
pub open spec fn task_rank(task: TaskView) -> nat {
    match task {
        TaskView::Opening { .. } => 5,
        TaskView::InsertingGame { .. } => 4,
        TaskView::InsertingSave { .. } => 4,
        TaskView::ListingGames => 4,
        TaskView::FindingGame => 4,
        TaskView::ListingSaves => 4,
        TaskView::NamingGames { .. } => 3,
        TaskView::NamingGame { .. } => 3,
        TaskView::GroupingFiles { .. } => 3,
        TaskView::Writing { .. } => 3,
        TaskView::Committing { .. } => 2,
        TaskView::RollingBack { .. } => 1,
        TaskView::Storing => 1,
        TaskView::ReadingTexts => 1,
        TaskView::ReadingPaths => 1,
        TaskView::ReadingExecutables => 1,
    }
}

/// The number of statements that a step still leads to, at most.
pub open spec fn step_rank(step: StepView) -> nat {
    match step {
        StepView::Run(_, task) => task_rank(task),
        StepView::Finish(_) => 0,
    }
}

/// Every reply brings a plan nearer to its end, and no operation puts more
/// than five statements to the engine.
pub proof fn lemma_advance_descends(task: TaskView, reply: ReplyView, request: RequestView)
    ensures
        step_rank(advance_spec(task, reply)) < task_rank(task),
        step_rank(start_spec(request)) <= 5,
{
}

impl CatalogError {
    /// The error that a fault of the engine is surfaced as.
    pub fn from_fault(fault: Fault) -> (error: CatalogError)
        ensures
            error == fault_error(fault),
    {
        match fault {
            Fault::Unreachable => CatalogError::Connection,
            Fault::Rejected => CatalogError::Storage,
        }
    }

    /// The error that a reply other than the expected one is surfaced as.
    pub fn from_reply(reply: &Reply) -> (error: CatalogError)
        ensures
            error == reply_error(reply.deep_view()),
    {
        match reply {
            Reply::Failed(fault) => CatalogError::from_fault(*fault),
            _ => CatalogError::Integrity,
        }
    }
}

fn abort(error: CatalogError) -> (step: Step)
    ensures
        step.deep_view() == abort_spec(error),
{
    Step::Run(Statement::Rollback, Task::RollingBack { error })
}

fn commit(answer: Answer) -> (step: Step)
    ensures
        step.deep_view() == commit_spec(answer.deep_view()),
{
    Step::Run(Statement::Commit, Task::Committing { answer })
}

fn fail(error: CatalogError) -> (step: Step)
    ensures
        step.deep_view() == StepView::Finish(Err(error)),
{
    Step::Finish(Err(error))
}

fn succeed(answer: Answer) -> (step: Step)
    ensures
        step.deep_view() == StepView::Finish(Ok(answer.deep_view())),
{
    Step::Finish(Ok(answer))
}

impl Request {
    /// The request to record a snapshot taken now, under the hyphenated text
    /// of `uuid`.
    pub fn add_save_now(uuid: SaveUuid, path_id: i32, files: Vec<FileHash>) -> (request: Request)
        ensures
            request.deep_view() matches RequestView::AddSave {
                uuid: text,
                path_id: path,
                time,
                files: digests,
            } && text == hyphenated(uuid.value) && path == path_id && valid_time(time) && digests
                == files.deep_view(),
    {
        Request::AddSave { uuid: uuid_text(uuid), path_id, time: utc_now(), files }
    }

    /// Whether this operation runs inside a transaction.
    pub fn in_transaction(&self) -> (inside: bool)
        ensures
            inside == is_transactional(self.deep_view()),
    {
        match self {
            Request::AddGameMetadata(_) => true,
            Request::GameMetadataByName(_) => true,
            Request::GameMetadataById(_) => true,
            Request::AllGameMetadata => true,
            Request::AddSave { .. } => true,
            Request::SavesByPath(_) => true,
            _ => false,
        }
    }

    /// The first data statement of this operation.
    pub fn first_step(self) -> (step: Step)
        ensures
            step.deep_view() == first_step_spec(self.deep_view()),
    {
        match self {
            Request::AddGameMetadata(record) => {
                let row = game_row(&record);
                Step::Run(Statement::InsertGame(row), Task::InsertingGame { names: record.known_name })
            },
            Request::GameMetadataByName(name) => Step::Run(
                Statement::GamesByName(name),
                Task::ListingGames,
            ),
            Request::GameMetadataById(id) => Step::Run(Statement::GameById(id), Task::FindingGame),
            Request::AllGameMetadata => Step::Run(Statement::AllGames, Task::ListingGames),
            Request::AddGamePath(game, path) => Step::Run(
                Statement::InsertPath(path_row(game, &path)),
                Task::Storing,
            ),
            Request::PathsByGameAndOs(game, os) => Step::Run(
                Statement::PathTextsByGameAndOs(game, os),
                Task::ReadingTexts,
            ),
            Request::PathsByGame(game) => Step::Run(Statement::PathsByGame(game), Task::ReadingPaths),
            Request::AddGameExecutable(game, executable) => Step::Run(
                Statement::InsertExecutable(executable_row(game, &executable)),
                Task::Storing,
            ),
            Request::ExecutablesByGameAndOs(game, os) => Step::Run(
                Statement::ExecutableTextsByGameAndOs(game, os),
                Task::ReadingTexts,
            ),
            Request::ExecutablesByGame(game) => Step::Run(
                Statement::ExecutablesByGame(game),
                Task::ReadingExecutables,
            ),
            Request::AddSave { uuid, path_id, time, files } => {
                let rows = file_hash_rows(&files, &uuid);
                let row = save_row(&uuid, path_id, time);
                Step::Run(Statement::InsertSave(row), Task::InsertingSave { files: rows })
            },
            Request::SavesByPath(path) => Step::Run(Statement::SavesByPath(path), Task::ListingSaves),
        }
    }

    /// The first step of this operation.
    pub fn start(self) -> (step: Step)
        ensures
            step.deep_view() == start_spec(self.deep_view()),
    {
        if self.in_transaction() {
            Step::Run(Statement::Begin, Task::Opening { request: self })
        } else {
            self.first_step()
        }
    }
}

fn after_opening(request: Request, reply: Reply) -> (step: Step)
    ensures
        step.deep_view() == advance_spec(
            TaskView::Opening { request: request.deep_view() },
            reply.deep_view(),
        ),
{
    match reply {
        Reply::Done => request.first_step(),
        Reply::Failed(fault) => fail(CatalogError::from_fault(fault)),
        _ => abort(CatalogError::Integrity),
    }
}

fn after_inserting_game(names: Vec<String>, reply: Reply) -> (step: Step)
    ensures
        step.deep_view() == advance_spec(
            TaskView::InsertingGame { names: names.deep_view() },
            reply.deep_view(),
        ),
{
    match reply {
        Reply::Inserted(Some(id)) => {
            if names.len() == 0 {
                commit(Answer::Registered(id))
            } else {
                Step::Run(
                    Statement::InsertAltNames(alt_name_rows(&names, id)),
                    Task::Writing { answer: Answer::Registered(id) },
                )
            }
        },
        _ => abort(CatalogError::from_reply(&reply)),
    }
}

fn after_writing(answer: Answer, reply: Reply) -> (step: Step)
    ensures
        step.deep_view() == advance_spec(
            TaskView::Writing { answer: answer.deep_view() },
            reply.deep_view(),
        ),
{
    match reply {
        Reply::Done => commit(answer),
        _ => abort(CatalogError::from_reply(&reply)),
    }
}

fn after_listing_games(reply: Reply) -> (step: Step)
    ensures
        step.deep_view() == advance_spec(TaskView::ListingGames, reply.deep_view()),
{
    match reply {
        Reply::Games(rows) => match game_ids(&rows) {
            Some(ids) => Step::Run(Statement::AltNamesOf(ids), Task::NamingGames { games: rows }),
            None => abort(CatalogError::Integrity),
        },
        _ => abort(CatalogError::from_reply(&reply)),
    }
}

fn after_naming_games(games: Vec<DbGameMetadata>, reply: Reply) -> (step: Step)
    ensures
        step.deep_view() == advance_spec(
            TaskView::NamingGames { games: games.deep_view() },
            reply.deep_view(),
        ),
{
    match reply {
        Reply::NameLists(lists) => match game_records(&games, &lists) {
            Some(records) => commit(Answer::Games(records)),
            None => abort(CatalogError::Integrity),
        },
        _ => abort(CatalogError::from_reply(&reply)),
    }
}

fn after_finding_game(reply: Reply) -> (step: Step)
    ensures
        step.deep_view() == advance_spec(TaskView::FindingGame, reply.deep_view()),
{
    match reply {
        Reply::Game(None) => commit(Answer::Game(None)),
        Reply::Game(Some(row)) => match row.id {
            Some(id) => {
                let ids: Vec<i32> = vec![id];
                assert(ids@ =~= seq![id]);
                Step::Run(Statement::AltNamesOf(ids), Task::NamingGame { row })
            },
            None => commit(Answer::Game(None)),
        },
        _ => abort(CatalogError::from_reply(&reply)),
    }
}

fn after_naming_game(row: DbGameMetadata, reply: Reply) -> (step: Step)
    ensures
        step.deep_view() == advance_spec(
            TaskView::NamingGame { row: row.deep_view() },
            reply.deep_view(),
        ),
{
    match reply {
        Reply::NameLists(lists) => {
            if lists.len() == 1 {
                commit(Answer::Game(Some(game_record(&row, &lists[0]))))
            } else {
                abort(CatalogError::Integrity)
            }
        },
        _ => abort(CatalogError::from_reply(&reply)),
    }
}

fn after_storing(reply: Reply) -> (step: Step)
    ensures
        step.deep_view() == advance_spec(TaskView::Storing, reply.deep_view()),
{
    match reply {
        Reply::Done => succeed(Answer::Done),
        _ => fail(CatalogError::from_reply(&reply)),
    }
}

fn after_reading_texts(reply: Reply) -> (step: Step)
    ensures
        step.deep_view() == advance_spec(TaskView::ReadingTexts, reply.deep_view()),
{
    match reply {
        Reply::Texts(texts) => succeed(Answer::Locations(texts)),
        _ => fail(CatalogError::from_reply(&reply)),
    }
}

fn after_reading_paths(reply: Reply) -> (step: Step)
    ensures
        step.deep_view() == advance_spec(TaskView::ReadingPaths, reply.deep_view()),
{
    match reply {
        Reply::Paths(rows) => succeed(Answer::Paths(path_records(&rows))),
        _ => fail(CatalogError::from_reply(&reply)),
    }
}

fn after_reading_executables(reply: Reply) -> (step: Step)
    ensures
        step.deep_view() == advance_spec(TaskView::ReadingExecutables, reply.deep_view()),
{
    match reply {
        Reply::Executables(rows) => succeed(Answer::Executables(executable_records(&rows))),
        _ => fail(CatalogError::from_reply(&reply)),
    }
}

fn after_inserting_save(files: Vec<DbFileHash>, reply: Reply) -> (step: Step)
    ensures
        step.deep_view() == advance_spec(
            TaskView::InsertingSave { files: files.deep_view() },
            reply.deep_view(),
        ),
{
    match reply {
        Reply::Done => {
            if files.len() == 0 {
                commit(Answer::Done)
            } else {
                Step::Run(Statement::InsertFileHashes(files), Task::Writing { answer: Answer::Done })
            }
        },
        _ => abort(CatalogError::from_reply(&reply)),
    }
}

fn after_listing_saves(reply: Reply) -> (step: Step)
    ensures
        step.deep_view() == advance_spec(TaskView::ListingSaves, reply.deep_view()),
{
    match reply {
        Reply::Saves(rows) => {
            if rows.len() == 0 {
                commit(Answer::Saves(None))
            } else {
                let uuids = save_uuids(&rows);
                Step::Run(Statement::FileHashesOf(uuids), Task::GroupingFiles { saves: rows })
            }
        },
        _ => abort(CatalogError::from_reply(&reply)),
    }
}

fn after_grouping_files(saves: Vec<DbGameSave>, reply: Reply) -> (step: Step)
    ensures
        step.deep_view() == advance_spec(
            TaskView::GroupingFiles { saves: saves.deep_view() },
            reply.deep_view(),
        ),
{
    match reply {
        Reply::FileHashLists(lists) => match save_references(&saves, &lists) {
            Some(records) => commit(Answer::Saves(Some(records))),
            None => abort(CatalogError::Integrity),
        },
        _ => abort(CatalogError::from_reply(&reply)),
    }
}

fn after_committing(answer: Answer, reply: Reply) -> (step: Step)
    ensures
        step.deep_view() == advance_spec(
            TaskView::Committing { answer: answer.deep_view() },
            reply.deep_view(),
        ),
{
    match reply {
        Reply::Done => succeed(answer),
        _ => abort(CatalogError::from_reply(&reply)),
    }
}

impl Task {
    /// The step that follows the engine's reply to the statement that this
    /// task waits for.
    pub fn advance(self, reply: Reply) -> (step: Step)
        ensures
            step.deep_view() == advance_spec(self.deep_view(), reply.deep_view()),
    {
        match self {
            Task::Opening { request } => after_opening(request, reply),
            Task::InsertingGame { names } => after_inserting_game(names, reply),
            Task::Writing { answer } => after_writing(answer, reply),
            Task::ListingGames => after_listing_games(reply),
            Task::NamingGames { games } => after_naming_games(games, reply),
            Task::FindingGame => after_finding_game(reply),
            Task::NamingGame { row } => after_naming_game(row, reply),
            Task::Storing => after_storing(reply),
            Task::ReadingTexts => after_reading_texts(reply),
            Task::ReadingPaths => after_reading_paths(reply),
            Task::ReadingExecutables => after_reading_executables(reply),
            Task::InsertingSave { files } => after_inserting_save(files, reply),
            Task::ListingSaves => after_listing_saves(reply),
            Task::GroupingFiles { saves } => after_grouping_files(saves, reply),
            Task::Committing { answer } => after_committing(answer, reply),
            Task::RollingBack { error } => fail(error),
        }
    }
}

} // verus!
