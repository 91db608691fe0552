//! A storage engine in memory: the catalog's tables with transactions that
//! either commit every change or undo every change.

use crate::statement::{Fault, Reply, ReplyView, Statement, StatementView};
use crate::tables::{apply_spec, empty_tables, lemma_apply_keeps_invariant, tables_wf, Tables, TablesView};
use vstd::prelude::*;

verus! {

/// The engine's state: the tables as they stand, and, while a transaction is
/// open, the tables as they stood when it was opened.
pub struct EngineView {
    pub tables: TablesView,
    pub saved: Option<TablesView>,
}

/// The state with these tables and no open transaction.
pub open spec fn at_rest(tables: TablesView) -> EngineView {
    EngineView { tables, saved: None }
}

/// The engine's invariant: the tables' invariant holds of the tables as they
/// stand and as they were saved.
pub open spec fn store_wf(store: EngineView) -> bool {
    &&& tables_wf(store.tables)
    &&& store.saved is Some ==> tables_wf(store.saved.unwrap())
}

/// The state after a statement, and the reply to it. `Begin` saves the tables
/// unless a transaction is open; `Commit` forgets the saved tables; `Rollback`
/// puts them back; each of the two fails without an open transaction. Every
/// other statement acts on the tables as they stand.
pub open spec fn execute_spec(store: EngineView, statement: StatementView) -> (EngineView, ReplyView) {
    match statement {
        StatementView::Begin => if store.saved is None {
            (EngineView { tables: store.tables, saved: Some(store.tables) }, ReplyView::Done)
        } else {
            (store, ReplyView::Failed(Fault::Rejected))
        },
        StatementView::Commit => if store.saved is Some {
            (EngineView { tables: store.tables, saved: None }, ReplyView::Done)
        } else {
            (store, ReplyView::Failed(Fault::Rejected))
        },
        StatementView::Rollback => if store.saved is Some {
            (EngineView { tables: store.saved.unwrap(), saved: None }, ReplyView::Done)
        } else {
            (store, ReplyView::Failed(Fault::Rejected))
        },
        _ => (
            EngineView { tables: apply_spec(store.tables, statement).0, saved: store.saved },
            apply_spec(store.tables, statement).1,
        ),
    }
}

/// Every statement keeps the engine's invariant.
pub proof fn lemma_execute_keeps_invariant(store: EngineView, statement: StatementView)
    requires
        store_wf(store),
    ensures
        store_wf(execute_spec(store, statement).0),
{
    lemma_apply_keeps_invariant(store.tables, statement);
}

/// Whatever was done since `Begin`, `Rollback` puts the tables back as they
/// stood at `Begin`, and closes the transaction.
pub proof fn lemma_rollback_restores(store: EngineView)
    requires
        store.saved is Some,
    ensures
        execute_spec(store, StatementView::Rollback).0 == at_rest(store.saved.unwrap()),
        execute_spec(store, StatementView::Rollback).1 == ReplyView::Done,
{
}

/// The catalog's tables in memory, with transactions.
#[derive(Debug)]
pub struct MemoryStore {
    tables: Tables,
    saved: Option<Tables>,
}

impl DeepView for MemoryStore {
    type V = EngineView;

    closed spec fn deep_view(&self) -> EngineView {
        EngineView { tables: self.tables.deep_view(), saved: self.saved.deep_view() }
    }
}

impl MemoryStore {
    /// An engine with empty tables and no open transaction.
    pub fn new() -> (store: Self)
        ensures
            store.deep_view() == at_rest(empty_tables()),
            store_wf(store.deep_view()),
    {
        MemoryStore { tables: Tables::new(), saved: None }
    }

    /// Carries out one statement.
    pub fn execute(&mut self, statement: &Statement) -> (reply: Reply)
        requires
            store_wf(old(self).deep_view()),
        ensures
            store_wf(final(self).deep_view()),
            (final(self).deep_view(), reply.deep_view()) == execute_spec(
                old(self).deep_view(),
                statement.deep_view(),
            ),
    {
        match statement {
            Statement::Begin => {
                if self.saved.is_none() {
                    self.saved = Some(self.tables.clone());
                    Reply::Done
                } else {
                    Reply::Failed(Fault::Rejected)
                }
            },
            Statement::Commit => {
                if self.saved.is_some() {
                    self.saved = None;
                    Reply::Done
                } else {
                    Reply::Failed(Fault::Rejected)
                }
            },
            Statement::Rollback => {
                match self.saved.take() {
                    Some(saved) => {
                        self.tables = saved;
                        Reply::Done
                    },
                    None => Reply::Failed(Fault::Rejected),
                }
            },
            _ => self.tables.apply(statement),
        }
    }
}

} // verus!
