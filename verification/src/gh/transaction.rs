//! The transaction that sets the active credential, as a sequence of steps.
//!
//! The caller carries out one action at a time on the database and reports
//! how it went; `TokenStep::advance` says what comes next. A failure inside
//! the transaction leads to a rollback, so that the user and the credential
//! are written together or not at all.

use crate::errors::GHDError;
use crate::gh::types::GithubUser;
use crate::sql::Statement;
use crate::tables::Tables;
use vstd::prelude::*;

verus! {

/// What the caller is to do next.
#[derive(Debug, PartialEq, Eq)]
pub enum TokenAction {
    /// Open a transaction.
    Begin,
    /// Run the statement inside the open transaction.
    Execute(Statement),
    /// Commit the open transaction.
    Commit,
    /// Roll the open transaction back.
    Rollback,
    /// Stop and hand this result to whoever asked for the credential to be set.
    Return(Result<(), GHDError>),
}

/// Where the setting of a credential stands: which action is under way.
#[derive(Debug, PartialEq, Eq)]
pub enum TokenStep {
    /// The transaction is being opened for this credential and user.
    Opening { token: String, user: GithubUser },
    /// The user is being upserted; the credential for `user_id` comes next.
    WritingUser { token: String, user_id: i64 },
    /// The credential is being inserted.
    WritingToken,
    /// The transaction is being committed.
    Committing,
    /// The transaction is being rolled back after a failure.
    RollingBack,
    /// The operation is over, with this result.
    Done(Result<(), GHDError>),
}

impl TokenStep {
    /// How the setting of `token` starts, given what the identity endpoint's
    /// reply for it amounts to: with a transaction for the user that the
    /// reply names, or with the end of the operation where it names none.
    pub open spec fn start(token: String, identity: Result<GithubUser, GHDError>) -> (
        TokenStep,
        TokenAction,
    ) {
        match identity {
            Ok(user) => (TokenStep::Opening { token, user }, TokenAction::Begin),
            Err(kind) => (TokenStep::Done(Err(kind)), TokenAction::Return(Err(kind))),
        }
    }

    /// The number of actions that can still follow.
    pub open spec fn rank(self) -> nat {
        match self {
            TokenStep::Opening { .. } => 4,
            TokenStep::WritingUser { .. } => 3,
            TokenStep::WritingToken => 2,
            TokenStep::Committing => 1,
            TokenStep::RollingBack => 1,
            TokenStep::Done(_) => 0,
        }
    }

    /// The step and the action that follow when the action under way went as
    /// `stored` says. A failure before the transaction is open, or of the
    /// commit, ends the operation with `StorageError`; a failure of a
    /// statement rolls back first. A finished operation stays finished.
    pub open spec fn advanced(self, stored: Result<(), sqlx::Error>) -> (TokenStep, TokenAction) {
        let failed = Err(GHDError::StorageError);
        match self {
            TokenStep::Opening { token, user } => if stored is Ok {
                (
                    TokenStep::WritingUser { token, user_id: user.id },
                    TokenAction::Execute(Statement::UpsertUser(user)),
                )
            } else {
                (TokenStep::Done(failed), TokenAction::Return(failed))
            },
            TokenStep::WritingUser { token, user_id } => if stored is Ok {
                (
                    TokenStep::WritingToken,
                    TokenAction::Execute(Statement::InsertToken { token, user_id }),
                )
            } else {
                (TokenStep::RollingBack, TokenAction::Rollback)
            },
            TokenStep::WritingToken => if stored is Ok {
                (TokenStep::Committing, TokenAction::Commit)
            } else {
                (TokenStep::RollingBack, TokenAction::Rollback)
            },
            TokenStep::Committing => if stored is Ok {
                (TokenStep::Done(Ok(())), TokenAction::Return(Ok(())))
            } else {
                (TokenStep::Done(failed), TokenAction::Return(failed))
            },
            TokenStep::RollingBack => (TokenStep::Done(failed), TokenAction::Return(failed)),
            TokenStep::Done(result) => (TokenStep::Done(result), TokenAction::Return(result)),
        }
    }

    /// Takes the outcome of the action under way and says what comes next.
    pub fn advance(self, stored: Result<(), sqlx::Error>) -> (next: (TokenStep, TokenAction))
        ensures
            next == self.advanced(stored),
    {
        let ok = stored.is_ok();
        match self {
            TokenStep::Opening { token, user } => if ok {
                (
                    TokenStep::WritingUser { token, user_id: user.id },
                    TokenAction::Execute(Statement::UpsertUser(user)),
                )
            } else {
                (
                    TokenStep::Done(Err(GHDError::StorageError)),
                    TokenAction::Return(Err(GHDError::StorageError)),
                )
            },
            TokenStep::WritingUser { token, user_id } => if ok {
                (
                    TokenStep::WritingToken,
                    TokenAction::Execute(Statement::InsertToken { token, user_id }),
                )
            } else {
                (TokenStep::RollingBack, TokenAction::Rollback)
            },
            TokenStep::WritingToken => if ok {
                (TokenStep::Committing, TokenAction::Commit)
            } else {
                (TokenStep::RollingBack, TokenAction::Rollback)
            },
            TokenStep::Committing => if ok {
                (TokenStep::Done(Ok(())), TokenAction::Return(Ok(())))
            } else {
                (
                    TokenStep::Done(Err(GHDError::StorageError)),
                    TokenAction::Return(Err(GHDError::StorageError)),
                )
            },
            TokenStep::RollingBack => (
                TokenStep::Done(Err(GHDError::StorageError)),
                TokenAction::Return(Err(GHDError::StorageError)),
            ),
            TokenStep::Done(result) => (TokenStep::Done(result), TokenAction::Return(result)),
        }
    }
}

/// The database as a transaction sees it: the tables that are committed, and
/// the tables of the open transaction, if one is open.
pub struct Database {
    pub committed: Tables,
    pub staged: Option<Tables>,
}

impl Database {
    /// The database after the caller carried out `action` and the database
    /// answered `stored`. A statement that fails changes nothing; a commit
    /// that fails leaves the committed tables as they were and ends the
    /// transaction; a rollback ends it in any case.
    pub open spec fn perform(self, action: TokenAction, stored: Result<(), sqlx::Error>) -> Database {
        match action {
            TokenAction::Begin => if stored is Ok {
                Database { committed: self.committed, staged: Some(self.committed) }
            } else {
                self
            },
            TokenAction::Execute(statement) => match self.staged {
                Some(tables) if stored is Ok => Database {
                    committed: self.committed,
                    staged: Some(statement.effect(tables)),
                },
                _ => self,
            },
            TokenAction::Commit => match self.staged {
                Some(tables) if stored is Ok => Database { committed: tables, staged: None },
                _ => Database { committed: self.committed, staged: None },
            },
            TokenAction::Rollback => Database { committed: self.committed, staged: None },
            TokenAction::Return(_) => self,
        }
    }

    /// Carries the operation through from `step`, where `action` is under
    /// way, against a database that answers each action as `answers` says.
    /// Gives the result of the operation and the database it leaves behind.
    pub open spec fn run(
        self,
        step: TokenStep,
        action: TokenAction,
        answers: spec_fn(TokenAction) -> Result<(), sqlx::Error>,
    ) -> (Result<(), GHDError>, Database)
        decreases step.rank(),
    {
        match step {
            TokenStep::Done(result) => (result, self),
            _ => {
                let stored = answers(action);
                let (next, then) = step.advanced(stored);
                self.perform(action, stored).run(next, then, answers)
            },
        }
    }
}

} // verus!
