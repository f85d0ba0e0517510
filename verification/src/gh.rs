//! The session manager: who is the active user, and which credential is in use.
//!
//! Each operation takes what the remote service or the database answered and
//! decides what it means. The remote call and the database calls themselves
//! are the caller's.

pub mod prs;
pub mod transaction;
pub mod types;

use crate::errors::GHDError;
use crate::gh::prs::PullRequestEntry;
use crate::gh::transaction::{Database, TokenAction, TokenStep};
use crate::gh::types::{status_number, GithubReply, GithubUser, GithubUserReply, FORBIDDEN};
use crate::sql::{fetch_outcome, reports, settle_fetch, Statement};
use crate::tables::{set_token_takes_effect, Tables};
use vstd::prelude::*;

verus! {

/// The handle of the user whose pull requests are listed.
pub const PULLS_USER: &'static str = "jecluis";

/// The path of the identity endpoint.
pub const IDENTITY_PATH: &'static str = "/user";

/// Handle on the remote code-hosting service.
pub struct Github {}

impl Github {
    /// Creates the handle. It carries no state of its own.
    pub fn new() -> (gh: Self)
        ensures
            gh == (Github {}),
    {
        Github {}
    }

    /// What the identity endpoint's reply amounts to: the user that a
    /// successful reply describes, else the error kind of the reply.
    pub open spec fn identity(reply: GithubReply<GithubUserReply>) -> Result<GithubUser, GHDError> {
        match reply.outcome() {
            Ok(profile) => Ok(profile.user()),
            Err(kind) => Err(kind),
        }
    }

    /// Resolves a credential to a user, from the reply that the identity
    /// endpoint gave for it. A forbidden reply is a `BadTokenError`; any other
    /// failure, of the service or of the transport, an `UnknownError`.
    /// Nothing local is touched.
    pub fn whoami(&self, reply: GithubReply<GithubUserReply>) -> (res: Result<GithubUser, GHDError>)
        ensures
            res == Self::identity(reply),
    {
        match reply.settle() {
            Ok(profile) => Ok(
                GithubUser {
                    login: profile.login,
                    id: profile.id,
                    avatar_url: profile.avatar_url,
                    name: profile.name,
                },
            ),
            Err(kind) => Err(kind),
        }
    }

    /// The active credential, from the fetch of the token row with the highest
    /// id: the credential of that row, `TokenNotFoundError` where the table
    /// has no row, `StorageError` where the database failed.
    pub fn get_token(&self, fetched: Result<String, sqlx::Error>) -> (res: Result<String, GHDError>)
        ensures
            res == fetch_outcome(fetched, GHDError::TokenNotFoundError),
    {
        settle_fetch(fetched, GHDError::TokenNotFoundError)
    }

    /// Starts the setting of `token` as the active credential, from the reply
    /// that the identity endpoint gave for it. Where the reply names a user,
    /// a transaction is to be opened, in which `TokenStep::advance` has the
    /// user upserted and the credential inserted. Where it names none, the
    /// operation ends with the error kind of the reply and nothing is written.
    pub fn set_token(&self, token: &String, reply: GithubReply<GithubUserReply>) -> (start: (
        TokenStep,
        TokenAction,
    ))
        ensures
            start == TokenStep::start(*token, Self::identity(reply)),
    {
        match self.whoami(reply) {
            Ok(user) => (TokenStep::Opening { token: token.clone(), user }, TokenAction::Begin),
            Err(kind) => (TokenStep::Done(Err(kind)), TokenAction::Return(Err(kind))),
        }
    }

    /// The current user, from the fetch of the user row that the token row
    /// with the highest id points to: that user, `UserNotSetError` where the
    /// query found no such row, `StorageError` where the database failed.
    pub fn get_user(&self, fetched: Result<GithubUser, sqlx::Error>) -> (res: Result<
        GithubUser,
        GHDError,
    >)
        ensures
            res == fetch_outcome(fetched, GHDError::UserNotSetError),
    {
        settle_fetch(fetched, GHDError::UserNotSetError)
    }

    /// The pull requests of the listing's reply, or the error kind of the
    /// reply. The list is handed on as it came; nothing is cached.
    pub fn get_pulls(&self, reply: GithubReply<Vec<PullRequestEntry>>) -> (res: Result<
        Vec<PullRequestEntry>,
        GHDError,
    >)
        ensures
            res == reply.outcome(),
    {
        reply.settle()
    }
}

/// Whether the database lets the whole transaction for `token` and `user`
/// through: the opening, both statements and the commit.
pub open spec fn all_stored(
    answers: spec_fn(TokenAction) -> Result<(), sqlx::Error>,
    token: String,
    user: GithubUser,
) -> bool {
    &&& answers(TokenAction::Begin) is Ok
    &&& answers(TokenAction::Execute(Statement::UpsertUser(user))) is Ok
    &&& answers(TokenAction::Execute(Statement::InsertToken { token, user_id: user.id })) is Ok
    &&& answers(TokenAction::Commit) is Ok
}

/// Setting a credential is all or nothing. Where the reply names no user, the
/// operation ends with the reply's error kind. Where it names one and the
/// database lets the whole transaction through, the operation succeeds and
/// user and credential are committed together. Where the database fails at
/// any point, the operation ends with `StorageError`. In every case but
/// success the database is left exactly as it was.
pub proof fn set_token_is_atomic(
    token: String,
    reply: GithubReply<GithubUserReply>,
    answers: spec_fn(TokenAction) -> Result<(), sqlx::Error>,
    database: Database,
)
    requires
        database.staged is None,
    ensures
        ({
            let (step, action) = TokenStep::start(token, Github::identity(reply));
            let (result, after) = database.run(step, action, answers);
            match Github::identity(reply) {
                Err(kind) => result == Err::<(), GHDError>(kind) && after == database,
                Ok(user) => if all_stored(answers, token, user) {
                    &&& result == Ok::<(), GHDError>(())
                    &&& after.staged is None
                    &&& after.committed == database.committed.set_token(token@, user@)
                } else {
                    result == Err::<(), GHDError>(GHDError::StorageError) && after == database
                },
            }
        }),
{
    reveal_with_fuel(Database::run, 6);
}

/// After a credential was set with success, it is the active credential and
/// the user that the identity endpoint named for it is the current user:
/// a fetch of either that reports what the tables then hold gives exactly
/// that credential and that user.
pub proof fn set_token_then_get(
    token: String,
    reply: GithubReply<GithubUserReply>,
    answers: spec_fn(TokenAction) -> Result<(), sqlx::Error>,
    database: Database,
    fetched_token: Result<String, sqlx::Error>,
    fetched_user: Result<GithubUser, sqlx::Error>,
)
    requires
        database.staged is None,
        database.committed.wf(),
        ({
            let (step, action) = TokenStep::start(token, Github::identity(reply));
            let (result, after) = database.run(step, action, answers);
            &&& result is Ok
            &&& reports(fetched_token, after.committed.active_token())
            &&& reports(fetched_user, after.committed.current_user())
        }),
    ensures
        Github::identity(reply) is Ok,
        ({
            let (step, action) = TokenStep::start(token, Github::identity(reply));
            database.run(step, action, answers).1.committed.wf()
        }),
        fetch_outcome(fetched_token, GHDError::TokenNotFoundError) matches Ok(active) && active@
            == token@,
        fetch_outcome(fetched_user, GHDError::UserNotSetError) matches Ok(current) && current@
            == Github::identity(reply).unwrap()@,
{
    set_token_is_atomic(token, reply, answers, database);
    set_token_takes_effect(database.committed, token@, Github::identity(reply).unwrap()@);
}

/// A credential set after another becomes the active one, whether the two
/// belong to the same user or not.
pub proof fn second_token_replaces_first(
    first: String,
    first_reply: GithubReply<GithubUserReply>,
    second: String,
    second_reply: GithubReply<GithubUserReply>,
    answers: spec_fn(TokenAction) -> Result<(), sqlx::Error>,
    database: Database,
    fetched_token: Result<String, sqlx::Error>,
)
    requires
        database.staged is None,
        database.committed.wf(),
        ({
            let (step, action) = TokenStep::start(first, Github::identity(first_reply));
            let (result, between) = database.run(step, action, answers);
            let (step, action) = TokenStep::start(second, Github::identity(second_reply));
            let (again, after) = between.run(step, action, answers);
            &&& result is Ok
            &&& again is Ok
            &&& reports(fetched_token, after.committed.active_token())
        }),
    ensures
        fetch_outcome(fetched_token, GHDError::TokenNotFoundError) matches Ok(active) && active@
            == second@,
{
    let (step, action) = TokenStep::start(first, Github::identity(first_reply));
    let between = database.run(step, action, answers).1;
    let first_user = Github::identity(first_reply).unwrap();
    let second_user = Github::identity(second_reply).unwrap();
    set_token_is_atomic(first, first_reply, answers, database);
    set_token_takes_effect(database.committed, first@, first_user@);
    set_token_is_atomic(second, second_reply, answers, between);
    set_token_takes_effect(between.committed, second@, second_user@);
}

/// A session, once there is one, is never lost: where the tables name a
/// current user, they still name one after a credential was set, whether
/// that went through or failed, and whatever the database answered.
pub proof fn session_is_kept(
    token: String,
    reply: GithubReply<GithubUserReply>,
    answers: spec_fn(TokenAction) -> Result<(), sqlx::Error>,
    database: Database,
)
    requires
        database.staged is None,
        database.committed.wf(),
        database.committed.current_user() is Some,
    ensures
        ({
            let (step, action) = TokenStep::start(token, Github::identity(reply));
            let after = database.run(step, action, answers).1;
            &&& after.committed.wf()
            &&& after.committed.active_token() is Some
            &&& after.committed.current_user() is Some
        }),
{
    set_token_is_atomic(token, reply, answers, database);
    if let Ok(user) = Github::identity(reply) {
        set_token_takes_effect(database.committed, token@, user@);
    }
}

/// A credential that the identity endpoint rejects as forbidden is a
/// `BadTokenError`, and the database is left exactly as it was: the active
/// credential and the current user stay what they were.
pub proof fn forbidden_token_changes_nothing(
    token: String,
    status: reqwest::StatusCode,
    body: Option<GithubUserReply>,
    answers: spec_fn(TokenAction) -> Result<(), sqlx::Error>,
    database: Database,
)
    requires
        status_number(status) == FORBIDDEN,
    ensures
        ({
            let reply = GithubReply::Response { status, body };
            let (step, action) = TokenStep::start(token, Github::identity(reply));
            database.run(step, action, answers) == (
                Err::<(), GHDError>(GHDError::BadTokenError),
                database,
            )
        }),
{
    reveal_with_fuel(Database::run, 2);
}

/// With an empty token table the active credential is `TokenNotFoundError`
/// and the current user `UserNotSetError`.
pub proof fn get_token_without_tokens(
    tables: Tables,
    fetched_token: Result<String, sqlx::Error>,
    fetched_user: Result<GithubUser, sqlx::Error>,
)
    requires
        forall|k: int| !tables.tokens.contains_key(k),
        reports(fetched_token, tables.active_token()),
        reports(fetched_user, tables.current_user()),
    ensures
        fetch_outcome(fetched_token, GHDError::TokenNotFoundError) == Err::<String, GHDError>(
            GHDError::TokenNotFoundError,
        ),
        fetch_outcome(fetched_user, GHDError::UserNotSetError) == Err::<GithubUser, GHDError>(
            GHDError::UserNotSetError,
        ),
{
}

/// Where the latest token row names no user, or one that the user table does
/// not hold, the current user is `UserNotSetError`.
pub proof fn get_user_of_unlinked_token(tables: Tables, fetched_user: Result<GithubUser, sqlx::Error>)
    requires
        tables.latest() matches Some(row) && (row.user_id matches Some(id)
            ==> !tables.users.contains_key(id)),
        reports(fetched_user, tables.current_user()),
    ensures
        fetch_outcome(fetched_user, GHDError::UserNotSetError) == Err::<GithubUser, GHDError>(
            GHDError::UserNotSetError,
        ),
{
}

} // verus!
