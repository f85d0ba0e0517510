//! The statements and queries that the session manager sends to the
//! database, and what their outcomes mean.

use crate::errors::GHDError;
use crate::gh::types::GithubUser;
use crate::tables::Tables;
use vstd::prelude::*;

verus! {

/// The text of the query for the active credential.
pub const SELECT_TOKEN: &'static str = "SELECT token FROM tokens WHERE id = (SELECT MAX(id) FROM tokens)";

/// The text of the query for the current user.
pub const SELECT_USER: &'static str =
    "SELECT id, name, login, avatar_url FROM users WHERE id = (SELECT user_id FROM tokens WHERE id = (SELECT MAX(id) FROM tokens))";

/// The text of the user upsert.
pub const UPSERT_USER: &'static str =
    "INSERT OR REPLACE INTO users (id, login, name, avatar_url) VALUES (?, ?, ?, ?)";

/// The text of the credential insert.
pub const INSERT_TOKEN: &'static str = "INSERT OR REPLACE INTO tokens (token, user_id) VALUES (?, ?)";

/// One value bound to a placeholder of a statement.
#[derive(Debug, PartialEq, Eq)]
pub enum Bind {
    Integer(i64),
    Text(String),
}

/// A write that the session manager asks of the database.
#[derive(Debug, PartialEq, Eq)]
pub enum Statement {
    /// Insert the user, replacing the rows that clash with it.
    UpsertUser(GithubUser),
    /// Insert the credential for the user, replacing an earlier row of the pair.
    InsertToken { token: String, user_id: i64 },
}

impl Statement {
    /// The text of the statement.
    pub open spec fn text(self) -> Seq<char> {
        match self {
            Statement::UpsertUser(_) => UPSERT_USER@,
            Statement::InsertToken { .. } => INSERT_TOKEN@,
        }
    }

    /// The values for the placeholders of the text, in their order.
    pub open spec fn parameters(self) -> Seq<Bind> {
        match self {
            Statement::UpsertUser(user) => seq![
                Bind::Integer(user.id),
                Bind::Text(user.login),
                Bind::Text(user.name),
                Bind::Text(user.avatar_url),
            ],
            Statement::InsertToken { token, user_id } => seq![Bind::Text(token), Bind::Integer(user_id)],
        }
    }

    /// The tables after the statement ran.
    pub open spec fn effect(self, tables: Tables) -> Tables {
        match self {
            Statement::UpsertUser(user) => tables.upsert_user(user@),
            Statement::InsertToken { token, user_id } => tables.insert_token(token@, user_id as int),
        }
    }

    /// The SQL text to prepare.
    pub fn sql(&self) -> (text: &'static str)
        ensures
            text@ == self.text(),
    {
        match self {
            Statement::UpsertUser(_) => UPSERT_USER,
            Statement::InsertToken { .. } => INSERT_TOKEN,
        }
    }

    /// The values to bind, in the order of the placeholders.
    pub fn binds(&self) -> (values: Vec<Bind>)
        ensures
            values@ == self.parameters(),
    {
        match self {
            Statement::UpsertUser(user) => vec![
                Bind::Integer(user.id),
                Bind::Text(user.login.clone()),
                Bind::Text(user.name.clone()),
                Bind::Text(user.avatar_url.clone()),
            ],
            Statement::InsertToken { token, user_id } => vec![
                Bind::Text(token.clone()),
                Bind::Integer(*user_id),
            ],
        }
    }
}

/// `sqlx::Error`, the failure of a database call. Opaque here: the library
/// only asks whether it reports a missing row.
#[verifier::external_type_specification]
#[verifier::external_body]
pub struct ExSqlxError(sqlx::Error);

/// Whether a database failure is `sqlx::Error::RowNotFound`, with which a
/// fetch of one row reports that the query found none.
pub uninterp spec fn is_row_not_found(failure: sqlx::Error) -> bool;

/// Tells the variant `RowNotFound` of `sqlx::Error` from all the others.
#[verifier::external_body]
fn row_not_found(failure: &sqlx::Error) -> (missing: bool)
    ensures
        missing == is_row_not_found(*failure),
{
    match failure {
        sqlx::Error::RowNotFound => true,
        _ => false,
    }
}

/// The error kind of a fetch that gave no value: `missing` where the query
/// found no row, `StorageError` where the database failed otherwise.
pub open spec fn fetch_failure(no_row: bool, missing: GHDError) -> GHDError {
    if no_row {
        missing
    } else {
        GHDError::StorageError
    }
}

/// What a one-row fetch amounts to: the value that was fetched, `missing`
/// where there was no row, `StorageError` for any other failure.
pub open spec fn fetch_outcome<T>(fetched: Result<T, sqlx::Error>, missing: GHDError) -> Result<
    T,
    GHDError,
> {
    match fetched {
        Ok(value) => Ok(value),
        Err(failure) => Err(fetch_failure(is_row_not_found(failure), missing)),
    }
}

/// Whether `fetched` is what a one-row fetch hands back for a query that
/// yields `answer`: the row where there is one, `RowNotFound` where there is none.
pub open spec fn reports<T: View>(fetched: Result<T, sqlx::Error>, answer: Option<T::V>) -> bool {
    match answer {
        Some(row) => fetched matches Ok(value) && value@ == row,
        None => fetched matches Err(failure) && is_row_not_found(failure),
    }
}

/// Names the error kind of a failed fetch, given whether the failure was a
/// missing row.
pub fn settle_failure(no_row: bool, missing: GHDError) -> (kind: GHDError)
    ensures
        kind == fetch_failure(no_row, missing),
{
    if no_row {
        missing
    } else {
        GHDError::StorageError
    }
}

/// Turns the result of a one-row fetch into a result of the library: a missing
/// row becomes `missing`, any other failure a `StorageError`.
pub fn settle_fetch<T>(fetched: Result<T, sqlx::Error>, missing: GHDError) -> (outcome: Result<
    T,
    GHDError,
>)
    ensures
        outcome == fetch_outcome(fetched, missing),
{
    match fetched {
        Ok(value) => Ok(value),
        Err(failure) => Err(settle_failure(row_not_found(&failure), missing)),
    }
}

} // verus!
