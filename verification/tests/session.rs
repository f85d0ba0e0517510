use ghd::db::SCHEMA;
use ghd::errors::GHDError;
use ghd::gh::transaction::{TokenAction, TokenStep};
use ghd::gh::types::{GithubReply, GithubUser, GithubUserReply};
use ghd::gh::Github;
use ghd::sql::{Bind, Statement, SELECT_TOKEN, SELECT_USER};
use reqwest::StatusCode;
use sqlx::sqlite::SqlitePoolOptions;
use sqlx::{Row, SqlitePool};

fn block_on<F: std::future::Future>(future: F) -> F::Output {
    tokio::runtime::Builder::new_current_thread().enable_all().build().unwrap().block_on(future)
}

/// A database in memory that holds the schema and nothing else.
async fn fresh_database() -> SqlitePool {
    let pool =
        SqlitePoolOptions::new().max_connections(1).connect("sqlite::memory:").await.unwrap();
    sqlx::query(SCHEMA).execute(&pool).await.unwrap();
    pool
}

fn profile(id: i64, login: &str, name: &str, avatar_url: &str) -> GithubUserReply {
    GithubUserReply {
        login: login.to_string(),
        id,
        avatar_url: avatar_url.to_string(),
        name: name.to_string(),
    }
}

fn user(id: i64, login: &str, name: &str, avatar_url: &str) -> GithubUser {
    GithubUser {
        login: login.to_string(),
        id,
        avatar_url: avatar_url.to_string(),
        name: name.to_string(),
    }
}

fn octo() -> GithubUser {
    user(42, "octo", "Octo Cat", "https://avatars.example/42")
}

fn octo_profile() -> GithubUserReply {
    profile(42, "octo", "Octo Cat", "https://avatars.example/42")
}

fn found(profile: GithubUserReply) -> GithubReply<GithubUserReply> {
    GithubReply::Response { status: StatusCode::OK, body: Some(profile) }
}

fn forbidden() -> GithubReply<GithubUserReply> {
    GithubReply::Response { status: StatusCode::FORBIDDEN, body: None }
}

async fn execute(
    tx: &mut sqlx::Transaction<'static, sqlx::Sqlite>,
    statement: &Statement,
) -> Result<(), sqlx::Error> {
    let mut query = sqlx::query(statement.sql());
    for value in statement.binds() {
        query = match value {
            Bind::Integer(number) => query.bind(number),
            Bind::Text(text) => query.bind(text),
        };
    }
    query.execute(tx).await.map(|_| ())
}

/// Sets the credential as a caller of the library does: it asks nothing of
/// the remote service, but takes the reply as given.
async fn set_token(
    pool: &SqlitePool,
    token: &str,
    reply: GithubReply<GithubUserReply>,
) -> Result<(), GHDError> {
    let gh = Github::new();
    let (mut step, mut action) = gh.set_token(&token.to_string(), reply);
    let mut open: Option<sqlx::Transaction<'static, sqlx::Sqlite>> = None;
    loop {
        let stored = match &action {
            TokenAction::Begin => match pool.begin().await {
                Ok(tx) => {
                    open = Some(tx);
                    Ok(())
                }
                Err(failure) => Err(failure),
            },
            TokenAction::Execute(statement) => execute(open.as_mut().unwrap(), statement).await,
            TokenAction::Commit => open.take().unwrap().commit().await,
            TokenAction::Rollback => open.take().unwrap().rollback().await,
            TokenAction::Return(result) => return *result,
        };
        let next = step.advance(stored);
        step = next.0;
        action = next.1;
    }
}

async fn get_token(pool: &SqlitePool) -> Result<String, GHDError> {
    let fetched =
        sqlx::query(SELECT_TOKEN).fetch_one(pool).await.and_then(|row| row.try_get("token"));
    Github::new().get_token(fetched)
}

async fn get_user(pool: &SqlitePool) -> Result<GithubUser, GHDError> {
    let fetched = sqlx::query(SELECT_USER).fetch_one(pool).await.and_then(|row| {
        Ok(GithubUser {
            login: row.try_get("login")?,
            id: row.try_get("id")?,
            avatar_url: row.try_get("avatar_url")?,
            name: row.try_get("name")?,
        })
    });
    Github::new().get_user(fetched)
}

async fn count(pool: &SqlitePool, sql: &str) -> i64 {
    let row: (i64,) = sqlx::query_as(sql).fetch_one(pool).await.unwrap();
    row.0
}

async fn token_rows(pool: &SqlitePool) -> Vec<(i64, String, Option<i64>)> {
    sqlx::query_as("SELECT id, token, user_id FROM tokens ORDER BY id").fetch_all(pool).await.unwrap()
}

async fn user_rows(pool: &SqlitePool) -> Vec<(i64, String, String, String)> {
    sqlx::query_as("SELECT id, login, name, avatar_url FROM users ORDER BY id")
        .fetch_all(pool)
        .await
        .unwrap()
}

#[test]
fn statement_texts() {
    assert_eq!(
        Statement::UpsertUser(octo()).sql(),
        "INSERT OR REPLACE INTO users (id, login, name, avatar_url) VALUES (?, ?, ?, ?)"
    );
    assert_eq!(
        Statement::InsertToken { token: "abc123".to_string(), user_id: 42 }.sql(),
        "INSERT OR REPLACE INTO tokens (token, user_id) VALUES (?, ?)"
    );
}

#[test]
fn upsert_binds_in_column_order() {
    assert_eq!(
        Statement::UpsertUser(octo()).binds(),
        vec![
            Bind::Integer(42),
            Bind::Text("octo".to_string()),
            Bind::Text("Octo Cat".to_string()),
            Bind::Text("https://avatars.example/42".to_string()),
        ]
    );
}

#[test]
fn insert_binds_in_column_order() {
    assert_eq!(
        Statement::InsertToken { token: "abc123".to_string(), user_id: 42 }.binds(),
        vec![Bind::Text("abc123".to_string()), Bind::Integer(42)]
    );
}

#[test]
fn get_token_outcomes() {
    let gh = Github::new();
    assert_eq!(gh.get_token(Ok("abc123".to_string())), Ok("abc123".to_string()));
    assert_eq!(gh.get_token(Ok(String::new())), Ok(String::new()));
    assert_eq!(gh.get_token(Err(sqlx::Error::RowNotFound)), Err(GHDError::TokenNotFoundError));
    assert_eq!(gh.get_token(Err(sqlx::Error::PoolClosed)), Err(GHDError::StorageError));
    assert_eq!(
        gh.get_token(Err(sqlx::Error::ColumnNotFound("token".to_string()))),
        Err(GHDError::StorageError)
    );
}

#[test]
fn get_user_outcomes() {
    let gh = Github::new();
    assert_eq!(gh.get_user(Ok(octo())), Ok(octo()));
    assert_eq!(gh.get_user(Err(sqlx::Error::RowNotFound)), Err(GHDError::UserNotSetError));
    assert_eq!(gh.get_user(Err(sqlx::Error::PoolTimedOut)), Err(GHDError::StorageError));
    assert_eq!(gh.get_user(Err(sqlx::Error::WorkerCrashed)), Err(GHDError::StorageError));
}

#[test]
fn set_token_starts_a_transaction() {
    let gh = Github::new();
    let start = gh.set_token(&"abc123".to_string(), found(octo_profile()));
    assert_eq!(
        start,
        (TokenStep::Opening { token: "abc123".to_string(), user: octo() }, TokenAction::Begin)
    );
}

#[test]
fn set_token_ends_on_a_rejected_credential() {
    let gh = Github::new();
    let rejected = Err(GHDError::BadTokenError);
    assert_eq!(
        gh.set_token(&"abc123".to_string(), forbidden()),
        (TokenStep::Done(rejected), TokenAction::Return(rejected))
    );
    let unknown = Err(GHDError::UnknownError);
    assert_eq!(
        gh.set_token(&"abc123".to_string(), GithubReply::Failed),
        (TokenStep::Done(unknown), TokenAction::Return(unknown))
    );
    let gone = GithubReply::Response { status: StatusCode::GONE, body: Some(octo_profile()) };
    assert_eq!(
        gh.set_token(&"abc123".to_string(), gone),
        (TokenStep::Done(unknown), TokenAction::Return(unknown))
    );
}

#[test]
fn transaction_steps_in_order() {
    let opening = TokenStep::Opening { token: "abc123".to_string(), user: octo() };
    let (step, action) = opening.advance(Ok(()));
    assert_eq!(step, TokenStep::WritingUser { token: "abc123".to_string(), user_id: 42 });
    assert_eq!(action, TokenAction::Execute(Statement::UpsertUser(octo())));
    let (step, action) = step.advance(Ok(()));
    assert_eq!(step, TokenStep::WritingToken);
    assert_eq!(
        action,
        TokenAction::Execute(Statement::InsertToken { token: "abc123".to_string(), user_id: 42 })
    );
    let (step, action) = step.advance(Ok(()));
    assert_eq!((step, action), (TokenStep::Committing, TokenAction::Commit));
    assert_eq!(
        TokenStep::Committing.advance(Ok(())),
        (TokenStep::Done(Ok(())), TokenAction::Return(Ok(())))
    );
}

#[test]
fn failure_to_open_ends_the_operation() {
    let failed = Err(GHDError::StorageError);
    let opening = TokenStep::Opening { token: "abc123".to_string(), user: octo() };
    assert_eq!(
        opening.advance(Err(sqlx::Error::PoolTimedOut)),
        (TokenStep::Done(failed), TokenAction::Return(failed))
    );
}

#[test]
fn failure_of_a_statement_rolls_back() {
    let failed = Err(GHDError::StorageError);
    let writing_user = TokenStep::WritingUser { token: "abc123".to_string(), user_id: 42 };
    assert_eq!(
        writing_user.advance(Err(sqlx::Error::WorkerCrashed)),
        (TokenStep::RollingBack, TokenAction::Rollback)
    );
    assert_eq!(
        TokenStep::WritingToken.advance(Err(sqlx::Error::WorkerCrashed)),
        (TokenStep::RollingBack, TokenAction::Rollback)
    );
    assert_eq!(
        TokenStep::RollingBack.advance(Ok(())),
        (TokenStep::Done(failed), TokenAction::Return(failed))
    );
    assert_eq!(
        TokenStep::RollingBack.advance(Err(sqlx::Error::WorkerCrashed)),
        (TokenStep::Done(failed), TokenAction::Return(failed))
    );
}

#[test]
fn failure_of_the_commit_ends_the_operation() {
    let failed = Err(GHDError::StorageError);
    assert_eq!(
        TokenStep::Committing.advance(Err(sqlx::Error::WorkerCrashed)),
        (TokenStep::Done(failed), TokenAction::Return(failed))
    );
}

#[test]
fn finished_operation_stays_finished() {
    let rejected = Err(GHDError::BadTokenError);
    assert_eq!(
        TokenStep::Done(rejected).advance(Ok(())),
        (TokenStep::Done(rejected), TokenAction::Return(rejected))
    );
    assert_eq!(
        TokenStep::Done(Ok(())).advance(Err(sqlx::Error::PoolClosed)),
        (TokenStep::Done(Ok(())), TokenAction::Return(Ok(())))
    );
}

#[test]
fn token_set_is_token_got() {
    block_on(async {
        let pool = fresh_database().await;
        let t1 = profile(1, "alice", "Alice", "https://avatars.example/1");
        assert_eq!(set_token(&pool, "T1", found(t1)).await, Ok(()));
        assert_eq!(get_token(&pool).await, Ok("T1".to_string()));
        assert_eq!(
            get_user(&pool).await,
            Ok(user(1, "alice", "Alice", "https://avatars.example/1"))
        );
    });
}

#[test]
fn second_token_of_the_same_user_wins() {
    block_on(async {
        let pool = fresh_database().await;
        let alice = profile(1, "alice", "Alice", "https://avatars.example/1");
        assert_eq!(set_token(&pool, "T1", found(alice.clone())).await, Ok(()));
        assert_eq!(set_token(&pool, "T2", found(alice)).await, Ok(()));
        assert_eq!(get_token(&pool).await, Ok("T2".to_string()));
        assert_eq!(
            get_user(&pool).await,
            Ok(user(1, "alice", "Alice", "https://avatars.example/1"))
        );
        assert_eq!(
            token_rows(&pool).await,
            vec![(1, "T1".to_string(), Some(1)), (2, "T2".to_string(), Some(1))]
        );
    });
}

#[test]
fn second_token_of_another_user_wins() {
    block_on(async {
        let pool = fresh_database().await;
        let alice = profile(1, "alice", "Alice", "https://avatars.example/1");
        let bob = profile(2, "bob", "Bob", "https://avatars.example/2");
        assert_eq!(set_token(&pool, "T1", found(alice)).await, Ok(()));
        assert_eq!(set_token(&pool, "T2", found(bob)).await, Ok(()));
        assert_eq!(get_token(&pool).await, Ok("T2".to_string()));
        assert_eq!(get_user(&pool).await, Ok(user(2, "bob", "Bob", "https://avatars.example/2")));
        assert_eq!(count(&pool, "SELECT COUNT(*) FROM users").await, 2);
    });
}

#[test]
fn first_token_set_again_is_the_latest() {
    block_on(async {
        let pool = fresh_database().await;
        let alice = profile(1, "alice", "Alice", "https://avatars.example/1");
        assert_eq!(set_token(&pool, "T1", found(alice.clone())).await, Ok(()));
        assert_eq!(set_token(&pool, "T2", found(alice.clone())).await, Ok(()));
        assert_eq!(set_token(&pool, "T1", found(alice)).await, Ok(()));
        assert_eq!(get_token(&pool).await, Ok("T1".to_string()));
        assert_eq!(
            token_rows(&pool).await,
            vec![(2, "T2".to_string(), Some(1)), (3, "T1".to_string(), Some(1))]
        );
    });
}

#[test]
fn same_token_for_two_users_keeps_both_rows() {
    block_on(async {
        let pool = fresh_database().await;
        let alice = profile(1, "alice", "Alice", "https://avatars.example/1");
        let bob = profile(2, "bob", "Bob", "https://avatars.example/2");
        assert_eq!(set_token(&pool, "T1", found(alice)).await, Ok(()));
        assert_eq!(set_token(&pool, "T1", found(bob)).await, Ok(()));
        assert_eq!(
            token_rows(&pool).await,
            vec![(1, "T1".to_string(), Some(1)), (2, "T1".to_string(), Some(2))]
        );
        assert_eq!(get_user(&pool).await, Ok(user(2, "bob", "Bob", "https://avatars.example/2")));
    });
}

#[test]
fn token_ids_are_never_used_again() {
    block_on(async {
        let pool = fresh_database().await;
        let alice = profile(1, "alice", "Alice", "https://avatars.example/1");
        assert_eq!(set_token(&pool, "T1", found(alice.clone())).await, Ok(()));
        assert_eq!(set_token(&pool, "T2", found(alice.clone())).await, Ok(()));
        sqlx::query("DELETE FROM tokens").execute(&pool).await.unwrap();
        assert_eq!(get_token(&pool).await, Err(GHDError::TokenNotFoundError));
        assert_eq!(set_token(&pool, "T3", found(alice)).await, Ok(()));
        assert_eq!(token_rows(&pool).await, vec![(3, "T3".to_string(), Some(1))]);
    });
}

#[test]
fn forbidden_token_leaves_the_session_alone() {
    block_on(async {
        let pool = fresh_database().await;
        let alice = profile(1, "alice", "Alice", "https://avatars.example/1");
        assert_eq!(set_token(&pool, "T1", found(alice)).await, Ok(()));
        let users = user_rows(&pool).await;
        let tokens = token_rows(&pool).await;

        assert_eq!(set_token(&pool, "T2", forbidden()).await, Err(GHDError::BadTokenError));

        assert_eq!(get_token(&pool).await, Ok("T1".to_string()));
        assert_eq!(
            get_user(&pool).await,
            Ok(user(1, "alice", "Alice", "https://avatars.example/1"))
        );
        assert_eq!(user_rows(&pool).await, users);
        assert_eq!(token_rows(&pool).await, tokens);
    });
}

#[test]
fn forbidden_token_on_a_fresh_database() {
    block_on(async {
        let pool = fresh_database().await;
        assert_eq!(set_token(&pool, "T1", forbidden()).await, Err(GHDError::BadTokenError));
        assert_eq!(get_token(&pool).await, Err(GHDError::TokenNotFoundError));
        assert_eq!(count(&pool, "SELECT COUNT(*) FROM users").await, 0);
        assert_eq!(count(&pool, "SELECT COUNT(*) FROM tokens").await, 0);
    });
}

#[test]
fn unknown_failure_leaves_the_session_alone() {
    block_on(async {
        let pool = fresh_database().await;
        let alice = profile(1, "alice", "Alice", "https://avatars.example/1");
        assert_eq!(set_token(&pool, "T1", found(alice)).await, Ok(()));
        assert_eq!(set_token(&pool, "T2", GithubReply::Failed).await, Err(GHDError::UnknownError));
        assert_eq!(get_token(&pool).await, Ok("T1".to_string()));
    });
}

#[test]
fn no_token_is_token_not_found() {
    block_on(async {
        let pool = fresh_database().await;
        assert_eq!(get_token(&pool).await, Err(GHDError::TokenNotFoundError));
    });
}

#[test]
fn no_token_is_user_not_set() {
    block_on(async {
        let pool = fresh_database().await;
        assert_eq!(get_user(&pool).await, Err(GHDError::UserNotSetError));
    });
}

#[test]
fn token_without_user_is_user_not_set() {
    block_on(async {
        let pool = fresh_database().await;
        let alice = profile(1, "alice", "Alice", "https://avatars.example/1");
        assert_eq!(set_token(&pool, "T1", found(alice)).await, Ok(()));
        sqlx::query("INSERT INTO tokens (token, user_id) VALUES ('T2', NULL)")
            .execute(&pool)
            .await
            .unwrap();
        assert_eq!(get_token(&pool).await, Ok("T2".to_string()));
        assert_eq!(get_user(&pool).await, Err(GHDError::UserNotSetError));
    });
}

#[test]
fn token_of_a_missing_user_is_user_not_set() {
    block_on(async {
        let pool = fresh_database().await;
        let alice = profile(1, "alice", "Alice", "https://avatars.example/1");
        assert_eq!(set_token(&pool, "T1", found(alice)).await, Ok(()));
        sqlx::query("INSERT INTO tokens (token, user_id) VALUES ('T2', 99)")
            .execute(&pool)
            .await
            .unwrap();
        assert_eq!(get_token(&pool).await, Ok("T2".to_string()));
        assert_eq!(get_user(&pool).await, Err(GHDError::UserNotSetError));
    });
}

#[test]
fn missing_table_is_a_storage_error() {
    block_on(async {
        let pool = SqlitePoolOptions::new()
            .max_connections(1)
            .connect("sqlite::memory:")
            .await
            .unwrap();
        assert_eq!(get_token(&pool).await, Err(GHDError::StorageError));
        assert_eq!(get_user(&pool).await, Err(GHDError::StorageError));
    });
}

#[test]
fn upsert_overwrites_every_field() {
    block_on(async {
        let pool = fresh_database().await;
        let before = profile(1, "alice", "Alice", "https://avatars.example/1");
        let after = profile(1, "alice", "Alice Liddell", "https://avatars.example/1-new");
        assert_eq!(set_token(&pool, "T1", found(before)).await, Ok(()));
        assert_eq!(set_token(&pool, "T1", found(after)).await, Ok(()));
        assert_eq!(
            user_rows(&pool).await,
            vec![(
                1,
                "alice".to_string(),
                "Alice Liddell".to_string(),
                "https://avatars.example/1-new".to_string()
            )]
        );
        assert_eq!(
            get_user(&pool).await,
            Ok(user(1, "alice", "Alice Liddell", "https://avatars.example/1-new"))
        );
    });
}

#[test]
fn upsert_overwrites_the_login_too() {
    block_on(async {
        let pool = fresh_database().await;
        let before = profile(1, "alice", "Alice", "https://avatars.example/1");
        let after = profile(1, "alice-l", "Alice", "https://avatars.example/1");
        assert_eq!(set_token(&pool, "T1", found(before)).await, Ok(()));
        assert_eq!(set_token(&pool, "T2", found(after)).await, Ok(()));
        assert_eq!(
            user_rows(&pool).await,
            vec![(
                1,
                "alice-l".to_string(),
                "Alice".to_string(),
                "https://avatars.example/1".to_string()
            )]
        );
    });
}

#[test]
fn upsert_replaces_the_holder_of_the_login() {
    block_on(async {
        let pool = fresh_database().await;
        let old = profile(1, "alice", "Alice", "https://avatars.example/1");
        let new = profile(2, "alice", "Another Alice", "https://avatars.example/2");
        assert_eq!(set_token(&pool, "T1", found(old)).await, Ok(()));
        assert_eq!(set_token(&pool, "T2", found(new)).await, Ok(()));
        assert_eq!(
            user_rows(&pool).await,
            vec![(
                2,
                "alice".to_string(),
                "Another Alice".to_string(),
                "https://avatars.example/2".to_string()
            )]
        );
        assert_eq!(
            get_user(&pool).await,
            Ok(user(2, "alice", "Another Alice", "https://avatars.example/2"))
        );
    });
}

#[test]
fn octo_example() {
    block_on(async {
        let pool = fresh_database().await;
        let gh = Github::new();
        assert_eq!(gh.whoami(found(octo_profile())), Ok(octo()));
        assert_eq!(set_token(&pool, "abc123", found(octo_profile())).await, Ok(()));
        assert_eq!(get_user(&pool).await, Ok(octo()));
        assert_eq!(get_token(&pool).await, Ok("abc123".to_string()));
    });
}

#[test]
fn failed_insert_writes_nothing() {
    block_on(async {
        let pool = fresh_database().await;
        let alice = profile(1, "alice", "Alice", "https://avatars.example/1");
        assert_eq!(set_token(&pool, "T1", found(alice)).await, Ok(()));
        sqlx::query("ALTER TABLE tokens RENAME TO tokens_elsewhere").execute(&pool).await.unwrap();

        let bob = profile(2, "bob", "Bob", "https://avatars.example/2");
        assert_eq!(set_token(&pool, "T2", found(bob)).await, Err(GHDError::StorageError));

        assert_eq!(
            user_rows(&pool).await,
            vec![(
                1,
                "alice".to_string(),
                "Alice".to_string(),
                "https://avatars.example/1".to_string()
            )]
        );
        sqlx::query("ALTER TABLE tokens_elsewhere RENAME TO tokens").execute(&pool).await.unwrap();
        assert_eq!(get_token(&pool).await, Ok("T1".to_string()));
        assert_eq!(
            get_user(&pool).await,
            Ok(user(1, "alice", "Alice", "https://avatars.example/1"))
        );
    });
}

#[test]
fn failed_upsert_writes_nothing() {
    block_on(async {
        let pool = fresh_database().await;
        sqlx::query("ALTER TABLE users RENAME TO users_elsewhere").execute(&pool).await.unwrap();
        let alice = profile(1, "alice", "Alice", "https://avatars.example/1");
        assert_eq!(set_token(&pool, "T1", found(alice)).await, Err(GHDError::StorageError));
        assert_eq!(count(&pool, "SELECT COUNT(*) FROM tokens").await, 0);
        assert_eq!(count(&pool, "SELECT COUNT(*) FROM users_elsewhere").await, 0);
    });
}

#[test]
fn failure_to_open_is_a_storage_error() {
    block_on(async {
        let pool = fresh_database().await;
        pool.close().await;
        let alice = profile(1, "alice", "Alice", "https://avatars.example/1");
        assert_eq!(set_token(&pool, "T1", found(alice)).await, Err(GHDError::StorageError));
    });
}

#[test]
fn tokens_are_kept_as_they_are() {
    block_on(async {
        let pool = fresh_database().await;
        let alice = profile(1, "alice", "Alice", "https://avatars.example/1");
        assert_eq!(set_token(&pool, "", found(alice.clone())).await, Ok(()));
        assert_eq!(get_token(&pool).await, Ok(String::new()));
        assert_eq!(set_token(&pool, "ghp_ü ' ; --", found(alice)).await, Ok(()));
        assert_eq!(get_token(&pool).await, Ok("ghp_ü ' ; --".to_string()));
    });
}

#[test]
fn user_ids_of_any_size_are_kept() {
    block_on(async {
        let pool = fresh_database().await;
        let far = profile(i64::MAX, "far", "Far", "https://avatars.example/far");
        let low = profile(i64::MIN, "low", "Low", "https://avatars.example/low");
        assert_eq!(set_token(&pool, "T1", found(far)).await, Ok(()));
        assert_eq!(
            get_user(&pool).await,
            Ok(user(i64::MAX, "far", "Far", "https://avatars.example/far"))
        );
        assert_eq!(set_token(&pool, "T2", found(low)).await, Ok(()));
        assert_eq!(
            get_user(&pool).await,
            Ok(user(i64::MIN, "low", "Low", "https://avatars.example/low"))
        );
    });
}
