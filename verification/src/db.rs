//! The store: the handle on the embedded database, and the steps that make
//! sure its schema exists.
//!
//! The handle is generic in the connection pool that it keeps, which it never
//! looks into. Opening the pool and running the schema are the caller's.

use crate::errors::GHDError;
use vstd::prelude::*;
use vstd::string::StringExecFns;

verus! {

/// What every database address starts with.
pub const URI_SCHEME: &'static str = "sqlite://";

/// The statement batch that creates the schema, with foreign keys enforced.
pub const SCHEMA: &'static str = "
    PRAGMA foreign_keys = ON;
    CREATE TABLE IF NOT EXISTS settings (
        key         TEXT PRIMARY KEY NOT NULL,
        value       TEXT NOT NULL
    );
    CREATE TABLE IF NOT EXISTS users (
        id          INTEGER PRIMARY KEY NOT NULL,
        login       TEXT UNIQUE NOT NULL,
        avatar_url  TEXT NOT NULL,
        name        TEXT NOT NULL
    );
    CREATE TABLE IF NOT EXISTS issues (
        id              INTEGER PRIMARY KEY NOT NULL,
        number          INTEGER NOT NULL,
        title           TEXT NOT NULL,
        author          TEXT NOT NULL,
        author_id       INTEGER NOT NULL,
        url             TEXT NOT NULL,
        repo_owner      TEXT NOT NULL,
        repo_name       TEXT NOT NULL,
        state           TEXT NOT NULL,
        created_at      INTEGER NOT NULL,
        updated_at      INTEGER NOT NULL,
        closed_at       INTEGER,
        is_pull_request BOOL NOT NULL,
        last_viewed     INTEGER
    );
    CREATE TABLE IF NOT EXISTS pull_requests (
        id              INTEGER PRIMARY KEY NOT NULL,
        is_draft        BOOL NOT NULL,
        review_decision TEXT NOT NULL,
        merged_at       INTEGER,
        FOREIGN KEY (id) REFERENCES issues (id)
    );
    CREATE TABLE IF NOT EXISTS user_issues (
        user_id     INTEGER NOT NULL,
        issue_id    INTEGER NOT NULL,
        PRIMARY KEY (user_id, issue_id),
        FOREIGN KEY (user_id) REFERENCES users (id),
        FOREIGN KEY (issue_id) REFERENCES issues (id)
    );
    CREATE TABLE IF NOT EXISTS user_refresh (
        id          INTEGER PRIMARY KEY NOT NULL,
        refresh_at  INTEGER,
        FOREIGN KEY(id) REFERENCES users(id)
    );
    CREATE TABLE IF NOT EXISTS tokens (
        id          INTEGER PRIMARY KEY AUTOINCREMENT NOT NULL,
        token       TEXT NOT NULL,
        user_id     INTEGER,
        UNIQUE(token, user_id)
    );
    ";

/// What the caller is to do next to the database file.
#[derive(Debug, PartialEq, Eq)]
pub enum SetupAction {
    /// Create the database at the handle's address.
    CreateDatabase,
    /// Run `SCHEMA` on the database as one batch.
    ApplySchema,
    /// Stop, with this result.
    Return(Result<(), GHDError>),
}

/// Where the setting up of the database stands: which action is under way.
#[derive(Debug, PartialEq, Eq)]
pub enum SetupStep {
    /// The database is being created.
    Creating,
    /// The schema is being applied.
    Applying,
    /// The setup is over, with this result.
    Done(Result<(), GHDError>),
}

impl SetupStep {
    /// How the setup starts, given the probe for the database: a probe that
    /// found the database ends the setup at once; one that found none, or
    /// that failed, has the database created.
    pub open spec fn start(probe: Result<bool, sqlx::Error>) -> (SetupStep, SetupAction) {
        if probe matches Ok(true) {
            (SetupStep::Done(Ok(())), SetupAction::Return(Ok(())))
        } else {
            (SetupStep::Creating, SetupAction::CreateDatabase)
        }
    }

    /// The number of actions that can still follow.
    pub open spec fn rank(self) -> nat {
        match self {
            SetupStep::Creating => 2,
            SetupStep::Applying => 1,
            SetupStep::Done(_) => 0,
        }
    }

    /// The step and the action that follow when the action under way went as
    /// `stored` says: the schema after the creation, the end after the
    /// schema, and the end with `StorageError` after any failure. A finished
    /// setup stays finished.
    pub open spec fn advanced(self, stored: Result<(), sqlx::Error>) -> (SetupStep, SetupAction) {
        let failed = Err(GHDError::StorageError);
        match self {
            SetupStep::Creating => if stored is Ok {
                (SetupStep::Applying, SetupAction::ApplySchema)
            } else {
                (SetupStep::Done(failed), SetupAction::Return(failed))
            },
            SetupStep::Applying => if stored is Ok {
                (SetupStep::Done(Ok(())), SetupAction::Return(Ok(())))
            } else {
                (SetupStep::Done(failed), SetupAction::Return(failed))
            },
            SetupStep::Done(result) => (SetupStep::Done(result), SetupAction::Return(result)),
        }
    }

    /// Takes the outcome of the action under way and says what comes next.
    pub fn advance(self, stored: Result<(), sqlx::Error>) -> (next: (SetupStep, SetupAction))
        ensures
            next == self.advanced(stored),
    {
        let ok = stored.is_ok();
        match self {
            SetupStep::Creating => if ok {
                (SetupStep::Applying, SetupAction::ApplySchema)
            } else {
                (
                    SetupStep::Done(Err(GHDError::StorageError)),
                    SetupAction::Return(Err(GHDError::StorageError)),
                )
            },
            SetupStep::Applying => if ok {
                (SetupStep::Done(Ok(())), SetupAction::Return(Ok(())))
            } else {
                (
                    SetupStep::Done(Err(GHDError::StorageError)),
                    SetupAction::Return(Err(GHDError::StorageError)),
                )
            },
            SetupStep::Done(result) => (SetupStep::Done(result), SetupAction::Return(result)),
        }
    }
}

/// Handle on the database at one address. It is connected once it keeps a pool.
pub struct DB<P> {
    pub uri: String,
    pub pool: Option<P>,
}

impl<P> DB<P> {
    /// Whether the handle keeps a pool.
    pub open spec fn connected(self) -> bool {
        self.pool is Some
    }

    /// Builds the handle for the database file at `path`. Nothing is opened.
    pub fn new(path: &str) -> (db: Self)
        ensures
            db.uri@ == URI_SCHEME@ + path@,
            !db.connected(),
    {
        DB { uri: String::from_str(URI_SCHEME).concat(path), pool: None }
    }

    /// Tells whether the handle keeps a pool.
    pub fn is_connected(&self) -> (connected: bool)
        ensures
            connected == self.connected(),
    {
        self.pool.is_some()
    }

    /// Takes the pool that was opened for the handle's address. Where the
    /// opening failed, the handle stays unconnected and the failure is a
    /// `StorageError`. The handle must not be connected already.
    pub fn connect(&mut self, opened: Result<P, sqlx::Error>) -> (res: Result<(), GHDError>)
        requires
            !old(self).connected(),
        ensures
            final(self).uri == old(self).uri,
            match opened {
                Ok(pool) => res == Ok::<(), GHDError>(()) && final(self).pool == Some(pool),
                Err(_) => res == Err::<(), GHDError>(GHDError::StorageError) && final(self).pool
                    == old(self).pool,
            },
    {
        match opened {
            Ok(pool) => {
                self.pool = Some(pool);
                Ok(())
            },
            Err(_) => Err(GHDError::StorageError),
        }
    }

    /// Starts the setup of the database, from the probe that tells whether it
    /// exists. Where it does, nothing is to be done. Where it does not, or
    /// where the probe failed, the database is to be created, and
    /// `SetupStep::advance` has the schema applied to it.
    pub fn setup(&self, probe: Result<bool, sqlx::Error>) -> (start: (SetupStep, SetupAction))
        ensures
            start == SetupStep::start(probe),
    {
        match probe {
            Ok(true) => (SetupStep::Done(Ok(())), SetupAction::Return(Ok(()))),
            _ => (SetupStep::Creating, SetupAction::CreateDatabase),
        }
    }

    /// The pool of a connected handle.
    pub fn pool(&self) -> (pool: &P)
        requires
            self.connected(),
        ensures
            self.pool == Some(*pool),
    {
        self.pool.as_ref().unwrap()
    }
}

/// The database file as the setup sees it: whether it exists, and whether it
/// holds the tables of the schema.
pub struct Disk {
    pub exists: bool,
    pub has_schema: bool,
}

impl Disk {
    /// What the probe for the database reports when it does not fail.
    pub open spec fn probe(self) -> Result<bool, sqlx::Error> {
        Ok(self.exists)
    }

    /// The file after the caller carried out `action` and the database
    /// answered `stored`. An action that fails changes nothing.
    pub open spec fn perform(self, action: SetupAction, stored: Result<(), sqlx::Error>) -> Disk {
        match action {
            SetupAction::CreateDatabase if stored is Ok => Disk {
                exists: true,
                has_schema: self.has_schema,
            },
            SetupAction::ApplySchema if stored is Ok && self.exists => Disk {
                exists: true,
                has_schema: true,
            },
            _ => self,
        }
    }

    /// Carries the setup through from `step`, where `action` is under way,
    /// against a database that answers each action as `answers` says. Gives the
    /// result of the setup, the file it leaves behind, and the actions that were
    /// carried out on the way, in their order.
    pub open spec fn run(
        self,
        step: SetupStep,
        action: SetupAction,
        answers: spec_fn(SetupAction) -> Result<(), sqlx::Error>,
    ) -> (Result<(), GHDError>, Disk, Seq<SetupAction>)
        decreases step.rank(),
    {
        match step {
            SetupStep::Done(result) => (result, self, Seq::empty()),
            _ => {
                let stored = answers(action);
                let (next, then) = step.advanced(stored);
                let (result, after, rest) = self.perform(action, stored).run(next, then, answers);
                (result, after, seq![action] + rest)
            },
        }
    }
}

/// Setting up a database that exists writes nothing and succeeds, whatever
/// the database would answer.
pub proof fn setup_of_existing_database(
    disk: Disk,
    answers: spec_fn(SetupAction) -> Result<(), sqlx::Error>,
)
    requires
        disk.exists,
    ensures
        ({
            let (step, action) = SetupStep::start(disk.probe());
            disk.run(step, action, answers) == (
                Ok::<(), GHDError>(()),
                disk,
                Seq::<SetupAction>::empty(),
            )
        }),
{
    reveal_with_fuel(Disk::run, 1);
}

/// Setting up a fresh address creates the database and then applies the
/// schema. The setup succeeds where both go through, and then the database
/// exists and holds the schema; it ends with `StorageError` at the first
/// that fails.
pub proof fn setup_of_fresh_address(
    disk: Disk,
    answers: spec_fn(SetupAction) -> Result<(), sqlx::Error>,
)
    requires
        !disk.exists,
    ensures
        ({
            let (step, action) = SetupStep::start(disk.probe());
            let (result, after, actions) = disk.run(step, action, answers);
            let failed = Err::<(), GHDError>(GHDError::StorageError);
            if answers(SetupAction::CreateDatabase) is Err {
                &&& result == failed
                &&& after == disk
                &&& actions == seq![SetupAction::CreateDatabase]
            } else {
                &&& actions == seq![SetupAction::CreateDatabase, SetupAction::ApplySchema]
                &&& after.exists
                &&& if answers(SetupAction::ApplySchema) is Err {
                    result == failed && after.has_schema == disk.has_schema
                } else {
                    result == Ok::<(), GHDError>(()) && after.has_schema
                }
            }
        }),
{
    reveal_with_fuel(Disk::run, 3);
    let (step, action) = SetupStep::start(disk.probe());
    let (result, after, actions) = disk.run(step, action, answers);
    if answers(SetupAction::CreateDatabase) is Err {
        assert(actions =~= seq![SetupAction::CreateDatabase]);
    } else {
        assert(actions =~= seq![SetupAction::CreateDatabase, SetupAction::ApplySchema]);
    }
}

/// Setting up twice is idempotent: after a setup of a fresh address that
/// succeeded, a second setup writes nothing, does not fail, and leaves the
/// database as the first one made it.
pub proof fn setup_twice_is_idempotent(
    disk: Disk,
    first: spec_fn(SetupAction) -> Result<(), sqlx::Error>,
    second: spec_fn(SetupAction) -> Result<(), sqlx::Error>,
)
    requires
        !disk.exists,
        ({
            let (step, action) = SetupStep::start(disk.probe());
            disk.run(step, action, first).0 is Ok
        }),
    ensures
        ({
            let (step, action) = SetupStep::start(disk.probe());
            let made = disk.run(step, action, first).1;
            let (step, action) = SetupStep::start(made.probe());
            &&& made.exists && made.has_schema
            &&& made.run(step, action, second) == (
                Ok::<(), GHDError>(()),
                made,
                Seq::<SetupAction>::empty(),
            )
        }),
{
    setup_of_fresh_address(disk, first);
    let (step, action) = SetupStep::start(disk.probe());
    let made = disk.run(step, action, first).1;
    setup_of_existing_database(made, second);
}

} // verus!
