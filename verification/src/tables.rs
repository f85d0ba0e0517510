//! The tables of the local database that the session rules read and write,
//! as mathematical values: `users` and `tokens`, each keyed by its primary key.
//!
//! The database itself is kept by SQLite. This module states what the two
//! write statements and the two queries of the session manager mean on these
//! tables, as SQLite documents `INSERT OR REPLACE`, `AUTOINCREMENT` and
//! `UNIQUE`, and proves what follows from that meaning.

use vstd::prelude::*;

verus! {

/// One row of `users`.
pub struct UserRow {
    pub id: int,
    pub login: Seq<char>,
    pub name: Seq<char>,
    pub avatar_url: Seq<char>,
}

/// One row of `tokens`. `user_id` is `None` where the column is null.
pub struct TokenRow {
    pub id: int,
    pub token: Seq<char>,
    pub user_id: Option<int>,
}

/// The two tables, with the highest id that `tokens` has ever handed out.
pub struct Tables {
    pub users: Map<int, UserRow>,
    pub tokens: Map<int, TokenRow>,
    pub last_token_id: int,
}

impl Tables {
    /// The tables of a database that was just created.
    pub open spec fn empty() -> Tables {
        Tables { users: Map::empty(), tokens: Map::empty(), last_token_id: 0 }
    }

    /// What the schema enforces: each row sits under its own id, no two users
    /// share a login, no token id exceeds the highest one handed out, and no
    /// two token rows hold the same credential for the same user.
    pub open spec fn wf(self) -> bool {
        &&& forall|k: int| #[trigger] self.users.contains_key(k) ==> self.users[k].id == k
        &&& forall|j: int, k: int|
            #![trigger self.users[j], self.users[k]]
            self.users.contains_key(j) && self.users.contains_key(k) && self.users[j].login
                == self.users[k].login ==> j == k
        &&& forall|k: int| #[trigger]
            self.tokens.contains_key(k) ==> self.tokens[k].id == k && k <= self.last_token_id
        &&& forall|j: int, k: int|
            #![trigger self.tokens[j], self.tokens[k]]
            self.tokens.contains_key(j) && self.tokens.contains_key(k) && self.tokens[j].token
                == self.tokens[k].token && self.tokens[j].user_id is Some && self.tokens[j].user_id
                == self.tokens[k].user_id ==> j == k
    }

    /// The tables after `INSERT OR REPLACE` of `row` into `users`: the rows that
    /// clash with it, by id or by login, are gone, and `row` stands under its id.
    pub open spec fn upsert_user(self, row: UserRow) -> Tables {
        Tables {
            users: Map::new(
                |k: int| k == row.id || (self.users.contains_key(k) && self.users[k].login != row.login),
                |k: int| if k == row.id { row } else { self.users[k] },
            ),
            tokens: self.tokens,
            last_token_id: self.last_token_id,
        }
    }

    /// The row that `insert_token` writes: it gets the next id that was never used.
    pub open spec fn next_token_row(self, token: Seq<char>, user_id: int) -> TokenRow {
        TokenRow { id: self.last_token_id + 1, token, user_id: Some(user_id) }
    }

    /// The tables after `INSERT OR REPLACE` of a credential for a user into
    /// `tokens`: an earlier row with the same credential and user is gone, and
    /// the new row stands under a fresh id, higher than any before.
    pub open spec fn insert_token(self, token: Seq<char>, user_id: int) -> Tables {
        let row = self.next_token_row(token, user_id);
        Tables {
            users: self.users,
            tokens: Map::new(
                |k: int| k == row.id || (self.tokens.contains_key(k) && !(self.tokens[k].token == token
                    && self.tokens[k].user_id == Some(user_id))),
                |k: int| if k == row.id { row } else { self.tokens[k] },
            ),
            last_token_id: row.id,
        }
    }

    /// Whether `k` is the highest id in `tokens`.
    pub open spec fn is_latest(self, k: int) -> bool {
        &&& self.tokens.contains_key(k)
        &&& forall|j: int| #[trigger] self.tokens.contains_key(j) ==> j <= k
    }

    /// The token row with the highest id, if `tokens` has one.
    pub open spec fn latest(self) -> Option<TokenRow> {
        if exists|k: int| self.is_latest(k) {
            Some(self.tokens[choose|k: int| self.is_latest(k)])
        } else {
            None
        }
    }

    /// The active credential: that of the token row with the highest id.
    pub open spec fn active_token(self) -> Option<Seq<char>> {
        match self.latest() {
            Some(row) => Some(row.token),
            None => None,
        }
    }

    /// The current user: the row of `users` that the latest token row points to.
    /// There is none where `tokens` is empty, where the latest row names no
    /// user, or where it names one that `users` does not hold.
    pub open spec fn current_user(self) -> Option<UserRow> {
        match self.latest() {
            Some(TokenRow { user_id: Some(id), .. }) => if self.users.contains_key(id) {
                Some(self.users[id])
            } else {
                None
            },
            _ => None,
        }
    }

    /// The tables after a credential was set for a user: the user row is
    /// upserted, then the credential is inserted for that user.
    pub open spec fn set_token(self, token: Seq<char>, user: UserRow) -> Tables {
        self.upsert_user(user).insert_token(token, user.id)
    }
}

/// A fresh database meets the schema's constraints.
pub proof fn empty_is_wf()
    ensures
        Tables::empty().wf(),
{
}

/// An upsert keeps the schema's constraints, whatever row it writes, and
/// leaves `tokens` alone.
pub proof fn upsert_user_keeps_wf(tables: Tables, row: UserRow)
    requires
        tables.wf(),
    ensures
        tables.upsert_user(row).wf(),
        tables.upsert_user(row).tokens == tables.tokens,
        tables.upsert_user(row).last_token_id == tables.last_token_id,
{
}

/// Inserting a credential keeps the schema's constraints and leaves `users` alone.
pub proof fn insert_token_keeps_wf(tables: Tables, token: Seq<char>, user_id: int)
    requires
        tables.wf(),
    ensures
        tables.insert_token(token, user_id).wf(),
        tables.insert_token(token, user_id).users == tables.users,
{
}

/// After an upsert the table holds exactly one row for the id, and it is the
/// row that was written. Upserting the same id again overwrites every field.
pub proof fn upsert_user_overwrites(tables: Tables, first: UserRow, second: UserRow)
    requires
        tables.wf(),
        first.id == second.id,
    ensures
        ({
            let after = tables.upsert_user(first).upsert_user(second);
            &&& after.users.contains_key(second.id)
            &&& after.users[second.id] == second
            &&& forall|k: int| #[trigger]
                after.users.contains_key(k) && after.users[k].id == second.id ==> k == second.id
        }),
{
    upsert_user_keeps_wf(tables, first);
    upsert_user_keeps_wf(tables.upsert_user(first), second);
}

/// Token ids only grow: the row that an insert writes has an id above every
/// id that was in the table. So it is the latest row, and its credential is
/// the active one.
pub proof fn insert_token_is_latest(tables: Tables, token: Seq<char>, user_id: int)
    requires
        tables.wf(),
    ensures
        forall|k: int| #[trigger]
            tables.tokens.contains_key(k) ==> k < tables.next_token_row(token, user_id).id,
        tables.insert_token(token, user_id).latest() == Some(tables.next_token_row(token, user_id)),
        tables.insert_token(token, user_id).active_token() == Some(token),
{
    let after = tables.insert_token(token, user_id);
    let row = tables.next_token_row(token, user_id);
    assert(after.is_latest(row.id));
    let k = choose|k: int| after.is_latest(k);
    assert(after.tokens.contains_key(row.id));
    assert(k == row.id);
}

/// Token rows are never updated: after an insert, every row but the new one
/// stood in the table before, under the same id and with the same fields.
pub proof fn insert_token_updates_no_row(tables: Tables, token: Seq<char>, user_id: int)
    ensures
        forall|k: int|
            #![trigger tables.insert_token(token, user_id).tokens[k]]
            tables.insert_token(token, user_id).tokens.contains_key(k) && k != tables.last_token_id
                + 1 ==> tables.tokens.contains_key(k) && tables.insert_token(
                token,
                user_id,
            ).tokens[k] == tables.tokens[k],
{
}

/// With no token row there is no active credential and no current user.
pub proof fn no_token_no_session(tables: Tables)
    requires
        forall|k: int| !tables.tokens.contains_key(k),
    ensures
        tables.active_token() is None,
        tables.current_user() is None,
{
}

/// Where the latest token row names no user, or one that `users` does not
/// hold, there is no current user, though there is an active credential.
pub proof fn unlinked_token_no_user(tables: Tables)
    requires
        tables.latest() matches Some(row) && (row.user_id matches Some(id) ==> !tables.users.contains_key(id)),
    ensures
        tables.active_token() is Some,
        tables.current_user() is None,
{
}

/// After a credential was set for a user, it is the active credential and
/// that user, with the fields that were written, is the current user,
/// whatever the tables held before.
pub proof fn set_token_takes_effect(tables: Tables, token: Seq<char>, user: UserRow)
    requires
        tables.wf(),
    ensures
        tables.set_token(token, user).wf(),
        tables.set_token(token, user).active_token() == Some(token),
        tables.set_token(token, user).current_user() == Some(user),
{
    let upserted = tables.upsert_user(user);
    upsert_user_keeps_wf(tables, user);
    insert_token_keeps_wf(upserted, token, user.id);
    insert_token_is_latest(upserted, token, user.id);
    assert(upserted.users.contains_key(user.id));
}

/// Setting a second credential after a first makes the second the active one,
/// for the same user or another.
pub proof fn later_token_wins(
    tables: Tables,
    first: Seq<char>,
    first_user: UserRow,
    second: Seq<char>,
    second_user: UserRow,
)
    requires
        tables.wf(),
    ensures
        tables.set_token(first, first_user).set_token(second, second_user).active_token() == Some(
            second,
        ),
        tables.set_token(first, first_user).set_token(second, second_user).current_user() == Some(
            second_user,
        ),
{
    set_token_takes_effect(tables, first, first_user);
    set_token_takes_effect(tables.set_token(first, first_user), second, second_user);
}

} // verus!
