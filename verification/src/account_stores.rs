//! The statements of the stores of actors, users, guests, sessions and invites. Each
//! method states the SQL it runs and the values it binds; the caller runs the statement
//! and reads the rows. Instants are microseconds since the Unix epoch (UTC).
use crate::credentials::{Email, HashedPassword};
use crate::models::{
    ActorId, GuestCreation, GuestId, GuestUpdate, InviteId, InviteUpdate, SessionCreation,
    SessionId, UserCreation, UserId, UserUpdate,
};
use crate::onboarding::InviteCreation;
use crate::sql::{
    inserts_defaults, defaults_insert_text,
    all_hold, bound_value, cond_holds, cond_text, delete_text, deletes, holds, insert_text,
    inserted_row, inserts, item_text, key_conds, lemma_columns_read_back, lemma_key_conds,
    lemma_ordered_insert, lemma_single_condition, lemma_small_placeholders, list_text, lists,
    looks_up, ordinals, output_row, placeholder, reads_column, row_of, select_text, set_text,
    update_text, updates, with_value, with_values, Cond, DbValue, Item, SetItem,
};
use crate::text::{decimal, joined};
use crate::stores::{
    bound, five, none, nullable_text_param, one, opt_text, text_param, three, two, SqlParam,
    SqlParamView, Statement,
};
use vstd::prelude::*;

verus! {

/// The text of the statement of `SessionStore::create`.
pub open spec fn session_insert_sql() -> Seq<char> {
    "INSERT INTO sessions (user_id, token, user_agent, ip_address, expires_at) VALUES ($1, $2, $3, $4, $5) RETURNING id, user_id, token, user_agent, ip_address, expires_at, created_at, updated_at"@
}

/// The text of the statement of `ActorStore::create`.
pub open spec fn actor_insert_sql() -> Seq<char> {
    "INSERT INTO actors DEFAULT VALUES RETURNING id"@
}

/// The text of the statement of `UserStore::create`.
pub open spec fn user_insert_sql() -> Seq<char> {
    "INSERT INTO users (actor_id, email, password_hash, first_name, last_name) VALUES ($1, $2, $3, $4, $5) RETURNING id, actor_id, email, password_hash, first_name, last_name, created_at, updated_at"@
}

/// The text of the statement of `UserStore::find_by_id`.
pub open spec fn user_by_id_sql() -> Seq<char> {
    "SELECT id, actor_id, email, password_hash, first_name, last_name, created_at, updated_at FROM users WHERE id = $1"@
}

/// The text of the statement of `UserStore::find_by_email`.
pub open spec fn user_by_email_sql() -> Seq<char> {
    "SELECT id, actor_id, email, password_hash, first_name, last_name, created_at, updated_at FROM users WHERE email = $1"@
}

/// The text of the statement of `SessionStore::delete_by_token`.
pub open spec fn session_delete_by_token_sql() -> Seq<char> {
    "DELETE FROM sessions WHERE token = $1"@
}

/// The text of the statement of `SessionStore::find_by_token`.
pub open spec fn session_by_token_sql() -> Seq<char> {
    "SELECT id, user_id, token, user_agent, ip_address, expires_at, created_at, updated_at FROM sessions WHERE token = $1"@
}

/// The text of the statement of `InviteStore::create`.
pub open spec fn invite_insert_sql() -> Seq<char> {
    "INSERT INTO invites (invitor_user_id, email, token, role, expires_at) VALUES ($1, $2, $3, $4, $5) RETURNING id, invitor_user_id, email, token, role, status, expires_at, created_at, updated_at"@
}

/// The text of the statement of `InviteStore::delete_by_id`.
pub open spec fn invite_delete_sql() -> Seq<char> {
    "DELETE FROM invites WHERE id = $1"@
}

/// The text of the statement of `InviteStore::find_by_token`.
pub open spec fn invite_by_token_sql() -> Seq<char> {
    "SELECT id, invitor_user_id, email, token, role, status, expires_at, created_at, updated_at FROM invites WHERE token = $1"@
}

/// The text of the statement of `InviteStore::find_by_email`.
pub open spec fn invite_by_email_sql() -> Seq<char> {
    "SELECT id, invitor_user_id, email, token, role, status, expires_at, created_at, updated_at FROM invites WHERE email = $1"@
}

/// The text of an optional email address.
pub open spec fn opt_email(o: Option<Email>) -> Option<Seq<char>> {
    match o {
        Some(e) => Some(e@),
        None => None,
    }
}

/// The text of an optional password hash.
pub open spec fn opt_hash(o: Option<HashedPassword>) -> Option<Seq<char>> {
    match o {
        Some(h) => Some(h@),
        None => None,
    }
}

fn email_param(e: &Email) -> (p: SqlParam)
    ensures
        p@ == SqlParamView::Text(e@),
{
    SqlParam::Text(String::from_str(e.expose()))
}

fn nullable_email_param(e: &Option<Email>) -> (p: SqlParam)
    ensures
        p@ == SqlParamView::NullableText(opt_email(*e)),
{
    match e {
        Some(e) => SqlParam::NullableText(Some(String::from_str(e.expose()))),
        None => SqlParam::NullableText(None),
    }
}

/// The row that registering `c` stores in `users`: the actor, the address, the password
/// hash and the two names, each in its own column.
pub open spec fn user_row(c: UserCreation) -> Map<Seq<char>, DbValue> {
    Map::<Seq<char>, DbValue>::empty().insert("actor_id"@, DbValue::Uuid(c.actor_id@)).insert(
        "email"@,
        DbValue::Text(c.email@),
    ).insert("password_hash"@, DbValue::Text(c.password@)).insert(
        "first_name"@,
        DbValue::Text(c.first_name@),
    ).insert("last_name"@, DbValue::Text(c.last_name@))
}

/// The values that the user insert binds for `c`, in order.
pub open spec fn user_insert_binds(c: UserCreation) -> Seq<SqlParamView> {
    seq![
        SqlParamView::Uuid(c.actor_id@),
        SqlParamView::Text(c.email@),
        SqlParamView::Text(c.password@),
        SqlParamView::Text(c.first_name@),
        SqlParamView::Text(c.last_name@),
    ]
}

/// The user insert stores each field of the new user in its own column: the first name
/// under `first_name`, the last name under `last_name`, and so on.
pub proof fn lemma_user_insert_stores_each_field(c: UserCreation)
    ensures
        inserts(user_insert_sql(), "users"@, user_insert_binds(c), user_row(c)),
{
    let columns = seq!["actor_id"@, "email"@, "password_hash"@, "first_name"@, "last_name"@];
    let values = seq![1nat, 2nat, 3nat, 4nat, 5nat];
    let rest = " RETURNING id, actor_id, email, password_hash, first_name, last_name, created_at, updated_at"@;
    reveal_strlit("INSERT INTO users (actor_id, email, password_hash, first_name, last_name) VALUES ($1, $2, $3, $4, $5) RETURNING id, actor_id, email, password_hash, first_name, last_name, created_at, updated_at");
    reveal_strlit(" RETURNING id, actor_id, email, password_hash, first_name, last_name, created_at, updated_at");
    reveal_strlit("INSERT INTO ");
    reveal_strlit(" (");
    reveal_strlit(", ");
    reveal_strlit(") VALUES (");
    reveal_strlit(")");
    reveal_strlit("users");
    reveal_strlit("actor_id");
    reveal_strlit("email");
    reveal_strlit("password_hash");
    reveal_strlit("first_name");
    reveal_strlit("last_name");
    reveal_with_fuel(joined, 6);
    let ph = values.map_values(|k: nat| placeholder(k));
    lemma_small_placeholders();
    assert(ph =~= seq![seq!['$', '1'], seq!['$', '2'], seq!['$', '3'], seq!['$', '4'], seq!['$', '5']]);
    assert(user_insert_sql() =~= insert_text("users"@, columns, values, rest));
    assert(columns.no_duplicates()) by {
        assert forall|i: int, j: int| 0 <= i < columns.len() && 0 <= j < columns.len() && i != j
            implies columns[i] != columns[j] by {
            assert(columns[i].len() != columns[j].len() || columns[i][0] != columns[j][0]);
        }
    }
    reveal_with_fuel(inserted_row, 6);
    assert(inserted_row(columns, values, user_insert_binds(c)) =~= user_row(c));
}

/// The values that the invite insert binds for `c` at `now`, in order.
pub open spec fn invite_insert_binds(c: InviteCreation, now: i64) -> Seq<SqlParamView> {
    seq![
        SqlParamView::Uuid(c.invitor@),
        SqlParamView::Text(c.email@),
        SqlParamView::Text(c.token@),
        SqlParamView::Text(c.role@),
        SqlParamView::Timestamp((now + c.expires_in) as i64),
    ]
}

/// The row that storing the invite `c` at `now` puts in `invites`.
pub open spec fn invite_row(c: InviteCreation, now: i64) -> Map<Seq<char>, DbValue> {
    Map::<Seq<char>, DbValue>::empty().insert("invitor_user_id"@, DbValue::Uuid(c.invitor@)).insert(
        "email"@,
        DbValue::Text(c.email@),
    ).insert("token"@, DbValue::Text(c.token@)).insert("role"@, DbValue::Text(c.role@)).insert(
        "expires_at"@,
        DbValue::Timestamp((now + c.expires_in) as i64),
    )
}

/// The columns that looking an invite up returns.
pub open spec fn invite_columns() -> Seq<Seq<char>> {
    seq![
        "id"@,
        "invitor_user_id"@,
        "email"@,
        "token"@,
        "role"@,
        "status"@,
        "expires_at"@,
        "created_at"@,
        "updated_at"@,
    ]
}

/// The rows of a table whose `token` column holds `token`.
pub open spec fn with_token(token: Seq<char>) -> spec_fn(Map<Seq<char>, DbValue>) -> bool {
    |row: Map<Seq<char>, DbValue>| holds(row, "token"@, DbValue::Text(token))
}

/// The invite insert stores each field of the invite in its own column: the address under
/// `email`, the token under `token`, and so on.
pub proof fn lemma_invite_insert_stores_each_field(c: InviteCreation, now: i64)
    ensures
        inserts(invite_insert_sql(), "invites"@, invite_insert_binds(c, now), invite_row(c, now)),
{
    let columns = seq!["invitor_user_id"@, "email"@, "token"@, "role"@, "expires_at"@];
    let values = seq![1nat, 2nat, 3nat, 4nat, 5nat];
    let rest = " RETURNING id, invitor_user_id, email, token, role, status, expires_at, created_at, updated_at"@;
    reveal_strlit("INSERT INTO invites (invitor_user_id, email, token, role, expires_at) VALUES ($1, $2, $3, $4, $5) RETURNING id, invitor_user_id, email, token, role, status, expires_at, created_at, updated_at");
    reveal_strlit(" RETURNING id, invitor_user_id, email, token, role, status, expires_at, created_at, updated_at");
    reveal_strlit("INSERT INTO ");
    reveal_strlit(" (");
    reveal_strlit(", ");
    reveal_strlit(") VALUES (");
    reveal_strlit(")");
    reveal_strlit("invites");
    reveal_strlit("invitor_user_id");
    reveal_strlit("email");
    reveal_strlit("token");
    reveal_strlit("role");
    reveal_strlit("expires_at");
    reveal_with_fuel(joined, 6);
    lemma_small_placeholders();
    assert(values.map_values(|k: nat| placeholder(k)) =~= seq![
        seq!['$', '1'],
        seq!['$', '2'],
        seq!['$', '3'],
        seq!['$', '4'],
        seq!['$', '5'],
    ]);
    assert(invite_insert_sql() =~= insert_text("invites"@, columns, values, rest));
    assert(columns.no_duplicates()) by {
        assert forall|i: int, j: int| 0 <= i < columns.len() && 0 <= j < columns.len() && i != j
            implies columns[i] != columns[j] by {
            assert(columns[i].len() != columns[j].len() || columns[i][0] != columns[j][0]);
        }
    }
    reveal_with_fuel(inserted_row, 6);
    assert(inserted_row(columns, values, invite_insert_binds(c, now)) =~= invite_row(c, now));
}

/// Looking an invite up by a token selects exactly the invites with that token, and returns
/// each of their columns as stored.
pub proof fn lemma_invite_lookup_by_token(token: Seq<char>)
    ensures
        looks_up(
            invite_by_token_sql(),
            "invites"@,
            seq![SqlParamView::Text(token)],
            with_token(token),
            invite_columns(),
        ),
{
    let names = invite_columns();
    reveal_strlit("SELECT id, invitor_user_id, email, token, role, status, expires_at, created_at, updated_at FROM invites WHERE token = $1");
    reveal_strlit("SELECT ");
    reveal_strlit(" FROM ");
    reveal_strlit(" WHERE ");
    reveal_strlit(" AND ");
    reveal_strlit(" = ");
    reveal_strlit(", ");
    reveal_strlit("invites");
    reveal_strlit("id");
    reveal_strlit("invitor_user_id");
    reveal_strlit("email");
    reveal_strlit("token");
    reveal_strlit("role");
    reveal_strlit("status");
    reveal_strlit("expires_at");
    reveal_strlit("created_at");
    reveal_strlit("updated_at");
    lemma_small_placeholders();
    let items = names.map_values(|n: Seq<char>| Item::Column(n));
    let conds = seq![Cond::Eq("token"@, 1)];
    assert(names.no_duplicates()) by {
        assert forall|i: int, j: int| 0 <= i < names.len() && 0 <= j < names.len() && i != j
            implies names[i] != names[j] by {
            assert(names[i].len() != names[j].len() || names[i][0] != names[j][0] || names[i][1] != names[j][1]);
        }
    }
    lemma_columns_read_back(items, names);
    reveal_with_fuel(joined, 10);
    assert(items.map_values(|i: Item| item_text(i)) =~= names);
    assert(conds.map_values(|c: Cond| cond_text(c)) =~= seq![cond_text(conds[0])]);
    assert(invite_by_token_sql() =~= select_text(items, "invites"@, conds));
    lemma_token_condition(token, conds);
}

/// The condition `token = $1`, bound to `token`, selects exactly the rows with that token.
proof fn lemma_token_condition(token: Seq<char>, conds: Seq<Cond>)
    requires
        conds == seq![Cond::Eq("token"@, 1)],
    ensures
        forall|row: Map<Seq<char>, DbValue>| #[trigger]
            all_hold(conds, seq![SqlParamView::Text(token)], row) <==> with_token(token)(row),
{
    assert forall|row: Map<Seq<char>, DbValue>| #[trigger]
        all_hold(conds, seq![SqlParamView::Text(token)], row) <==> with_token(token)(row) by {
        if all_hold(conds, seq![SqlParamView::Text(token)], row) {
            assert(cond_holds(conds[0], seq![SqlParamView::Text(token)], row));
        }
    }
}

/// An invite stored with its token is found again by that token: the lookup with the
/// mailed token selects the stored row and reads back its address and token.
pub proof fn lemma_stored_invite_found_by_its_token(c: InviteCreation, now: i64)
    ensures
        inserts(invite_insert_sql(), "invites"@, invite_insert_binds(c, now), invite_row(c, now)),
        looks_up(
            invite_by_token_sql(),
            "invites"@,
            seq![SqlParamView::Text(c.token@)],
            with_token(c.token@),
            invite_columns(),
        ),
        with_token(c.token@)(invite_row(c, now)),
        holds(invite_row(c, now), "email"@, DbValue::Text(c.email@)),
{
    lemma_invite_insert_stores_each_field(c, now);
    lemma_invite_lookup_by_token(c.token@);
    reveal_strlit("token");
    reveal_strlit("email");
    reveal_strlit("expires_at");
    reveal_strlit("role");
    reveal_strlit("invitor_user_id");
    assert("email"@[0] != "token"@[0] && "email"@[0] != "role"@[0]);
    assert("email"@.len() != "expires_at"@.len());
    assert("email"@ != "token"@ && "email"@ != "role"@ && "email"@ != "expires_at"@);
    assert("token"@ != "role"@ && "token"@ != "expires_at"@);
    assert(invite_row(c, now).dom().contains("token"@));
}

/// The values that the session insert binds for `c` at `now`, in order.
pub open spec fn session_insert_binds(c: SessionCreation, now: i64) -> Seq<SqlParamView> {
    seq![
        SqlParamView::Uuid(c.user_id@),
        SqlParamView::Text(c.token@),
        SqlParamView::NullableText(opt_text(c.user_agent)),
        SqlParamView::NullableText(opt_text(c.ip_address)),
        SqlParamView::Timestamp((now + c.expires_in) as i64),
    ]
}

/// The row that creating the session `c` at `now` puts in `sessions`; it expires
/// `expires_in` after `now`.
pub open spec fn session_row(c: SessionCreation, now: i64) -> Map<Seq<char>, DbValue> {
    Map::<Seq<char>, DbValue>::empty().insert("user_id"@, DbValue::Uuid(c.user_id@)).insert(
        "token"@,
        DbValue::Text(c.token@),
    ).insert(
        "user_agent"@,
        bound_value(SqlParamView::NullableText(opt_text(c.user_agent))),
    ).insert("ip_address"@, bound_value(SqlParamView::NullableText(opt_text(c.ip_address)))).insert(
        "expires_at"@,
        DbValue::Timestamp((now + c.expires_in) as i64),
    )
}

/// The columns that looking a session up returns.
pub open spec fn session_columns() -> Seq<Seq<char>> {
    seq![
        "id"@,
        "user_id"@,
        "token"@,
        "user_agent"@,
        "ip_address"@,
        "expires_at"@,
        "created_at"@,
        "updated_at"@,
    ]
}

/// The session insert stores each field of the session in its own column, its expiry
/// (`now + expires_in`) under `expires_at`.
pub proof fn lemma_session_insert_stores_each_field(c: SessionCreation, now: i64)
    ensures
        inserts(session_insert_sql(), "sessions"@, session_insert_binds(c, now), session_row(c, now)),
{
    let columns = seq!["user_id"@, "token"@, "user_agent"@, "ip_address"@, "expires_at"@];
    let values = seq![1nat, 2nat, 3nat, 4nat, 5nat];
    let rest = " RETURNING id, user_id, token, user_agent, ip_address, expires_at, created_at, updated_at"@;
    reveal_strlit("INSERT INTO sessions (user_id, token, user_agent, ip_address, expires_at) VALUES ($1, $2, $3, $4, $5) RETURNING id, user_id, token, user_agent, ip_address, expires_at, created_at, updated_at");
    reveal_strlit(" RETURNING id, user_id, token, user_agent, ip_address, expires_at, created_at, updated_at");
    reveal_strlit("INSERT INTO ");
    reveal_strlit(" (");
    reveal_strlit(", ");
    reveal_strlit(") VALUES (");
    reveal_strlit(")");
    reveal_strlit("sessions");
    reveal_strlit("user_id");
    reveal_strlit("token");
    reveal_strlit("user_agent");
    reveal_strlit("ip_address");
    reveal_strlit("expires_at");
    reveal_with_fuel(joined, 6);
    lemma_small_placeholders();
    assert(values.map_values(|k: nat| placeholder(k)) =~= seq![
        seq!['$', '1'],
        seq!['$', '2'],
        seq!['$', '3'],
        seq!['$', '4'],
        seq!['$', '5'],
    ]);
    assert(session_insert_sql() =~= insert_text("sessions"@, columns, values, rest));
    assert(columns.no_duplicates()) by {
        assert forall|i: int, j: int| 0 <= i < columns.len() && 0 <= j < columns.len() && i != j
            implies columns[i] != columns[j] by {
            assert(columns[i].len() != columns[j].len() || columns[i][0] != columns[j][0]);
        }
    }
    reveal_with_fuel(inserted_row, 6);
    assert(inserted_row(columns, values, session_insert_binds(c, now)) =~= session_row(c, now));
}

/// Looking a session up by a token selects exactly the sessions with that token, and
/// returns each of their columns as stored: its expiry is the stored `expires_at`.
pub proof fn lemma_session_lookup_by_token(token: Seq<char>)
    ensures
        looks_up(
            session_by_token_sql(),
            "sessions"@,
            seq![SqlParamView::Text(token)],
            with_token(token),
            session_columns(),
        ),
{
    let names = session_columns();
    reveal_strlit("SELECT id, user_id, token, user_agent, ip_address, expires_at, created_at, updated_at FROM sessions WHERE token = $1");
    reveal_strlit("SELECT ");
    reveal_strlit(" FROM ");
    reveal_strlit(" WHERE ");
    reveal_strlit(" AND ");
    reveal_strlit(" = ");
    reveal_strlit(", ");
    reveal_strlit("sessions");
    reveal_strlit("id");
    reveal_strlit("user_id");
    reveal_strlit("token");
    reveal_strlit("user_agent");
    reveal_strlit("ip_address");
    reveal_strlit("expires_at");
    reveal_strlit("created_at");
    reveal_strlit("updated_at");
    lemma_small_placeholders();
    let items = names.map_values(|n: Seq<char>| Item::Column(n));
    let conds = seq![Cond::Eq("token"@, 1)];
    assert(names.no_duplicates()) by {
        assert forall|i: int, j: int| 0 <= i < names.len() && 0 <= j < names.len() && i != j
            implies names[i] != names[j] by {
            assert(names[i].len() != names[j].len() || names[i][0] != names[j][0] || names[i][1] != names[j][1]);
        }
    }
    lemma_columns_read_back(items, names);
    reveal_with_fuel(joined, 10);
    assert(items.map_values(|i: Item| item_text(i)) =~= names);
    assert(conds.map_values(|c: Cond| cond_text(c)) =~= seq![cond_text(conds[0])]);
    assert(session_by_token_sql() =~= select_text(items, "sessions"@, conds));
    lemma_token_condition(token, conds);
}

/// A session created at `now` is found again by its token, and its expiry reads back as
/// the one stored: `now + expires_in`.
pub proof fn lemma_session_expiry_reads_back(c: SessionCreation, now: i64)
    ensures
        inserts(session_insert_sql(), "sessions"@, session_insert_binds(c, now), session_row(c, now)),
        looks_up(
            session_by_token_sql(),
            "sessions"@,
            seq![SqlParamView::Text(c.token@)],
            with_token(c.token@),
            session_columns(),
        ),
        with_token(c.token@)(session_row(c, now)),
        holds(session_row(c, now), "expires_at"@, DbValue::Timestamp((now + c.expires_in) as i64)),
{
    lemma_session_insert_stores_each_field(c, now);
    lemma_session_lookup_by_token(c.token@);
    reveal_strlit("token");
    reveal_strlit("user_agent");
    reveal_strlit("ip_address");
    reveal_strlit("expires_at");
    assert("token"@.len() != "user_agent"@.len() && "token"@.len() != "ip_address"@.len());
    assert("token"@.len() != "expires_at"@.len());
    assert(session_row(c, now).dom().contains("token"@));
}

/// The columns that looking a user up returns.
pub open spec fn user_columns() -> Seq<Seq<char>> {
    seq!["id"@, "actor_id"@, "email"@, "password_hash"@, "first_name"@, "last_name"@, "created_at"@, "updated_at"@]
}

/// Looking a user up by an address selects exactly the users with that address, and
/// returns each of their columns as stored.
pub proof fn lemma_user_lookup_by_email(email: Seq<char>)
    ensures
        looks_up(
            user_by_email_sql(),
            "users"@,
            seq![SqlParamView::Text(email)],
            with_value("email"@, bound_value(SqlParamView::Text(email))),
            user_columns(),
        ),
{
    let names = user_columns();
    reveal_strlit("SELECT id, actor_id, email, password_hash, first_name, last_name, created_at, updated_at FROM users WHERE email = $1");
    reveal_strlit("SELECT ");
    reveal_strlit(" FROM ");
    reveal_strlit(" WHERE ");
    reveal_strlit(" AND ");
    reveal_strlit(" = ");
    reveal_strlit(", ");
    reveal_strlit("users");
    reveal_strlit("email");
    reveal_strlit("id");
    reveal_strlit("actor_id");
    reveal_strlit("password_hash");
    reveal_strlit("first_name");
    reveal_strlit("last_name");
    reveal_strlit("created_at");
    reveal_strlit("updated_at");
    lemma_small_placeholders();
    let items = names.map_values(|n: Seq<char>| Item::Column(n));
    let conds = seq![Cond::Eq("email"@, 1)];
    assert(names.no_duplicates()) by {
        assert forall|i: int, j: int| 0 <= i < names.len() && 0 <= j < names.len() && i != j
            implies names[i] != names[j] by {
            assert(names[i].len() != names[j].len() || names[i][0] != names[j][0] || names[i][1]
                != names[j][1]);
        }
    }
    lemma_columns_read_back(items, names);
    reveal_with_fuel(joined, 10);
    assert(items.map_values(|i: Item| item_text(i)) =~= names);
    assert(conds.map_values(|c: Cond| cond_text(c)) =~= seq![cond_text(conds[0])]);
    assert(user_by_email_sql() =~= select_text(items, "users"@, conds));
    lemma_single_condition("email"@, SqlParamView::Text(email));
}

/// Looking a user up by an id selects exactly the user with that id, and returns each of
/// its columns as stored.
pub proof fn lemma_user_lookup_by_id(id: u128)
    ensures
        looks_up(
            user_by_id_sql(),
            "users"@,
            seq![SqlParamView::Uuid(id)],
            with_value("id"@, bound_value(SqlParamView::Uuid(id))),
            user_columns(),
        ),
{
    let names = user_columns();
    reveal_strlit("SELECT id, actor_id, email, password_hash, first_name, last_name, created_at, updated_at FROM users WHERE id = $1");
    reveal_strlit("SELECT ");
    reveal_strlit(" FROM ");
    reveal_strlit(" WHERE ");
    reveal_strlit(" AND ");
    reveal_strlit(" = ");
    reveal_strlit(", ");
    reveal_strlit("users");
    reveal_strlit("id");
    reveal_strlit("actor_id");
    reveal_strlit("email");
    reveal_strlit("password_hash");
    reveal_strlit("first_name");
    reveal_strlit("last_name");
    reveal_strlit("created_at");
    reveal_strlit("updated_at");
    lemma_small_placeholders();
    let items = names.map_values(|n: Seq<char>| Item::Column(n));
    let conds = seq![Cond::Eq("id"@, 1)];
    assert(names.no_duplicates()) by {
        assert forall|i: int, j: int| 0 <= i < names.len() && 0 <= j < names.len() && i != j
            implies names[i] != names[j] by {
            assert(names[i].len() != names[j].len() || names[i][0] != names[j][0] || names[i][1]
                != names[j][1]);
        }
    }
    lemma_columns_read_back(items, names);
    reveal_with_fuel(joined, 10);
    assert(items.map_values(|i: Item| item_text(i)) =~= names);
    assert(conds.map_values(|c: Cond| cond_text(c)) =~= seq![cond_text(conds[0])]);
    assert(user_by_id_sql() =~= select_text(items, "users"@, conds));
    lemma_single_condition("id"@, SqlParamView::Uuid(id));
}

/// Looking an invite up by an address selects exactly the invites sent to it, and returns
/// each of their columns as stored.
pub proof fn lemma_invite_lookup_by_email(email: Seq<char>)
    ensures
        looks_up(
            invite_by_email_sql(),
            "invites"@,
            seq![SqlParamView::Text(email)],
            with_value("email"@, bound_value(SqlParamView::Text(email))),
            invite_columns(),
        ),
{
    let names = invite_columns();
    reveal_strlit("SELECT id, invitor_user_id, email, token, role, status, expires_at, created_at, updated_at FROM invites WHERE email = $1");
    reveal_strlit("SELECT ");
    reveal_strlit(" FROM ");
    reveal_strlit(" WHERE ");
    reveal_strlit(" AND ");
    reveal_strlit(" = ");
    reveal_strlit(", ");
    reveal_strlit("invites");
    reveal_strlit("email");
    reveal_strlit("id");
    reveal_strlit("invitor_user_id");
    reveal_strlit("token");
    reveal_strlit("role");
    reveal_strlit("status");
    reveal_strlit("expires_at");
    reveal_strlit("created_at");
    reveal_strlit("updated_at");
    lemma_small_placeholders();
    let items = names.map_values(|n: Seq<char>| Item::Column(n));
    let conds = seq![Cond::Eq("email"@, 1)];
    assert(names.no_duplicates()) by {
        assert forall|i: int, j: int| 0 <= i < names.len() && 0 <= j < names.len() && i != j
            implies names[i] != names[j] by {
            assert(names[i].len() != names[j].len() || names[i][0] != names[j][0] || names[i][1]
                != names[j][1]);
        }
    }
    lemma_columns_read_back(items, names);
    reveal_with_fuel(joined, 10);
    assert(items.map_values(|i: Item| item_text(i)) =~= names);
    assert(conds.map_values(|c: Cond| cond_text(c)) =~= seq![cond_text(conds[0])]);
    assert(invite_by_email_sql() =~= select_text(items, "invites"@, conds));
    lemma_single_condition("email"@, SqlParamView::Text(email));
}

/// Deleting an invite by an id deletes exactly the invite with that id.
pub proof fn lemma_invite_delete_by_id(id: u128)
    ensures
        deletes(invite_delete_sql(), "invites"@, seq![SqlParamView::Uuid(id)], with_value("id"@, bound_value(SqlParamView::Uuid(id)))),
{
    reveal_strlit("DELETE FROM invites WHERE id = $1");
    reveal_strlit("DELETE FROM ");
    reveal_strlit(" WHERE ");
    reveal_strlit(" AND ");
    reveal_strlit(" = ");
    reveal_strlit("invites");
    reveal_strlit("id");
    lemma_small_placeholders();
    let conds = seq![Cond::Eq("id"@, 1)];
    reveal_with_fuel(joined, 2);
    assert(conds.map_values(|c: Cond| cond_text(c)) =~= seq![cond_text(conds[0])]);
    assert(invite_delete_sql() =~= delete_text("invites"@, conds));
    lemma_single_condition("id"@, SqlParamView::Uuid(id));
}

/// Deleting a session by a token deletes exactly the sessions with that token.
pub proof fn lemma_session_delete_by_token(token: Seq<char>)
    ensures
        deletes(session_delete_by_token_sql(), "sessions"@, seq![SqlParamView::Text(token)], with_value("token"@, bound_value(SqlParamView::Text(token)))),
{
    reveal_strlit("DELETE FROM sessions WHERE token = $1");
    reveal_strlit("DELETE FROM ");
    reveal_strlit(" WHERE ");
    reveal_strlit(" AND ");
    reveal_strlit(" = ");
    reveal_strlit("sessions");
    reveal_strlit("token");
    lemma_small_placeholders();
    let conds = seq![Cond::Eq("token"@, 1)];
    reveal_with_fuel(joined, 2);
    assert(conds.map_values(|c: Cond| cond_text(c)) =~= seq![cond_text(conds[0])]);
    assert(session_delete_by_token_sql() =~= delete_text("sessions"@, conds));
    lemma_single_condition("token"@, SqlParamView::Text(token));
}

/// The text of the statement of `ActorStore::find_by_id`.
pub open spec fn actor_store_find_by_id_sql() -> Seq<char> {
    "SELECT id, created_at, updated_at FROM actors WHERE id = $1"@
}

/// The statement of `ActorStore::find_by_id` selects from `actors` exactly the rows whose
/// `id` hold the bound values, and returns each of their columns as stored.
pub proof fn lemma_actor_store_find_by_id(binds: Seq<SqlParamView>)
    requires
        binds.len() == 1,
    ensures
        looks_up(actor_store_find_by_id_sql(), "actors"@, binds, with_values(seq!["id"@], binds), seq!["id"@, "created_at"@, "updated_at"@]),
{
    let names = seq!["id"@, "created_at"@, "updated_at"@];
    let keys = seq!["id"@];
    reveal_strlit("SELECT id, created_at, updated_at FROM actors WHERE id = $1");
    reveal_strlit("SELECT ");
    reveal_strlit(" FROM ");
    reveal_strlit(" WHERE ");
    reveal_strlit(" AND ");
    reveal_strlit(" = ");
    reveal_strlit(", ");
    reveal_strlit("actors");
    reveal_strlit("id");
    reveal_strlit("created_at");
    reveal_strlit("updated_at");
    lemma_small_placeholders();
    let items = names.map_values(|n: Seq<char>| Item::Column(n));
    let conds = key_conds(keys);
    assert(names.no_duplicates()) by {
        assert forall|i: int, j: int| 0 <= i < names.len() && 0 <= j < names.len() && i != j
            implies names[i] != names[j] by {
            assert(names[i].len() != names[j].len() || names[i][0] != names[j][0]);
        }
    }
    lemma_columns_read_back(items, names);
    reveal_with_fuel(joined, 4);
    assert(items.map_values(|i: Item| item_text(i)) =~= names);
    assert(conds =~= seq![Cond::Eq("id"@, 1)]);
    assert(conds.map_values(|c: Cond| cond_text(c)) =~= seq![cond_text(conds[0])]);
    assert(actor_store_find_by_id_sql() =~= select_text(items, "actors"@, conds));
    lemma_key_conds(keys, binds);
}

/// The text of the statement of `UserStore::find_by_actor_id`.
pub open spec fn user_store_find_by_actor_id_sql() -> Seq<char> {
    "SELECT id, actor_id, email, password_hash, first_name, last_name, created_at, updated_at FROM users WHERE actor_id = $1"@
}

/// The statement of `UserStore::find_by_actor_id` selects from `users` exactly the rows whose
/// `actor_id` hold the bound values, and returns each of their columns as stored.
pub proof fn lemma_user_store_find_by_actor_id(binds: Seq<SqlParamView>)
    requires
        binds.len() == 1,
    ensures
        looks_up(user_store_find_by_actor_id_sql(), "users"@, binds, with_values(seq!["actor_id"@], binds), seq!["id"@, "actor_id"@, "email"@, "password_hash"@, "first_name"@, "last_name"@, "created_at"@, "updated_at"@]),
{
    let names = seq!["id"@, "actor_id"@, "email"@, "password_hash"@, "first_name"@, "last_name"@, "created_at"@, "updated_at"@];
    let keys = seq!["actor_id"@];
    reveal_strlit("SELECT id, actor_id, email, password_hash, first_name, last_name, created_at, updated_at FROM users WHERE actor_id = $1");
    reveal_strlit("SELECT ");
    reveal_strlit(" FROM ");
    reveal_strlit(" WHERE ");
    reveal_strlit(" AND ");
    reveal_strlit(" = ");
    reveal_strlit(", ");
    reveal_strlit("users");
    reveal_strlit("id");
    reveal_strlit("actor_id");
    reveal_strlit("email");
    reveal_strlit("password_hash");
    reveal_strlit("first_name");
    reveal_strlit("last_name");
    reveal_strlit("created_at");
    reveal_strlit("updated_at");
    lemma_small_placeholders();
    let items = names.map_values(|n: Seq<char>| Item::Column(n));
    let conds = key_conds(keys);
    assert(names.no_duplicates()) by {
        assert forall|i: int, j: int| 0 <= i < names.len() && 0 <= j < names.len() && i != j
            implies names[i] != names[j] by {
            assert(names[i].len() != names[j].len() || names[i][0] != names[j][0]);
        }
    }
    lemma_columns_read_back(items, names);
    reveal_with_fuel(joined, 9);
    assert(items.map_values(|i: Item| item_text(i)) =~= names);
    assert(conds =~= seq![Cond::Eq("actor_id"@, 1)]);
    assert(conds.map_values(|c: Cond| cond_text(c)) =~= seq![cond_text(conds[0])]);
    assert(user_store_find_by_actor_id_sql() =~= select_text(items, "users"@, conds));
    lemma_key_conds(keys, binds);
}

/// The text of the statement of `GuestStore::create`.
pub open spec fn guest_store_create_sql() -> Seq<char> {
    "INSERT INTO guests (actor_id, email, verified) VALUES ($1, $2, $3) RETURNING id, actor_id, email, verified, created_at, updated_at"@
}

/// The statement of `GuestStore::create` inserts into `guests` one row in which each of its
/// columns holds its own bound value, in the order `actor_id, email, verified`.
pub proof fn lemma_guest_store_create(binds: Seq<SqlParamView>)
    requires
        binds.len() == 3,
    ensures
        inserts(guest_store_create_sql(), "guests"@, binds, row_of(seq!["actor_id"@, "email"@, "verified"@], binds)),
{
    let columns = seq!["actor_id"@, "email"@, "verified"@];
    reveal_strlit("INSERT INTO guests (actor_id, email, verified) VALUES ($1, $2, $3) RETURNING id, actor_id, email, verified, created_at, updated_at");
    reveal_strlit("INSERT INTO ");
    reveal_strlit(" (");
    reveal_strlit(", ");
    reveal_strlit(") VALUES (");
    reveal_strlit(")");
    reveal_strlit("guests");
    reveal_strlit("actor_id");
    reveal_strlit("email");
    reveal_strlit("verified");
    reveal_strlit(" RETURNING id, actor_id, email, verified, created_at, updated_at");
    reveal_with_fuel(joined, 4);
    lemma_small_placeholders();
    assert(ordinals(3) =~= seq![1nat, 2nat, 3nat]);
    assert(ordinals(3).map_values(|k: nat| placeholder(k)) =~= seq![seq!['$', '1'], seq!['$', '2'], seq!['$', '3']]);
    assert(guest_store_create_sql() =~= insert_text("guests"@, columns, ordinals(3), " RETURNING id, actor_id, email, verified, created_at, updated_at"@));
    assert(columns.no_duplicates()) by {
        assert forall|i: int, j: int| 0 <= i < columns.len() && 0 <= j < columns.len() && i != j
            implies columns[i] != columns[j] by {
            assert(columns[i].len() != columns[j].len() || columns[i][0] != columns[j][0]);
        }
    }
    lemma_ordered_insert(columns, binds);
}

/// The text of the statement of `GuestStore::find_by_id`.
pub open spec fn guest_store_find_by_id_sql() -> Seq<char> {
    "SELECT id, actor_id, email, verified, created_at, updated_at FROM guests WHERE id = $1"@
}

/// The statement of `GuestStore::find_by_id` selects from `guests` exactly the rows whose
/// `id` hold the bound values, and returns each of their columns as stored.
pub proof fn lemma_guest_store_find_by_id(binds: Seq<SqlParamView>)
    requires
        binds.len() == 1,
    ensures
        looks_up(guest_store_find_by_id_sql(), "guests"@, binds, with_values(seq!["id"@], binds), seq!["id"@, "actor_id"@, "email"@, "verified"@, "created_at"@, "updated_at"@]),
{
    let names = seq!["id"@, "actor_id"@, "email"@, "verified"@, "created_at"@, "updated_at"@];
    let keys = seq!["id"@];
    reveal_strlit("SELECT id, actor_id, email, verified, created_at, updated_at FROM guests WHERE id = $1");
    reveal_strlit("SELECT ");
    reveal_strlit(" FROM ");
    reveal_strlit(" WHERE ");
    reveal_strlit(" AND ");
    reveal_strlit(" = ");
    reveal_strlit(", ");
    reveal_strlit("guests");
    reveal_strlit("id");
    reveal_strlit("actor_id");
    reveal_strlit("email");
    reveal_strlit("verified");
    reveal_strlit("created_at");
    reveal_strlit("updated_at");
    lemma_small_placeholders();
    let items = names.map_values(|n: Seq<char>| Item::Column(n));
    let conds = key_conds(keys);
    assert(names.no_duplicates()) by {
        assert forall|i: int, j: int| 0 <= i < names.len() && 0 <= j < names.len() && i != j
            implies names[i] != names[j] by {
            assert(names[i].len() != names[j].len() || names[i][0] != names[j][0]);
        }
    }
    lemma_columns_read_back(items, names);
    reveal_with_fuel(joined, 7);
    assert(items.map_values(|i: Item| item_text(i)) =~= names);
    assert(conds =~= seq![Cond::Eq("id"@, 1)]);
    assert(conds.map_values(|c: Cond| cond_text(c)) =~= seq![cond_text(conds[0])]);
    assert(guest_store_find_by_id_sql() =~= select_text(items, "guests"@, conds));
    lemma_key_conds(keys, binds);
}

/// The text of the statement of `GuestStore::find_by_actor_id`.
pub open spec fn guest_store_find_by_actor_id_sql() -> Seq<char> {
    "SELECT id, actor_id, email, verified, created_at, updated_at FROM guests WHERE actor_id = $1"@
}

/// The statement of `GuestStore::find_by_actor_id` selects from `guests` exactly the rows whose
/// `actor_id` hold the bound values, and returns each of their columns as stored.
pub proof fn lemma_guest_store_find_by_actor_id(binds: Seq<SqlParamView>)
    requires
        binds.len() == 1,
    ensures
        looks_up(guest_store_find_by_actor_id_sql(), "guests"@, binds, with_values(seq!["actor_id"@], binds), seq!["id"@, "actor_id"@, "email"@, "verified"@, "created_at"@, "updated_at"@]),
{
    let names = seq!["id"@, "actor_id"@, "email"@, "verified"@, "created_at"@, "updated_at"@];
    let keys = seq!["actor_id"@];
    reveal_strlit("SELECT id, actor_id, email, verified, created_at, updated_at FROM guests WHERE actor_id = $1");
    reveal_strlit("SELECT ");
    reveal_strlit(" FROM ");
    reveal_strlit(" WHERE ");
    reveal_strlit(" AND ");
    reveal_strlit(" = ");
    reveal_strlit(", ");
    reveal_strlit("guests");
    reveal_strlit("id");
    reveal_strlit("actor_id");
    reveal_strlit("email");
    reveal_strlit("verified");
    reveal_strlit("created_at");
    reveal_strlit("updated_at");
    lemma_small_placeholders();
    let items = names.map_values(|n: Seq<char>| Item::Column(n));
    let conds = key_conds(keys);
    assert(names.no_duplicates()) by {
        assert forall|i: int, j: int| 0 <= i < names.len() && 0 <= j < names.len() && i != j
            implies names[i] != names[j] by {
            assert(names[i].len() != names[j].len() || names[i][0] != names[j][0]);
        }
    }
    lemma_columns_read_back(items, names);
    reveal_with_fuel(joined, 7);
    assert(items.map_values(|i: Item| item_text(i)) =~= names);
    assert(conds =~= seq![Cond::Eq("actor_id"@, 1)]);
    assert(conds.map_values(|c: Cond| cond_text(c)) =~= seq![cond_text(conds[0])]);
    assert(guest_store_find_by_actor_id_sql() =~= select_text(items, "guests"@, conds));
    lemma_key_conds(keys, binds);
}

/// The text of the statement of `SessionStore::delete_by_id`.
pub open spec fn session_store_delete_by_id_sql() -> Seq<char> {
    "DELETE FROM sessions WHERE id = $1"@
}

/// The statement of `SessionStore::delete_by_id` deletes from `sessions` exactly the rows whose
/// `id` hold the bound values.
pub proof fn lemma_session_store_delete_by_id(binds: Seq<SqlParamView>)
    requires
        binds.len() == 1,
    ensures
        deletes(session_store_delete_by_id_sql(), "sessions"@, binds, with_values(seq!["id"@], binds)),
{
    let keys = seq!["id"@];
    reveal_strlit("DELETE FROM sessions WHERE id = $1");
    reveal_strlit("DELETE FROM ");
    reveal_strlit(" WHERE ");
    reveal_strlit(" AND ");
    reveal_strlit(" = ");
    reveal_strlit("sessions");
    reveal_strlit("id");
    lemma_small_placeholders();
    let conds = key_conds(keys);
    reveal_with_fuel(joined, 2);
    assert(conds =~= seq![Cond::Eq("id"@, 1)]);
    assert(conds.map_values(|c: Cond| cond_text(c)) =~= seq![cond_text(conds[0])]);
    assert(session_store_delete_by_id_sql() =~= delete_text("sessions"@, conds));
    lemma_key_conds(keys, binds);
}

/// The text of the statement of `SessionStore::list_by_user_id`.
pub open spec fn session_store_list_by_user_id_sql() -> Seq<char> {
    "SELECT id, user_id, token, user_agent, ip_address, expires_at, created_at, updated_at FROM sessions WHERE user_id = $1"@
}

/// The statement of `SessionStore::list_by_user_id` selects from `sessions` exactly the rows whose
/// `user_id` hold the bound values, and returns each of their columns as stored.
pub proof fn lemma_session_store_list_by_user_id(binds: Seq<SqlParamView>)
    requires
        binds.len() == 1,
    ensures
        looks_up(session_store_list_by_user_id_sql(), "sessions"@, binds, with_values(seq!["user_id"@], binds), seq!["id"@, "user_id"@, "token"@, "user_agent"@, "ip_address"@, "expires_at"@, "created_at"@, "updated_at"@]),
{
    let names = seq!["id"@, "user_id"@, "token"@, "user_agent"@, "ip_address"@, "expires_at"@, "created_at"@, "updated_at"@];
    let keys = seq!["user_id"@];
    reveal_strlit("SELECT id, user_id, token, user_agent, ip_address, expires_at, created_at, updated_at FROM sessions WHERE user_id = $1");
    reveal_strlit("SELECT ");
    reveal_strlit(" FROM ");
    reveal_strlit(" WHERE ");
    reveal_strlit(" AND ");
    reveal_strlit(" = ");
    reveal_strlit(", ");
    reveal_strlit("sessions");
    reveal_strlit("id");
    reveal_strlit("user_id");
    reveal_strlit("token");
    reveal_strlit("user_agent");
    reveal_strlit("ip_address");
    reveal_strlit("expires_at");
    reveal_strlit("created_at");
    reveal_strlit("updated_at");
    lemma_small_placeholders();
    let items = names.map_values(|n: Seq<char>| Item::Column(n));
    let conds = key_conds(keys);
    assert(names.no_duplicates()) by {
        assert forall|i: int, j: int| 0 <= i < names.len() && 0 <= j < names.len() && i != j
            implies names[i] != names[j] by {
            assert(names[i].len() != names[j].len() || names[i][0] != names[j][0] || names[i][1] != names[j][1]);
        }
    }
    lemma_columns_read_back(items, names);
    reveal_with_fuel(joined, 9);
    assert(items.map_values(|i: Item| item_text(i)) =~= names);
    assert(conds =~= seq![Cond::Eq("user_id"@, 1)]);
    assert(conds.map_values(|c: Cond| cond_text(c)) =~= seq![cond_text(conds[0])]);
    assert(session_store_list_by_user_id_sql() =~= select_text(items, "sessions"@, conds));
    lemma_key_conds(keys, binds);
}

/// The text of the statement of `UserStore::update_by_id`.
pub open spec fn user_store_update_by_id_sql() -> Seq<char> {
    "UPDATE users SET email = COALESCE($2, email), password_hash = COALESCE($3, password_hash), first_name = COALESCE($4, first_name), last_name = COALESCE($5, last_name) WHERE id = $1 RETURNING id, actor_id, email, password_hash, first_name, last_name, created_at, updated_at"@
}

/// The statement of `UserStore::update_by_id` changes in `users` exactly the row whose `id` is
/// bound to `$1`, assigning `email`, `password_hash`, `first_name`, `last_name` each from its own placeholders.
pub proof fn lemma_user_store_update_by_id(binds: Seq<SqlParamView>)
    requires
        binds.len() == 5,
    ensures
        updates(user_store_update_by_id_sql(), "users"@, binds, seq!["id"@], seq![SetItem::Coalesce("email"@, 2), SetItem::Coalesce("password_hash"@, 3), SetItem::Coalesce("first_name"@, 4), SetItem::Coalesce("last_name"@, 5)]),
{
    let sets = seq![SetItem::Coalesce("email"@, 2), SetItem::Coalesce("password_hash"@, 3), SetItem::Coalesce("first_name"@, 4), SetItem::Coalesce("last_name"@, 5)];
    reveal_strlit("UPDATE users SET email = COALESCE($2, email), password_hash = COALESCE($3, password_hash), first_name = COALESCE($4, first_name), last_name = COALESCE($5, last_name) WHERE id = $1 RETURNING id, actor_id, email, password_hash, first_name, last_name, created_at, updated_at");
    reveal_strlit("UPDATE ");
    reveal_strlit(" SET ");
    reveal_strlit(", ");
    reveal_strlit(" WHERE ");
    reveal_strlit(" AND ");
    reveal_strlit(" = ");
    reveal_strlit(" = COALESCE(");
    reveal_strlit(")");
    reveal_strlit(" = CASE WHEN ");
    reveal_strlit("::boolean");
    reveal_strlit(" THEN ");
    reveal_strlit(" ELSE ");
    reveal_strlit(" END");
    reveal_strlit("users");
    reveal_strlit("id");
    reveal_strlit("email");
    reveal_strlit("password_hash");
    reveal_strlit("first_name");
    reveal_strlit("last_name");
    reveal_strlit(" RETURNING id, actor_id, email, password_hash, first_name, last_name, created_at, updated_at");
    lemma_small_placeholders();
    reveal_with_fuel(joined, 5);
    assert(key_conds(seq!["id"@]) =~= seq![Cond::Eq("id"@, 1)]);
    assert(key_conds(seq!["id"@]).map_values(|c: Cond| cond_text(c)) =~= seq![cond_text(Cond::Eq("id"@, 1))]);
    assert(sets.map_values(|i: SetItem| set_text(i)) =~= seq![set_text(sets[0]), set_text(sets[1]), set_text(sets[2]), set_text(sets[3])]);
    assert(user_store_update_by_id_sql() =~= update_text("users"@, sets, key_conds(seq!["id"@]), " RETURNING id, actor_id, email, password_hash, first_name, last_name, created_at, updated_at"@));
    lemma_key_conds(seq!["id"@], binds);
}

/// The text of the statement of `UserStore::list_all`.
pub open spec fn user_store_list_all_sql() -> Seq<char> {
    "SELECT id, actor_id, email, password_hash, first_name, last_name, created_at, updated_at FROM users"@
}

/// The statement of `UserStore::list_all` returns every row of `users`,
/// with each of its columns as stored.
pub proof fn lemma_user_store_list_all()
    ensures
        lists(user_store_list_all_sql(), "users"@, Seq::<char>::empty(), seq!["id"@, "actor_id"@, "email"@, "password_hash"@, "first_name"@, "last_name"@, "created_at"@, "updated_at"@]),
{
    let names = seq!["id"@, "actor_id"@, "email"@, "password_hash"@, "first_name"@, "last_name"@, "created_at"@, "updated_at"@];
    reveal_strlit("SELECT id, actor_id, email, password_hash, first_name, last_name, created_at, updated_at FROM users");
    reveal_strlit("SELECT ");
    reveal_strlit(" FROM ");
    reveal_strlit(", ");
    reveal_strlit("users");
    reveal_strlit("id");
    reveal_strlit("actor_id");
    reveal_strlit("email");
    reveal_strlit("password_hash");
    reveal_strlit("first_name");
    reveal_strlit("last_name");
    reveal_strlit("created_at");
    reveal_strlit("updated_at");
    let items = names.map_values(|n: Seq<char>| Item::Column(n));
    assert(names.no_duplicates()) by {
        assert forall|i: int, j: int| 0 <= i < names.len() && 0 <= j < names.len() && i != j
            implies names[i] != names[j] by {
            assert(names[i].len() != names[j].len() || names[i][0] != names[j][0]);
        }
    }
    lemma_columns_read_back(items, names);
    reveal_with_fuel(joined, 9);
    assert(items.map_values(|i: Item| item_text(i)) =~= names);
    assert(user_store_list_all_sql() =~= list_text(items, "users"@, Seq::<char>::empty()));
}

/// The text of the statement of `GuestStore::update_by_id`.
pub open spec fn guest_store_update_by_id_sql() -> Seq<char> {
    "UPDATE guests SET email = COALESCE($2, email), verified = COALESCE($3, verified) WHERE id = $1 RETURNING id, actor_id, email, verified, created_at, updated_at"@
}

/// The statement of `GuestStore::update_by_id` changes in `guests` exactly the row whose `id` is
/// bound to `$1`, assigning `email`, `verified` each from its own placeholders.
pub proof fn lemma_guest_store_update_by_id(binds: Seq<SqlParamView>)
    requires
        binds.len() == 3,
    ensures
        updates(guest_store_update_by_id_sql(), "guests"@, binds, seq!["id"@], seq![SetItem::Coalesce("email"@, 2), SetItem::Coalesce("verified"@, 3)]),
{
    let sets = seq![SetItem::Coalesce("email"@, 2), SetItem::Coalesce("verified"@, 3)];
    reveal_strlit("UPDATE guests SET email = COALESCE($2, email), verified = COALESCE($3, verified) WHERE id = $1 RETURNING id, actor_id, email, verified, created_at, updated_at");
    reveal_strlit("UPDATE ");
    reveal_strlit(" SET ");
    reveal_strlit(", ");
    reveal_strlit(" WHERE ");
    reveal_strlit(" AND ");
    reveal_strlit(" = ");
    reveal_strlit(" = COALESCE(");
    reveal_strlit(")");
    reveal_strlit(" = CASE WHEN ");
    reveal_strlit("::boolean");
    reveal_strlit(" THEN ");
    reveal_strlit(" ELSE ");
    reveal_strlit(" END");
    reveal_strlit("guests");
    reveal_strlit("id");
    reveal_strlit("email");
    reveal_strlit("verified");
    reveal_strlit(" RETURNING id, actor_id, email, verified, created_at, updated_at");
    lemma_small_placeholders();
    reveal_with_fuel(joined, 3);
    assert(key_conds(seq!["id"@]) =~= seq![Cond::Eq("id"@, 1)]);
    assert(key_conds(seq!["id"@]).map_values(|c: Cond| cond_text(c)) =~= seq![cond_text(Cond::Eq("id"@, 1))]);
    assert(sets.map_values(|i: SetItem| set_text(i)) =~= seq![set_text(sets[0]), set_text(sets[1])]);
    assert(guest_store_update_by_id_sql() =~= update_text("guests"@, sets, key_conds(seq!["id"@]), " RETURNING id, actor_id, email, verified, created_at, updated_at"@));
    lemma_key_conds(seq!["id"@], binds);
}

/// The text of the statement of `GuestStore::list_all`.
pub open spec fn guest_store_list_all_sql() -> Seq<char> {
    "SELECT id, actor_id, email, verified, created_at, updated_at FROM guests"@
}

/// The statement of `GuestStore::list_all` returns every row of `guests`,
/// with each of its columns as stored.
pub proof fn lemma_guest_store_list_all()
    ensures
        lists(guest_store_list_all_sql(), "guests"@, Seq::<char>::empty(), seq!["id"@, "actor_id"@, "email"@, "verified"@, "created_at"@, "updated_at"@]),
{
    let names = seq!["id"@, "actor_id"@, "email"@, "verified"@, "created_at"@, "updated_at"@];
    reveal_strlit("SELECT id, actor_id, email, verified, created_at, updated_at FROM guests");
    reveal_strlit("SELECT ");
    reveal_strlit(" FROM ");
    reveal_strlit(", ");
    reveal_strlit("guests");
    reveal_strlit("id");
    reveal_strlit("actor_id");
    reveal_strlit("email");
    reveal_strlit("verified");
    reveal_strlit("created_at");
    reveal_strlit("updated_at");
    let items = names.map_values(|n: Seq<char>| Item::Column(n));
    assert(names.no_duplicates()) by {
        assert forall|i: int, j: int| 0 <= i < names.len() && 0 <= j < names.len() && i != j
            implies names[i] != names[j] by {
            assert(names[i].len() != names[j].len() || names[i][0] != names[j][0]);
        }
    }
    lemma_columns_read_back(items, names);
    reveal_with_fuel(joined, 7);
    assert(items.map_values(|i: Item| item_text(i)) =~= names);
    assert(guest_store_list_all_sql() =~= list_text(items, "guests"@, Seq::<char>::empty()));
}

/// The text of the statement of `InviteStore::update_by_id`.
pub open spec fn invite_store_update_by_id_sql() -> Seq<char> {
    "UPDATE invites SET status = COALESCE($2, status) WHERE id = $1 RETURNING id, invitor_user_id, email, token, role, status, expires_at, created_at, updated_at"@
}

/// The statement of `InviteStore::update_by_id` changes in `invites` exactly the row whose `id` is
/// bound to `$1`, assigning `status` each from its own placeholders.
pub proof fn lemma_invite_store_update_by_id(binds: Seq<SqlParamView>)
    requires
        binds.len() == 2,
    ensures
        updates(invite_store_update_by_id_sql(), "invites"@, binds, seq!["id"@], seq![SetItem::Coalesce("status"@, 2)]),
{
    let sets = seq![SetItem::Coalesce("status"@, 2)];
    reveal_strlit("UPDATE invites SET status = COALESCE($2, status) WHERE id = $1 RETURNING id, invitor_user_id, email, token, role, status, expires_at, created_at, updated_at");
    reveal_strlit("UPDATE ");
    reveal_strlit(" SET ");
    reveal_strlit(", ");
    reveal_strlit(" WHERE ");
    reveal_strlit(" AND ");
    reveal_strlit(" = ");
    reveal_strlit(" = COALESCE(");
    reveal_strlit(")");
    reveal_strlit(" = CASE WHEN ");
    reveal_strlit("::boolean");
    reveal_strlit(" THEN ");
    reveal_strlit(" ELSE ");
    reveal_strlit(" END");
    reveal_strlit("invites");
    reveal_strlit("id");
    reveal_strlit("status");
    reveal_strlit(" RETURNING id, invitor_user_id, email, token, role, status, expires_at, created_at, updated_at");
    lemma_small_placeholders();
    reveal_with_fuel(joined, 2);
    assert(key_conds(seq!["id"@]) =~= seq![Cond::Eq("id"@, 1)]);
    assert(key_conds(seq!["id"@]).map_values(|c: Cond| cond_text(c)) =~= seq![cond_text(Cond::Eq("id"@, 1))]);
    assert(sets.map_values(|i: SetItem| set_text(i)) =~= seq![set_text(sets[0])]);
    assert(invite_store_update_by_id_sql() =~= update_text("invites"@, sets, key_conds(seq!["id"@]), " RETURNING id, invitor_user_id, email, token, role, status, expires_at, created_at, updated_at"@));
    lemma_key_conds(seq!["id"@], binds);
}

/// The text of the statement of `InviteStore::list_all`.
pub open spec fn invite_store_list_all_sql() -> Seq<char> {
    "SELECT id, invitor_user_id, email, token, role, status, expires_at, created_at, updated_at FROM invites"@
}

/// The statement of `InviteStore::list_all` returns every row of `invites`,
/// with each of its columns as stored.
pub proof fn lemma_invite_store_list_all()
    ensures
        lists(invite_store_list_all_sql(), "invites"@, Seq::<char>::empty(), seq!["id"@, "invitor_user_id"@, "email"@, "token"@, "role"@, "status"@, "expires_at"@, "created_at"@, "updated_at"@]),
{
    let names = seq!["id"@, "invitor_user_id"@, "email"@, "token"@, "role"@, "status"@, "expires_at"@, "created_at"@, "updated_at"@];
    reveal_strlit("SELECT id, invitor_user_id, email, token, role, status, expires_at, created_at, updated_at FROM invites");
    reveal_strlit("SELECT ");
    reveal_strlit(" FROM ");
    reveal_strlit(", ");
    reveal_strlit("invites");
    reveal_strlit("id");
    reveal_strlit("invitor_user_id");
    reveal_strlit("email");
    reveal_strlit("token");
    reveal_strlit("role");
    reveal_strlit("status");
    reveal_strlit("expires_at");
    reveal_strlit("created_at");
    reveal_strlit("updated_at");
    let items = names.map_values(|n: Seq<char>| Item::Column(n));
    assert(names.no_duplicates()) by {
        assert forall|i: int, j: int| 0 <= i < names.len() && 0 <= j < names.len() && i != j
            implies names[i] != names[j] by {
            assert(names[i].len() != names[j].len() || names[i][0] != names[j][0]);
        }
    }
    lemma_columns_read_back(items, names);
    reveal_with_fuel(joined, 10);
    assert(items.map_values(|i: Item| item_text(i)) =~= names);
    assert(invite_store_list_all_sql() =~= list_text(items, "invites"@, Seq::<char>::empty()));
}

/// The actor insert stores one row of default values and returns its `id`.
pub proof fn lemma_actor_insert_takes_defaults()
    ensures
        inserts_defaults(actor_insert_sql(), "actors"@, seq!["id"@]),
{
    reveal_strlit("INSERT INTO actors DEFAULT VALUES RETURNING id");
    reveal_strlit("INSERT INTO ");
    reveal_strlit(" DEFAULT VALUES RETURNING ");
    reveal_strlit("actors");
    reveal_strlit("id");
    reveal_strlit(", ");
    reveal_with_fuel(joined, 2);
    assert(actor_insert_sql() =~= defaults_insert_text("actors"@, seq!["id"@]));
}

/// The store of actors.
pub struct ActorStore;

impl ActorStore {
    /// Inserts an actor with the default values and returns its id.
    pub fn create() -> (st: Statement)
        ensures
            st.sql@ == actor_insert_sql(),
            bound(st) == Seq::<SqlParamView>::empty(),
            inserts_defaults(st.sql@, "actors"@, seq!["id"@]),
    {
        proof {
            lemma_actor_insert_takes_defaults();
        }
        Statement { sql: "INSERT INTO actors DEFAULT VALUES RETURNING id", params: none() }
    }

    /// Looks an actor up by its id.
    pub fn find_by_id(id: &ActorId) -> (st: Statement)
        ensures
            st.sql@ == actor_store_find_by_id_sql(),
            bound(st) == seq![SqlParamView::Uuid(id@)],
            looks_up(st.sql@, "actors"@, bound(st), with_values(seq!["id"@], bound(st)), seq!["id"@, "created_at"@, "updated_at"@]),
    {
        let st = Statement {
            sql: "SELECT id, created_at, updated_at FROM actors WHERE id = $1",
            params: one(SqlParam::Uuid(id.into_inner())),
        };
        proof {
            lemma_actor_store_find_by_id(bound(st));
        }
        st
    }
}

/// The store of users.
pub struct UserStore;

impl UserStore {
    /// Inserts a user and returns the stored row.
    pub fn create(creation: &UserCreation) -> (st: Statement)
        ensures
            st.sql@ == user_insert_sql(),
            bound(st) == seq![
                SqlParamView::Uuid(creation.actor_id@),
                SqlParamView::Text(creation.email@),
                SqlParamView::Text(creation.password@),
                SqlParamView::Text(creation.first_name@),
                SqlParamView::Text(creation.last_name@),
            ],
            inserts(st.sql@, "users"@, bound(st), user_row(*creation)),
    {
        proof {
            lemma_user_insert_stores_each_field(*creation);
        }
        Statement {
            sql: "INSERT INTO users (actor_id, email, password_hash, first_name, last_name) VALUES ($1, $2, $3, $4, $5) RETURNING id, actor_id, email, password_hash, first_name, last_name, created_at, updated_at",
            params: five(
                SqlParam::Uuid(creation.actor_id.into_inner()),
                email_param(&creation.email),
                SqlParam::Text(String::from_str(creation.password.expose())),
                text_param(&creation.first_name),
                text_param(&creation.last_name),
            ),
        }
    }

    /// Changes the given fields of a user; a `None` field keeps its stored value.
    pub fn update_by_id(id: &UserId, update: &UserUpdate) -> (st: Statement)
        ensures
            st.sql@ == user_store_update_by_id_sql(),
            bound(st) == seq![
                SqlParamView::Uuid(id@),
                SqlParamView::NullableText(opt_email(update.email)),
                SqlParamView::NullableText(opt_hash(update.password)),
                SqlParamView::NullableText(opt_text(update.first_name)),
                SqlParamView::NullableText(opt_text(update.last_name)),
            ],
            updates(st.sql@, "users"@, bound(st), seq!["id"@], seq![SetItem::Coalesce("email"@, 2), SetItem::Coalesce("password_hash"@, 3), SetItem::Coalesce("first_name"@, 4), SetItem::Coalesce("last_name"@, 5)]),
    {
        let password = match &update.password {
            Some(h) => SqlParam::NullableText(Some(String::from_str(h.expose()))),
            None => SqlParam::NullableText(None),
        };
        let st = Statement {
            sql: "UPDATE users SET email = COALESCE($2, email), password_hash = COALESCE($3, password_hash), first_name = COALESCE($4, first_name), last_name = COALESCE($5, last_name) WHERE id = $1 RETURNING id, actor_id, email, password_hash, first_name, last_name, created_at, updated_at",
            params: five(
                SqlParam::Uuid(id.into_inner()),
                nullable_email_param(&update.email),
                password,
                nullable_text_param(&update.first_name),
                nullable_text_param(&update.last_name),
            ),
        };
        proof {
            lemma_user_store_update_by_id(bound(st));
        }
        st
    }

    /// Looks a user up by its id.
    pub fn find_by_id(id: &UserId) -> (st: Statement)
        ensures
            st.sql@ == user_by_id_sql(),
            bound(st) == seq![SqlParamView::Uuid(id@)],
            looks_up(st.sql@, "users"@, bound(st), with_value("id"@, DbValue::Uuid(id@)), user_columns()),
    {
        proof {
            lemma_user_lookup_by_id(id@);
        }
        Statement {
            sql: "SELECT id, actor_id, email, password_hash, first_name, last_name, created_at, updated_at FROM users WHERE id = $1",
            params: one(SqlParam::Uuid(id.into_inner())),
        }
    }

    /// Looks a user up by its email address.
    pub fn find_by_email(email: &Email) -> (st: Statement)
        ensures
            st.sql@ == user_by_email_sql(),
            bound(st) == seq![SqlParamView::Text(email@)],
            looks_up(st.sql@, "users"@, bound(st), with_value("email"@, DbValue::Text(email@)), user_columns()),
    {
        proof {
            lemma_user_lookup_by_email(email@);
        }
        Statement {
            sql: "SELECT id, actor_id, email, password_hash, first_name, last_name, created_at, updated_at FROM users WHERE email = $1",
            params: one(email_param(email)),
        }
    }

    /// Looks a user up by its actor.
    pub fn find_by_actor_id(actor_id: &ActorId) -> (st: Statement)
        ensures
            st.sql@ == user_store_find_by_actor_id_sql(),
            bound(st) == seq![SqlParamView::Uuid(actor_id@)],
            looks_up(st.sql@, "users"@, bound(st), with_values(seq!["actor_id"@], bound(st)), seq!["id"@, "actor_id"@, "email"@, "password_hash"@, "first_name"@, "last_name"@, "created_at"@, "updated_at"@]),
    {
        let st = Statement {
            sql: "SELECT id, actor_id, email, password_hash, first_name, last_name, created_at, updated_at FROM users WHERE actor_id = $1",
            params: one(SqlParam::Uuid(actor_id.into_inner())),
        };
        proof {
            lemma_user_store_find_by_actor_id(bound(st));
        }
        st
    }

    /// Lists all users.
    pub fn list_all() -> (st: Statement)
        ensures
            st.sql@ == user_store_list_all_sql(),
            bound(st) == Seq::<SqlParamView>::empty(),
            lists(st.sql@, "users"@, Seq::<char>::empty(), seq!["id"@, "actor_id"@, "email"@, "password_hash"@, "first_name"@, "last_name"@, "created_at"@, "updated_at"@]),
    {
        let st = Statement {
            sql: "SELECT id, actor_id, email, password_hash, first_name, last_name, created_at, updated_at FROM users",
            params: none(),
        };
        proof {
            lemma_user_store_list_all();
        }
        st
    }
}

/// The store of guests.
pub struct GuestStore;

impl GuestStore {
    /// Inserts a guest and returns the stored row.
    pub fn create(creation: &GuestCreation) -> (st: Statement)
        ensures
            st.sql@ == guest_store_create_sql(),
            bound(st) == seq![
                SqlParamView::Uuid(creation.actor_id@),
                SqlParamView::Text(creation.email@),
                SqlParamView::Bool(creation.verified),
            ],
            inserts(st.sql@, "guests"@, bound(st), row_of(seq!["actor_id"@, "email"@, "verified"@], bound(st))),
    {
        let st = Statement {
            sql: "INSERT INTO guests (actor_id, email, verified) VALUES ($1, $2, $3) RETURNING id, actor_id, email, verified, created_at, updated_at",
            params: three(
                SqlParam::Uuid(creation.actor_id.into_inner()),
                email_param(&creation.email),
                SqlParam::Bool(creation.verified),
            ),
        };
        proof {
            lemma_guest_store_create(bound(st));
        }
        st
    }

    /// Changes the given fields of a guest; a `None` field keeps its stored value.
    pub fn update_by_id(id: &GuestId, update: &GuestUpdate) -> (st: Statement)
        ensures
            st.sql@ == guest_store_update_by_id_sql(),
            bound(st) == seq![
                SqlParamView::Uuid(id@),
                SqlParamView::NullableText(opt_email(update.email)),
                SqlParamView::NullableBool(update.verified),
            ],
            updates(st.sql@, "guests"@, bound(st), seq!["id"@], seq![SetItem::Coalesce("email"@, 2), SetItem::Coalesce("verified"@, 3)]),
    {
        let st = Statement {
            sql: "UPDATE guests SET email = COALESCE($2, email), verified = COALESCE($3, verified) WHERE id = $1 RETURNING id, actor_id, email, verified, created_at, updated_at",
            params: three(
                SqlParam::Uuid(id.into_inner()),
                nullable_email_param(&update.email),
                SqlParam::NullableBool(update.verified),
            ),
        };
        proof {
            lemma_guest_store_update_by_id(bound(st));
        }
        st
    }

    /// Looks a guest up by its id.
    pub fn find_by_id(id: &GuestId) -> (st: Statement)
        ensures
            st.sql@ == guest_store_find_by_id_sql(),
            bound(st) == seq![SqlParamView::Uuid(id@)],
            looks_up(st.sql@, "guests"@, bound(st), with_values(seq!["id"@], bound(st)), seq!["id"@, "actor_id"@, "email"@, "verified"@, "created_at"@, "updated_at"@]),
    {
        let st = Statement {
            sql: "SELECT id, actor_id, email, verified, created_at, updated_at FROM guests WHERE id = $1",
            params: one(SqlParam::Uuid(id.into_inner())),
        };
        proof {
            lemma_guest_store_find_by_id(bound(st));
        }
        st
    }

    /// Looks a guest up by its actor.
    pub fn find_by_actor_id(actor_id: &ActorId) -> (st: Statement)
        ensures
            st.sql@ == guest_store_find_by_actor_id_sql(),
            bound(st) == seq![SqlParamView::Uuid(actor_id@)],
            looks_up(st.sql@, "guests"@, bound(st), with_values(seq!["actor_id"@], bound(st)), seq!["id"@, "actor_id"@, "email"@, "verified"@, "created_at"@, "updated_at"@]),
    {
        let st = Statement {
            sql: "SELECT id, actor_id, email, verified, created_at, updated_at FROM guests WHERE actor_id = $1",
            params: one(SqlParam::Uuid(actor_id.into_inner())),
        };
        proof {
            lemma_guest_store_find_by_actor_id(bound(st));
        }
        st
    }

    /// Lists all guests.
    pub fn list_all() -> (st: Statement)
        ensures
            st.sql@ == guest_store_list_all_sql(),
            bound(st) == Seq::<SqlParamView>::empty(),
            lists(st.sql@, "guests"@, Seq::<char>::empty(), seq!["id"@, "actor_id"@, "email"@, "verified"@, "created_at"@, "updated_at"@]),
    {
        let st = Statement {
            sql: "SELECT id, actor_id, email, verified, created_at, updated_at FROM guests",
            params: none(),
        };
        proof {
            lemma_guest_store_list_all();
        }
        st
    }
}

/// The store of sessions.
pub struct SessionStore;

impl SessionStore {
    /// Inserts a session that expires `expires_in` after `now` and returns the stored row.
    pub fn create(creation: &SessionCreation, now: i64) -> (st: Statement)
        requires
            i64::MIN <= now + creation.expires_in <= i64::MAX,
        ensures
            st.sql@ == session_insert_sql(),
            bound(st) == seq![
                SqlParamView::Uuid(creation.user_id@),
                SqlParamView::Text(creation.token@),
                SqlParamView::NullableText(opt_text(creation.user_agent)),
                SqlParamView::NullableText(opt_text(creation.ip_address)),
                SqlParamView::Timestamp((now + creation.expires_in) as i64),
            ],
            inserts(st.sql@, "sessions"@, bound(st), session_row(*creation, now)),
    {
        proof {
            lemma_session_insert_stores_each_field(*creation, now);
        }
        Statement {
            sql: "INSERT INTO sessions (user_id, token, user_agent, ip_address, expires_at) VALUES ($1, $2, $3, $4, $5) RETURNING id, user_id, token, user_agent, ip_address, expires_at, created_at, updated_at",
            params: five(
                SqlParam::Uuid(creation.user_id.into_inner()),
                text_param(&creation.token),
                nullable_text_param(&creation.user_agent),
                nullable_text_param(&creation.ip_address),
                SqlParam::Timestamp(now + creation.expires_in),
            ),
        }
    }

    /// Deletes a session by its id.
    pub fn delete_by_id(id: &SessionId) -> (st: Statement)
        ensures
            st.sql@ == session_store_delete_by_id_sql(),
            bound(st) == seq![SqlParamView::Uuid(id@)],
            deletes(st.sql@, "sessions"@, bound(st), with_values(seq!["id"@], bound(st))),
    {
        let st = Statement {
            sql: "DELETE FROM sessions WHERE id = $1",
            params: one(SqlParam::Uuid(id.into_inner())),
        };
        proof {
            lemma_session_store_delete_by_id(bound(st));
        }
        st
    }

    /// Deletes the session with the token.
    pub fn delete_by_token(token: &str) -> (st: Statement)
        ensures
            st.sql@ == session_delete_by_token_sql(),
            bound(st) == seq![SqlParamView::Text(token@)],
            deletes(st.sql@, "sessions"@, bound(st), with_value("token"@, DbValue::Text(token@))),
    {
        proof {
            lemma_session_delete_by_token(token@);
        }
        Statement {
            sql: "DELETE FROM sessions WHERE token = $1",
            params: one(SqlParam::Text(String::from_str(token))),
        }
    }

    /// Looks a session up by its token.
    pub fn find_by_token(token: &str) -> (st: Statement)
        ensures
            st.sql@ == session_by_token_sql(),
            bound(st) == seq![SqlParamView::Text(token@)],
            looks_up(st.sql@, "sessions"@, bound(st), with_token(token@), session_columns()),
    {
        proof {
            lemma_session_lookup_by_token(token@);
        }
        Statement {
            sql: "SELECT id, user_id, token, user_agent, ip_address, expires_at, created_at, updated_at FROM sessions WHERE token = $1",
            params: one(SqlParam::Text(String::from_str(token))),
        }
    }

    /// Lists the sessions of a user.
    pub fn list_by_user_id(user_id: &UserId) -> (st: Statement)
        ensures
            st.sql@ == session_store_list_by_user_id_sql(),
            bound(st) == seq![SqlParamView::Uuid(user_id@)],
            looks_up(st.sql@, "sessions"@, bound(st), with_values(seq!["user_id"@], bound(st)), seq!["id"@, "user_id"@, "token"@, "user_agent"@, "ip_address"@, "expires_at"@, "created_at"@, "updated_at"@]),
    {
        let st = Statement {
            sql: "SELECT id, user_id, token, user_agent, ip_address, expires_at, created_at, updated_at FROM sessions WHERE user_id = $1",
            params: one(SqlParam::Uuid(user_id.into_inner())),
        };
        proof {
            lemma_session_store_list_by_user_id(bound(st));
        }
        st
    }
}

/// The store of invites.
pub struct InviteStore;

impl InviteStore {
    /// Inserts an invite that expires `expires_in` after `now` and returns the stored row.
    pub fn create(creation: &InviteCreation, now: i64) -> (st: Statement)
        requires
            i64::MIN <= now + creation.expires_in <= i64::MAX,
        ensures
            st.sql@ == invite_insert_sql(),
            bound(st) == seq![
                SqlParamView::Uuid(creation.invitor@),
                SqlParamView::Text(creation.email@),
                SqlParamView::Text(creation.token@),
                SqlParamView::Text(creation.role@),
                SqlParamView::Timestamp((now + creation.expires_in) as i64),
            ],
            inserts(st.sql@, "invites"@, bound(st), invite_row(*creation, now)),
    {
        proof {
            lemma_invite_insert_stores_each_field(*creation, now);
        }
        Statement {
            sql: "INSERT INTO invites (invitor_user_id, email, token, role, expires_at) VALUES ($1, $2, $3, $4, $5) RETURNING id, invitor_user_id, email, token, role, status, expires_at, created_at, updated_at",
            params: five(
                SqlParam::Uuid(creation.invitor.into_inner()),
                email_param(&creation.email),
                text_param(&creation.token),
                text_param(&creation.role),
                SqlParam::Timestamp(now + creation.expires_in),
            ),
        }
    }

    /// Changes the status of an invite; `None` keeps the stored status.
    pub fn update_by_id(id: &InviteId, update: &InviteUpdate) -> (st: Statement)
        ensures
            st.sql@ == invite_store_update_by_id_sql(),
            bound(st) == seq![
                SqlParamView::Uuid(id@),
                SqlParamView::NullableText(opt_text(update.status)),
            ],
            updates(st.sql@, "invites"@, bound(st), seq!["id"@], seq![SetItem::Coalesce("status"@, 2)]),
    {
        let st = Statement {
            sql: "UPDATE invites SET status = COALESCE($2, status) WHERE id = $1 RETURNING id, invitor_user_id, email, token, role, status, expires_at, created_at, updated_at",
            params: two(SqlParam::Uuid(id.into_inner()), nullable_text_param(&update.status)),
        };
        proof {
            lemma_invite_store_update_by_id(bound(st));
        }
        st
    }

    /// Deletes an invite.
    pub fn delete_by_id(id: &InviteId) -> (st: Statement)
        ensures
            st.sql@ == invite_delete_sql(),
            bound(st) == seq![SqlParamView::Uuid(id@)],
            deletes(st.sql@, "invites"@, bound(st), with_value("id"@, DbValue::Uuid(id@))),
    {
        proof {
            lemma_invite_delete_by_id(id@);
        }
        Statement {
            sql: "DELETE FROM invites WHERE id = $1",
            params: one(SqlParam::Uuid(id.into_inner())),
        }
    }

    /// Looks an invite up by its token.
    pub fn find_by_token(token: &str) -> (st: Statement)
        ensures
            st.sql@ == invite_by_token_sql(),
            bound(st) == seq![SqlParamView::Text(token@)],
            looks_up(st.sql@, "invites"@, bound(st), with_token(token@), invite_columns()),
    {
        proof {
            lemma_invite_lookup_by_token(token@);
        }
        Statement {
            sql: "SELECT id, invitor_user_id, email, token, role, status, expires_at, created_at, updated_at FROM invites WHERE token = $1",
            params: one(SqlParam::Text(String::from_str(token))),
        }
    }

    /// Looks an invite up by the address it was sent to.
    pub fn find_by_email(email: &Email) -> (st: Statement)
        ensures
            st.sql@ == invite_by_email_sql(),
            bound(st) == seq![SqlParamView::Text(email@)],
            looks_up(st.sql@, "invites"@, bound(st), with_value("email"@, DbValue::Text(email@)), invite_columns()),
    {
        proof {
            lemma_invite_lookup_by_email(email@);
        }
        Statement {
            sql: "SELECT id, invitor_user_id, email, token, role, status, expires_at, created_at, updated_at FROM invites WHERE email = $1",
            params: one(email_param(email)),
        }
    }

    /// Lists all invites.
    pub fn list_all() -> (st: Statement)
        ensures
            st.sql@ == invite_store_list_all_sql(),
            bound(st) == Seq::<SqlParamView>::empty(),
            lists(st.sql@, "invites"@, Seq::<char>::empty(), seq!["id"@, "invitor_user_id"@, "email"@, "token"@, "role"@, "status"@, "expires_at"@, "created_at"@, "updated_at"@]),
    {
        let st = Statement {
            sql: "SELECT id, invitor_user_id, email, token, role, status, expires_at, created_at, updated_at FROM invites",
            params: none(),
        };
        proof {
            lemma_invite_store_list_all();
        }
        st
    }
}

} // verus!
