//! The rules of the player table: what a connection, a disconnection, a new
//! name or a test insertion writes, given what the table holds for the
//! calling identity.
//!
//! The table itself lives in the database host; these functions take the
//! row that was found for the sender (if any) and return the row to write.
use vstd::prelude::*;

verus! {

/// One row of the player table.
///
/// `I` is the type of the identity that owns the row (the primary key) and
/// `T` the type of a point in time.
pub struct Player<I, T> {
    /// The identity of the connected user; the primary key of the table.
    pub identity: I,
    /// Unique player number; 0 asks the database to assign the next one.
    pub player_id: u32,
    /// The chosen name, if one was set.
    pub username: Option<String>,
    /// Whether the user is connected right now.
    pub online: bool,
    /// When the user last connected or disconnected.
    pub last_connection: T,
}

/// What a reducer asks the table to do.
pub enum TableWrite<I, T> {
    /// Insert a new row.
    Insert(Player<I, T>),
    /// Replace the row that has the same identity.
    Update(Player<I, T>),
    /// Leave the table as it is.
    Unchanged,
}

/// The message of the error for an empty name.
pub open spec fn empty_name_message() -> Seq<char> {
    "Name can't be empty"@
}

/// The message of the error for a name change of an identity without a row.
pub open spec fn unknown_player_message() -> Seq<char> {
    "Cannot set name for unknown player"@
}

/// A name is accepted exactly when it is not empty.
pub open spec fn name_is_valid(name: Seq<char>) -> bool {
    name.len() != 0
}

impl<I, T> Player<I, T> {
    /// The row of a user who has just connected at `now`.
    pub open spec fn went_online(self, now: T) -> Player<I, T> {
        Player { online: true, last_connection: now, ..self }
    }

    /// The row of a user who has just disconnected at `now`.
    pub open spec fn went_offline(self, now: T) -> Player<I, T> {
        Player { online: false, last_connection: now, ..self }
    }

    /// The row with its name set to `name`.
    pub open spec fn renamed(self, name: String) -> Player<I, T> {
        Player { username: Some(name), ..self }
    }

    /// The row that a first connection of `sender` at `now` inserts.
    pub open spec fn first_seen(sender: I, now: T) -> Player<I, T> {
        Player { identity: sender, player_id: 0, username: None, online: true, last_connection: now }
    }
}

/// What a connection of `sender` at `now` writes, given the sender's row.
pub open spec fn connect_write<I, T>(sender: I, now: T, existing: Option<Player<I, T>>) -> TableWrite<I, T> {
    match existing {
        Some(p) => TableWrite::Update(p.went_online(now)),
        None => TableWrite::Insert(Player::<I, T>::first_seen(sender, now)),
    }
}

/// What a disconnection at `now` writes, given the sender's row.
pub open spec fn disconnect_write<I, T>(now: T, existing: Option<Player<I, T>>) -> TableWrite<I, T> {
    match existing {
        Some(p) => TableWrite::Update(p.went_offline(now)),
        None => TableWrite::Unchanged,
    }
}

/// What a request to take the name `name` writes, given the sender's row:
/// the renamed row when the name is valid and the row exists, else nothing.
pub open spec fn rename_write<I, T>(existing: Option<Player<I, T>>, name: String) -> TableWrite<I, T> {
    match existing {
        Some(p) => if name_is_valid(name@) {
            TableWrite::Update(p.renamed(name))
        } else {
            TableWrite::Unchanged
        },
        None => TableWrite::Unchanged,
    }
}

/// Checks a requested player name: an empty name is refused, any other name
/// is accepted as it is.
pub fn validate_name(name: &String) -> (r: Result<String, String>)
    ensures
        name_is_valid(name@) ==> r == Ok::<String, String>(*name),
        !name_is_valid(name@) ==> (r matches Err(e) && e@ == empty_name_message()),
        name@.len() > 0 ==> r == Ok::<String, String>(*name),
        name@.len() == 0 ==> (r matches Err(e) && e@ == "Name can't be empty"@),
{
    if name.as_str().is_empty() {
        Err(String::from_str("Name can't be empty"))
    } else {
        Ok(name.clone())
    }
}

/// What the table does when `sender` connects at `now`: a known user's row
/// is marked online with the new connection time, and an unknown user gets a
/// fresh row with no name (player number 0, assigned by the database).
pub fn player_connected<I, T>(sender: I, now: T, existing: Option<Player<I, T>>) -> (w: TableWrite<I, T>)
    ensures
        existing matches Some(p) ==> w == TableWrite::Update(p.went_online(now)),
        existing is None ==> w == TableWrite::Insert(Player::<I, T>::first_seen(sender, now)),
        w == connect_write(sender, now, existing),
        existing matches Some(p) ==> (w matches TableWrite::Update(q) && q.identity == p.identity
            && q.player_id == p.player_id && q.username == p.username && q.online
            && q.last_connection == now),
        existing is None ==> (w matches TableWrite::Insert(q) && q.identity == sender && q.player_id == 0
            && q.username is None && q.online && q.last_connection == now),
{
    match existing {
        Some(player) => TableWrite::Update(Player { online: true, last_connection: now, ..player }),
        None => TableWrite::Insert(
            Player { identity: sender, player_id: 0, username: None, online: true, last_connection: now },
        ),
    }
}

/// What the table does when a user disconnects at `now`: a known user's row
/// is marked offline with the new time; for an unknown identity nothing is
/// written.
pub fn player_disconnected<I, T>(now: T, existing: Option<Player<I, T>>) -> (w: TableWrite<I, T>)
    ensures
        existing matches Some(p) ==> w == TableWrite::Update(p.went_offline(now)),
        existing is None ==> w == TableWrite::<I, T>::Unchanged,
        w == disconnect_write(now, existing),
        existing matches Some(p) ==> (w matches TableWrite::Update(q) && q.identity == p.identity
            && q.player_id == p.player_id && q.username == p.username && !q.online
            && q.last_connection == now),
{
    match existing {
        Some(player) => TableWrite::Update(Player { online: false, last_connection: now, ..player }),
        None => TableWrite::Unchanged,
    }
}

/// A request to change the sender's name. The name is checked first: an
/// empty name is refused; then a sender without a row is refused; otherwise
/// the row to write back is the old one with the new name, every other field
/// kept.
pub fn set_player_name<I, T>(existing: Option<Player<I, T>>, name: String) -> (r: Result<Player<I, T>, String>)
    ensures
        !name_is_valid(name@) ==> (r matches Err(e) && e@ == empty_name_message()),
        name_is_valid(name@) && existing is None ==> (r matches Err(e) && e@ == unknown_player_message()),
        name_is_valid(name@) && existing is Some ==> r == Ok::<Player<I, T>, String>(existing->0.renamed(name)),
        r matches Ok(p) ==> rename_write(existing, name) == TableWrite::Update(p),
        r is Err ==> rename_write(existing, name) == TableWrite::<I, T>::Unchanged,
        name@.len() == 0 ==> (r matches Err(e) && e@ == "Name can't be empty"@),
        name@.len() > 0 && existing is None ==> (r matches Err(e) && e@ == "Cannot set name for unknown player"@),
        name@.len() > 0 && existing is Some ==> (r matches Ok(q) && q.username == Some(name)
            && q.identity == existing->0.identity && q.player_id == existing->0.player_id
            && q.online == existing->0.online && q.last_connection == existing->0.last_connection),
{
    let name = match validate_name(&name) {
        Ok(n) => n,
        Err(e) => return Err(e),
    };
    match existing {
        Some(player) => Ok(Player { username: Some(name), ..player }),
        None => Err(String::from_str("Cannot set name for unknown player")),
    }
}

/// The row that the test reducer inserts for `sender`: online, named `name`,
/// connected at `now`, with the player number left to the database.
pub fn insert_mock_player<I, T>(sender: I, name: String, now: T) -> (p: Player<I, T>)
    ensures
        p == Player::<I, T>::first_seen(sender, now).renamed(name),
        p.identity == sender && p.player_id == 0 && p.username == Some(name) && p.online
            && p.last_connection == now,
{
    Player { identity: sender, player_id: 0, username: Some(name), online: true, last_connection: now }
}

/// A connection followed by a disconnection leaves the same row as the
/// disconnection alone: the user ends offline, with the time of the
/// disconnection, and nothing else of the row changes.
pub proof fn law_disconnect_after_connect<I, T>(p: Player<I, T>, connected_at: T, left_at: T)
    ensures
        p.went_online(connected_at).went_offline(left_at) == p.went_offline(left_at),
{
}

/// A disconnection followed by a new connection leaves the same row as the
/// connection alone.
pub proof fn law_connect_after_disconnect<I, T>(p: Player<I, T>, left_at: T, connected_at: T)
    ensures
        p.went_offline(left_at).went_online(connected_at) == p.went_online(connected_at),
{
}

/// Connecting twice is the same as connecting once, at the later time.
pub proof fn law_reconnect_is_idempotent<I, T>(p: Player<I, T>, first: T, second: T)
    ensures
        p.went_online(first).went_online(second) == p.went_online(second),
{
}

/// Connections and disconnections never touch the identity, the player
/// number or the name of a row.
pub proof fn law_presence_keeps_who_the_player_is<I, T>(p: Player<I, T>, now: T)
    ensures
        p.went_online(now).identity == p.identity,
        p.went_online(now).player_id == p.player_id,
        p.went_online(now).username == p.username,
        p.went_offline(now).identity == p.identity,
        p.went_offline(now).player_id == p.player_id,
        p.went_offline(now).username == p.username,
{
}

/// A name change keeps whether the player is online and when it last
/// connected, and it commutes with connections and disconnections.
pub proof fn law_rename_keeps_presence<I, T>(p: Player<I, T>, name: String, now: T)
    ensures
        p.renamed(name).online == p.online,
        p.renamed(name).last_connection == p.last_connection,
        p.renamed(name).identity == p.identity,
        p.renamed(name).player_id == p.player_id,
        p.renamed(name).went_online(now) == p.went_online(now).renamed(name),
        p.renamed(name).went_offline(now) == p.went_offline(now).renamed(name),
{
}

/// A second name change replaces the first one.
pub proof fn law_last_name_wins<I, T>(p: Player<I, T>, first: String, second: String)
    ensures
        p.renamed(first).renamed(second) == p.renamed(second),
{
}

/// A name is accepted exactly when it has at least one character.
pub proof fn law_every_nonempty_name_is_valid(name: Seq<char>)
    ensures
        name_is_valid(name) <==> name.len() > 0,
{
}

/// The error messages are the two texts that callers receive.
pub proof fn law_error_messages()
    ensures
        empty_name_message() == "Name can't be empty"@,
        unknown_player_message() == "Cannot set name for unknown player"@,
{
}

/// What each change of a row does, field by field: a connection sets the
/// row online at the given time, a disconnection sets it offline at the
/// given time, a name change sets the name; every other field is kept. A
/// first-seen row has the sender's identity, number 0, no name, and is
/// online at the given time.
pub proof fn law_row_changes_field_by_field<I, T>(p: Player<I, T>, now: T, name: String, sender: I)
    ensures
        p.went_online(now).online,
        p.went_online(now).last_connection == now,
        p.went_online(now).identity == p.identity,
        p.went_online(now).player_id == p.player_id,
        p.went_online(now).username == p.username,
        !p.went_offline(now).online,
        p.went_offline(now).last_connection == now,
        p.went_offline(now).identity == p.identity,
        p.went_offline(now).player_id == p.player_id,
        p.went_offline(now).username == p.username,
        p.renamed(name).username == Some(name),
        p.renamed(name).identity == p.identity,
        p.renamed(name).player_id == p.player_id,
        p.renamed(name).online == p.online,
        p.renamed(name).last_connection == p.last_connection,
        Player::<I, T>::first_seen(sender, now).identity == sender,
        Player::<I, T>::first_seen(sender, now).player_id == 0,
        Player::<I, T>::first_seen(sender, now).username is None,
        Player::<I, T>::first_seen(sender, now).online,
        Player::<I, T>::first_seen(sender, now).last_connection == now,
{
}

/// What each reducer writes, given the sender's row: a connection updates a
/// known row (never inserting a second one) and inserts a row for a new
/// sender; a disconnection updates a known row and writes nothing for an
/// unknown sender; a name change with a non-empty name updates a known row
/// with exactly that name, and writes nothing otherwise.
pub proof fn law_reducer_writes<I, T>(sender: I, now: T, existing: Option<Player<I, T>>, name: String)
    ensures
        existing is Some ==> (connect_write(sender, now, existing) matches TableWrite::Update(q)
            && q.online && q.last_connection == now && q.username == existing->0.username),
        existing is None ==> (connect_write(sender, now, existing) matches TableWrite::Insert(q)
            && q.identity == sender && q.online && q.username is None),
        existing is Some ==> (disconnect_write(now, existing) matches TableWrite::Update(q)
            && !q.online && q.last_connection == now && q.username == existing->0.username),
        existing is None ==> disconnect_write(now, existing) is Unchanged,
        existing is Some && name@.len() > 0 ==> (rename_write(existing, name) matches TableWrite::Update(q)
            && q.username == Some(name) && q.identity == existing->0.identity),
        existing is None || name@.len() == 0 ==> rename_write(existing, name) is Unchanged,
{
}

} // verus!
