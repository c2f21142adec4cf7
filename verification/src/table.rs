//! The player table as a whole: a map from identity to row, the effect of a
//! `TableWrite` on it, and the laws that the reducers' writes keep: only the
//! caller's row changes, no row ever disappears, a returning player's row is
//! updated in place, and player numbers stay distinct.
//!
//! The table keys rows by identity (its primary key) and numbers them with an
//! auto-incremented, unique `player_id`: a row inserted with number 0 gets
//! the next number of the table's sequence instead. That number is an
//! argument (`fresh`) of the model; the laws ask of it only what the
//! sequence gives: it is not 0 and no row holds it yet.
use vstd::prelude::*;
use crate::player::{
    connect_write, disconnect_write, name_is_valid, rename_write, Player, TableWrite,
};

verus! {

/// Every row is stored under its own identity, and no two rows share a
/// player number.
pub open spec fn table_wf<I, T>(table: Map<I, Player<I, T>>) -> bool {
    &&& forall|k: I| table.dom().contains(k) ==> (#[trigger] table[k]).identity == k
    &&& forall|a: I, b: I|
        table.dom().contains(a) && table.dom().contains(b) && a != b
            ==> (#[trigger] table[a]).player_id != (#[trigger] table[b]).player_id
}

/// `fresh` can be the next number of the table's sequence: it is not 0 and
/// no row holds it.
pub open spec fn is_fresh_number<I, T>(table: Map<I, Player<I, T>>, fresh: u32) -> bool {
    &&& fresh != 0
    &&& forall|k: I| table.dom().contains(k) ==> (#[trigger] table[k]).player_id != fresh
}

/// The row that a lookup of `who` finds.
pub open spec fn row_of<I, T>(table: Map<I, Player<I, T>>, who: I) -> Option<Player<I, T>> {
    if table.dom().contains(who) {
        Some(table[who])
    } else {
        None
    }
}

/// The row as the table stores it on insertion: number 0 is replaced by the
/// sequence's next number `fresh`.
pub open spec fn numbered<I, T>(p: Player<I, T>, fresh: u32) -> Player<I, T> {
    if p.player_id == 0 {
        Player { player_id: fresh, ..p }
    } else {
        p
    }
}

/// Whether the table accepts a write: an insertion is refused when the
/// identity already has a row, an update when it has none.
pub open spec fn write_accepted<I, T>(table: Map<I, Player<I, T>>, w: TableWrite<I, T>) -> bool {
    match w {
        TableWrite::Insert(p) => !table.dom().contains(p.identity),
        TableWrite::Update(p) => table.dom().contains(p.identity),
        TableWrite::Unchanged => true,
    }
}

/// The table after a write, `fresh` being the sequence's next number: an
/// accepted insertion stores the numbered row under its identity, an accepted
/// update replaces the row of its identity, and a refused write or
/// `Unchanged` leaves the table as it is.
pub open spec fn apply_write<I, T>(table: Map<I, Player<I, T>>, w: TableWrite<I, T>, fresh: u32) -> Map<I, Player<I, T>> {
    if !write_accepted(table, w) {
        table
    } else {
        match w {
            TableWrite::Insert(p) => table.insert(p.identity, numbered(p, fresh)),
            TableWrite::Update(p) => table.insert(p.identity, p),
            TableWrite::Unchanged => table,
        }
    }
}

/// `after` differs from `before` at most in the row of `who`, and keeps
/// every row that `before` had.
pub open spec fn only_row_changed<I, T>(before: Map<I, Player<I, T>>, after: Map<I, Player<I, T>>, who: I) -> bool {
    &&& after.dom() == before.dom().insert(who)
    &&& forall|k: I| k != who && before.dom().contains(k) ==> #[trigger] after[k] == before[k]
}

/// The number of `who`'s row differs from the number of every other row
/// of `before`.
pub open spec fn number_is_new<I, T>(before: Map<I, Player<I, T>>, after: Map<I, Player<I, T>>, who: I) -> bool {
    forall|k: I| before.dom().contains(k) && k != who ==> (#[trigger] before[k]).player_id != after[who].player_id
}

/// Replacing the row of `who` by one with the same identity and number keeps
/// the table well formed.
proof fn lemma_replace_keeps_wf<I, T>(table: Map<I, Player<I, T>>, who: I, p: Player<I, T>)
    requires
        table_wf(table),
        table.dom().contains(who),
        p.identity == who,
        p.player_id == table[who].player_id,
    ensures
        table_wf(table.insert(who, p)),
        only_row_changed(table, table.insert(who, p), who),
{
    let after = table.insert(who, p);
    assert(after.dom() =~= table.dom().insert(who));
    assert forall|a: I, b: I|
        after.dom().contains(a) && after.dom().contains(b) && a != b implies
        (#[trigger] after[a]).player_id != (#[trigger] after[b]).player_id by {
        assert(table[a].player_id != table[b].player_id);
    }
}

/// Adding a row for `who`, which had none, under a fresh number keeps the
/// table well formed.
proof fn lemma_add_keeps_wf<I, T>(table: Map<I, Player<I, T>>, who: I, p: Player<I, T>)
    requires
        table_wf(table),
        !table.dom().contains(who),
        p.identity == who,
        is_fresh_number(table, p.player_id),
    ensures
        table_wf(table.insert(who, p)),
        only_row_changed(table, table.insert(who, p), who),
        number_is_new(table, table.insert(who, p), who),
{
    let after = table.insert(who, p);
    assert(after.dom() =~= table.dom().insert(who));
    assert forall|a: I, b: I|
        after.dom().contains(a) && after.dom().contains(b) && a != b implies
        (#[trigger] after[a]).player_id != (#[trigger] after[b]).player_id by {
        if a == who {
            assert(table[b].player_id != p.player_id);
        } else if b == who {
            assert(table[a].player_id != p.player_id);
        } else {
            assert(table[a].player_id != table[b].player_id);
        }
    }
}

/// A connection of `sender` changes only the sender's row, which ends online
/// at `now`. A returning player's row is the old one marked online (an
/// update, never a second row), keeping its number. A new player gets a row
/// with the sender's identity, no name, online at `now`, numbered with the
/// sequence's next number, which no other row holds. Rows stay under their
/// identities, numbers stay distinct, and none is removed.
pub proof fn law_connect_in_table<I, T>(table: Map<I, Player<I, T>>, sender: I, now: T, fresh: u32)
    requires
        table_wf(table),
        is_fresh_number(table, fresh),
    ensures
        ({
            let w = connect_write(sender, now, row_of(table, sender));
            let after = apply_write(table, w, fresh);
            &&& write_accepted(table, w)
            &&& table_wf(after)
            &&& only_row_changed(table, after, sender)
            &&& number_is_new(table, after, sender)
            &&& after[sender].online
            &&& after[sender].last_connection == now
            &&& after[sender].identity == sender
            &&& table.dom().contains(sender) ==> w is Update
            &&& table.dom().contains(sender) ==> after[sender] == table[sender].went_online(now)
            &&& !table.dom().contains(sender) ==> w is Insert
            &&& !table.dom().contains(sender) ==> after[sender].username is None
            &&& !table.dom().contains(sender) ==> after[sender].player_id == fresh
        }),
{
    if table.dom().contains(sender) {
        lemma_replace_keeps_wf(table, sender, table[sender].went_online(now));
    } else {
        let p = Player::<I, T>::first_seen(sender, now);
        lemma_add_keeps_wf(table, sender, numbered(p, fresh));
    }
}

/// A disconnection of `sender` changes only the sender's row, which ends
/// offline at `now` and keeps its number; for an identity without a row the
/// table stays as it is.
pub proof fn law_disconnect_in_table<I, T>(table: Map<I, Player<I, T>>, sender: I, now: T, fresh: u32)
    requires
        table_wf(table),
    ensures
        ({
            let after = apply_write(table, disconnect_write(now, row_of(table, sender)), fresh);
            &&& table_wf(after)
            &&& !table.dom().contains(sender) ==> after == table
            &&& table.dom().contains(sender) ==> only_row_changed(table, after, sender)
            &&& table.dom().contains(sender) ==> after[sender] == table[sender].went_offline(now)
            &&& table.dom().contains(sender) ==> !after[sender].online
        }),
{
    if table.dom().contains(sender) {
        lemma_replace_keeps_wf(table, sender, table[sender].went_offline(now));
    }
}

/// A name change that is refused (empty name, or no row for the sender)
/// leaves the table as it is; an accepted one changes only the sender's
/// row, and only its name.
pub proof fn law_rename_in_table<I, T>(table: Map<I, Player<I, T>>, sender: I, name: String, fresh: u32)
    requires
        table_wf(table),
    ensures
        ({
            let after = apply_write(table, rename_write(row_of(table, sender), name), fresh);
            &&& table_wf(after)
            &&& !(name_is_valid(name@) && table.dom().contains(sender)) ==> after == table
            &&& name_is_valid(name@) && table.dom().contains(sender) ==> {
                &&& only_row_changed(table, after, sender)
                &&& after[sender] == table[sender].renamed(name)
            }
        }),
{
    if name_is_valid(name@) && table.dom().contains(sender) {
        lemma_replace_keeps_wf(table, sender, table[sender].renamed(name));
    }
}

/// No write removes a row.
pub proof fn law_no_row_is_deleted<I, T>(table: Map<I, Player<I, T>>, w: TableWrite<I, T>, fresh: u32)
    ensures
        table.dom().subset_of(apply_write(table, w, fresh).dom()),
{
}

/// The test insertion of a row for an identity that has none adds exactly
/// that row: the sender's identity, online at `now`, named `name`, numbered
/// with the sequence's next number, which no other row holds.
pub proof fn law_mock_insert_in_table<I, T>(table: Map<I, Player<I, T>>, sender: I, name: String, now: T, fresh: u32)
    requires
        table_wf(table),
        is_fresh_number(table, fresh),
        !table.dom().contains(sender),
    ensures
        ({
            let w = TableWrite::Insert(Player::<I, T>::first_seen(sender, now).renamed(name));
            let after = apply_write(table, w, fresh);
            &&& write_accepted(table, w)
            &&& table_wf(after)
            &&& only_row_changed(table, after, sender)
            &&& number_is_new(table, after, sender)
            &&& after[sender].identity == sender
            &&& after[sender].username == Some(name)
            &&& after[sender].online
            &&& after[sender].last_connection == now
            &&& after[sender].player_id == fresh
        }),
{
    let p = Player::<I, T>::first_seen(sender, now).renamed(name);
    lemma_add_keeps_wf(table, sender, numbered(p, fresh));
}

/// The test insertion for an identity that already has a row is refused,
/// and the table stays as it is.
pub proof fn law_mock_insert_refused_for_known_identity<I, T>(
    table: Map<I, Player<I, T>>,
    sender: I,
    name: String,
    now: T,
    fresh: u32,
)
    requires
        table.dom().contains(sender),
    ensures
        ({
            let w = TableWrite::Insert(Player::<I, T>::first_seen(sender, now).renamed(name));
            &&& !write_accepted(table, w)
            &&& apply_write(table, w, fresh) == table
        }),
{
}

} // verus!
