//! Bringing a database up to the current schema, one recorded migration at a time.
use vstd::prelude::*;

use rusqlite::Connection;

use crate::db::clipboard_repo::now_millis;
use crate::db::schema::{
    migration_list, migrations, APPLIED_MIGRATIONS_SQL, MIGRATIONS_TABLE_SQL, RECORD_MIGRATION_SQL,
};
use crate::db::sql::{
    begin_transaction, bind_values, commit, execute, execute_batch, query_i32s,
    transaction_connection,
};

verus! {

fn contains_version(applied: &Vec<i32>, version: i32) -> (r: bool)
    ensures
        r == applied@.contains(version),
{
    let mut i: usize = 0;
    while i < applied.len()
        invariant
            i <= applied.len(),
            forall|j: int| 0 <= j < i ==> applied@[j] != version,
        decreases applied.len() - i,
    {
        if applied[i] == version {
            assert(applied@[i as int] == version);
            return true;
        }
        i = i + 1;
    }
    false
}

/// The migrations of `all` whose version is not in `applied`, in order.
pub open spec fn pending_of(all: Seq<(i32, &'static str)>, applied: Seq<i32>) -> Seq<(i32, &'static str)>
    decreases all.len(),
{
    if all.len() == 0 {
        seq![]
    } else {
        let earlier = pending_of(all.drop_last(), applied);
        if applied.contains(all.last().0) {
            earlier
        } else {
            earlier.push(all.last())
        }
    }
}

/// The migrations still to apply, given the versions already recorded: those
/// whose version is not recorded, in the order they are listed.
pub fn pending_migrations(applied: &Vec<i32>) -> (r: Vec<(i32, &'static str)>)
    ensures
        r@ == pending_of(migration_list(), applied@),
{
    let all = migrations();
    let mut r: Vec<(i32, &'static str)> = Vec::new();
    let mut i: usize = 0;
    while i < all.len()
        invariant
            i <= all.len(),
            all@ == migration_list(),
            r@ == pending_of(all@.take(i as int), applied@),
        decreases all.len() - i,
    {
        assert(all@.take(i + 1).drop_last() =~= all@.take(i as int));
        assert(all@.take(i + 1).last() == all@[i as int]);
        if !contains_version(applied, all[i].0) {
            r.push(all[i]);
        }
        i = i + 1;
    }
    assert(all@.take(all.len() as int) =~= all@);
    r
}

/// Creates the migrations table, then applies each migration not yet recorded
/// there (see `pending_migrations`), each in a transaction of its own together
/// with its record. Stops at the first error.
pub fn apply(conn: &Connection) -> (r: Result<(), rusqlite::Error>) {
    match execute(conn, MIGRATIONS_TABLE_SQL, bind_values(Vec::new(), Vec::new())) {
        Ok(_) => {},
        Err(e) => return Err(e),
    }
    let applied = match query_i32s(conn, APPLIED_MIGRATIONS_SQL) {
        Ok(v) => v,
        Err(e) => return Err(e),
    };
    let pending = pending_migrations(&applied);
    let mut i: usize = 0;
    while i < pending.len()
        invariant
            i <= pending.len(),
        decreases pending.len() - i,
    {
        let (version, sql) = pending[i];
        i = i + 1;
        let tx = match begin_transaction(conn) {
            Ok(tx) => tx,
            Err(e) => return Err(e),
        };
        match execute_batch(transaction_connection(&tx), sql) {
            Ok(()) => {},
            Err(e) => return Err(e),
        }
        let ints = vec![version as i64, now_millis()];
        match execute(transaction_connection(&tx), RECORD_MIGRATION_SQL, bind_values(Vec::new(), ints)) {
            Ok(_) => {},
            Err(e) => return Err(e),
        }
        match commit(tx) {
            Ok(()) => {},
            Err(e) => return Err(e),
        }
    }
    Ok(())
}

/// Once every listed version is recorded nothing is pending, and on a fresh
/// database every migration is.
pub proof fn law_pending_migrations(all: Seq<(i32, &'static str)>, applied: Seq<i32>)
    ensures
        (forall|i: int| 0 <= i < all.len() ==> applied.contains(#[trigger] all[i].0)) ==> pending_of(
            all,
            applied,
        ) == Seq::<(i32, &'static str)>::empty(),
        applied.len() == 0 ==> pending_of(all, applied) == all,
    decreases all.len(),
{
    if all.len() > 0 {
        law_pending_migrations(all.drop_last(), applied);
        if forall|i: int| 0 <= i < all.len() ==> applied.contains(#[trigger] all[i].0) {
            assert(all.drop_last().len() == all.len() - 1);
            assert forall|i: int| 0 <= i < all.drop_last().len() implies applied.contains(
                #[trigger] all.drop_last()[i].0,
            ) by {
                assert(all.drop_last()[i] == all[i]);
            }
            assert(applied.contains(all[all.len() - 1].0));
        }
        if applied.len() == 0 {
            assert(!applied.contains(all.last().0));
            assert(all.drop_last().push(all.last()) =~= all);
        }
    }
}

} // verus!
