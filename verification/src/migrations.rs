//! The registry of SQL schema migrations for the local reading-tracker
//! database, and the ordering invariants expected of migration version
//! numbers: unique, monotonically increasing, and ideally consecutive from 1.

use vstd::prelude::*;

verus! {

/// Direction of a schema migration.
#[derive(Clone, Copy, Debug, PartialEq, Eq, Structural)]
pub enum MigrationKind {
    Up,
    Down,
}

/// A versioned SQL script that brings the local database schema to a target
/// version. Migrations are immutable artifacts: once part of the registry they
/// are applied once, in order.
#[derive(Debug)]
pub struct Migration {
    pub version: i64,
    pub description: String,
    pub sql: String,
    pub kind: MigrationKind,
}

impl Migration {
    /// Builds a migration descriptor from its four parts.
    pub fn new(version: i64, description: String, sql: String, kind: MigrationKind) -> (m:
        Migration)
        ensures
            m.version == version,
            m.description == description,
            m.sql == sql,
            m.kind == kind,
    {
        Migration { version, description, sql, kind }
    }
}

/// Every pair of entries in order has strictly increasing version numbers:
/// versions are unique and monotonic.
pub open spec fn versions_strictly_increasing(ms: Seq<Migration>) -> bool {
    forall|i: int, j: int| 0 <= i < j < ms.len() ==> ms[i].version < ms[j].version
}

/// No two distinct entries share a version number.
pub open spec fn versions_distinct(ms: Seq<Migration>) -> bool {
    forall|i: int, j: int|
        0 <= i < ms.len() && 0 <= j < ms.len() && i != j ==> ms[i].version != ms[j].version
}

/// The entries are numbered 1, 2, 3, ... in order, with no gaps and no
/// duplicates.
pub open spec fn versions_consecutive_from_one(ms: Seq<Migration>) -> bool {
    forall|i: int| 0 <= i < ms.len() ==> ms[i].version == i + 1
}

/// Decides whether the version numbers of `ms` are strictly increasing, the
/// order a migration runner needs before it applies the list.
pub fn versions_are_strictly_increasing(ms: &Vec<Migration>) -> (b: bool)
    ensures
        b == versions_strictly_increasing(ms@),
{
    let mut k: usize = 1;
    while k < ms.len()
        invariant
            1 <= k,
            forall|i: int, j: int| 0 <= i < j < k && j < ms@.len() ==> ms@[i].version < ms@[j].version,
        decreases ms@.len() - k,
    {
        if ms[k - 1].version >= ms[k].version {
            return false;
        }
        k = k + 1;
    }
    true
}

/// Decides whether the version numbers of `ms` are exactly 1, 2, 3, ... in
/// order: monotonic with no gaps and no duplicates.
pub fn versions_are_consecutive_from_one(ms: &Vec<Migration>) -> (b: bool)
    ensures
        b == versions_consecutive_from_one(ms@),
{
    let mut k: usize = 0;
    let mut expected: i64 = 1;
    while k < ms.len()
        invariant
            k <= ms@.len(),
            k < ms@.len() ==> expected == k + 1,
            forall|i: int| 0 <= i < k ==> ms@[i].version == i + 1,
        decreases ms@.len() - k,
    {
        if ms[k].version != expected {
            return false;
        }
        k = k + 1;
        if k < ms.len() {
            if expected == i64::MAX {
                // The next entry would need version `expected + 1`, which no
                // i64 can hold, so it cannot match.
                assert(ms@[k as int].version != k + 1);
                return false;
            }
            expected = expected + 1;
        }
    }
    true
}

/// Strictly increasing versions are in particular pairwise distinct.
pub proof fn lemma_strictly_increasing_implies_distinct(ms: Seq<Migration>)
    requires
        versions_strictly_increasing(ms),
    ensures
        versions_distinct(ms),
{
    assert forall|i: int, j: int|
        0 <= i < ms.len() && 0 <= j < ms.len() && i != j implies ms[i].version
        != ms[j].version by {
        if i < j {
            assert(ms[i].version < ms[j].version);
        } else {
            assert(ms[j].version < ms[i].version);
        }
    }
}

/// Versions numbered consecutively from 1 are in particular strictly
/// increasing.
pub proof fn lemma_consecutive_implies_strictly_increasing(ms: Seq<Migration>)
    requires
        versions_consecutive_from_one(ms),
    ensures
        versions_strictly_increasing(ms),
{
}

/// The ordered migration list for the local reading-tracker database
/// (`sqlite:ketav-local.db`), with the SQL text of each step supplied by the
/// caller. The versions are consecutive from 1 through 6, the invariant a
/// migration runner expects: unique, monotonically increasing, no gaps.
pub fn migration_registry(
    sql_initial_tables: String,
    sql_book_id_text: String,
    sql_remove_user_id: String,
    sql_daily_goal: String,
    sql_daily_goal_second: String,
    sql_daily_goal_third: String,
) -> (ms: Vec<Migration>)
    ensures
        ms@.len() == 6,
        ms@[0].version == 1,
        ms@[0].description@ == "create_initial_tables"@,
        ms@[0].sql == sql_initial_tables,
        ms@[1].version == 2,
        ms@[1].description@ == "book_id_in_daily_stats_is_string"@,
        ms@[1].sql == sql_book_id_text,
        ms@[2].version == 3,
        ms@[2].description@ == "remove_user_id_column"@,
        ms@[2].sql == sql_remove_user_id,
        ms@[3].version == 4,
        ms@[3].description@ == "create_daily_goal_table"@,
        ms@[3].sql == sql_daily_goal,
        ms@[4].version == 5,
        ms@[4].description@ == "create_daily_goal_table"@,
        ms@[4].sql == sql_daily_goal_second,
        ms@[5].version == 6,
        ms@[5].description@ == "create_daily_goal_table"@,
        ms@[5].sql == sql_daily_goal_third,
        forall|i: int| 0 <= i < 6 ==> ms@[i].kind == MigrationKind::Up,
        versions_consecutive_from_one(ms@),
        versions_strictly_increasing(ms@),
{
    let mut ms: Vec<Migration> = Vec::new();
    ms.push(
        Migration {
            version: 1,
            description: String::from_str("create_initial_tables"),
            sql: sql_initial_tables,
            kind: MigrationKind::Up,
        },
    );
    ms.push(
        Migration {
            version: 2,
            description: String::from_str("book_id_in_daily_stats_is_string"),
            sql: sql_book_id_text,
            kind: MigrationKind::Up,
        },
    );
    ms.push(
        Migration {
            version: 3,
            description: String::from_str("remove_user_id_column"),
            sql: sql_remove_user_id,
            kind: MigrationKind::Up,
        },
    );
    ms.push(
        Migration {
            version: 4,
            description: String::from_str("create_daily_goal_table"),
            sql: sql_daily_goal,
            kind: MigrationKind::Up,
        },
    );
    ms.push(
        Migration {
            version: 5,
            description: String::from_str("create_daily_goal_table"),
            sql: sql_daily_goal_second,
            kind: MigrationKind::Up,
        },
    );
    ms.push(
        Migration {
            version: 6,
            description: String::from_str("create_daily_goal_table"),
            sql: sql_daily_goal_third,
            kind: MigrationKind::Up,
        },
    );
    proof {
        lemma_consecutive_implies_strictly_increasing(ms@);
    }
    ms
}

} // verus!
