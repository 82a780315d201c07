//! What the storage layer decides without touching the database: which
//! schema migrations an existing database needs, how attachments map to
//! their columns, and the shape of a full backup.
use vstd::prelude::*;

use crate::text::{push_signed_decimal, push_str, signed_decimal, string_from_chars};

pub mod backup;
pub mod document;

pub use backup::{AppBackup, FullTripBackup};
pub use document::{attachment_from_columns, attachment_params};

verus! {

/// The schema version that this library's migrations lead to.
pub const CURRENT_SCHEMA_VERSION: i64 = 3;

/// The migrations still to apply to a database at `version`, in order:
/// every migration number of 1..=3 above it.
pub open spec fn pending_migrations(version: int) -> Seq<i64> {
    let from = if version < 0 {
        0
    } else {
        version
    };
    Seq::new(if from < 3 { (3 - from) as nat } else { 0 }, |i: int| (from + 1 + i) as i64)
}

/// The migrations to run on a database whose `user_version` is `version`;
/// a database newer than this library is refused.
pub fn migration_plan(version: i64) -> (r: Result<Vec<i64>, String>)
    ensures
        match r {
            Ok(targets) => version <= CURRENT_SCHEMA_VERSION && targets@ == pending_migrations(
                version as int,
            ),
            Err(message) => version > CURRENT_SCHEMA_VERSION && message@ == "database schema version "@
                + signed_decimal(version as int) + " is newer than supported version 3"@,
        },
{
    if version > CURRENT_SCHEMA_VERSION {
        let mut out: Vec<char> = Vec::new();
        push_str(&mut out, "database schema version ");
        push_signed_decimal(&mut out, version);
        push_str(&mut out, " is newer than supported version 3");
        return Err(string_from_chars(out.as_slice()));
    }
    let mut targets: Vec<i64> = Vec::new();
    let mut target: i64 = 1;
    let ghost from: int = if version < 0 {
        0
    } else {
        version as int
    };
    while target <= CURRENT_SCHEMA_VERSION
        invariant
            1 <= target <= 4,
            from == if version < 0 {
                0
            } else {
                version as int
            },
            version <= 3,
            targets@ == (if target - 1 <= from {
                Seq::<i64>::empty()
            } else {
                pending_migrations(version as int).subrange(0, target - 1 - from)
            }),
        decreases 4 - target,
    {
        if target > version {
            targets.push(target);
        }
        target = target + 1;
        assert(targets@ =~= (if target - 1 <= from {
            Seq::<i64>::empty()
        } else {
            pending_migrations(version as int).subrange(0, target - 1 - from)
        }));
    }
    assert(pending_migrations(version as int).subrange(0, 3 - from) =~= pending_migrations(
        version as int,
    ));
    assert(from == 3 ==> pending_migrations(version as int) =~= Seq::<i64>::empty());
    Ok(targets)
}

} // verus!
