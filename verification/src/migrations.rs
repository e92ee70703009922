//! Management of migration identity: the `{timestamp}_{name}` id a migration
//! folder carries, and the clock-stamped folder name for a new migration.
//! Reading and writing the folders themselves is the host program's part.

use vstd::prelude::*;
use chrono::{Datelike, Timelike};
use crate::strutil::{spec_decimal, spec_zero_padded, render_u64_padded, str_eq};

verus! {

/// The file name for migration scripts, not including the file extension.
pub const MIGRATION_SCRIPT_FILENAME: &'static str = "migration";

/// A moment of the clock, reduced to the parts a migration id carries.
#[derive(Clone, Copy, PartialEq, Eq, Structural, Debug)]
pub struct Timestamp {
    pub year: i32,
    pub month: u32,
    pub day: u32,
    pub minute: u32,
    pub second: u32,
}

/// Relies on `chrono::Utc::now` and chrono's `Datelike`/`Timelike`
/// accessors: `month()` is 1 to 12, `day()` 1 to 31, `minute()` and
/// `second()` 0 to 59. The year is whatever the clock says.
#[verifier::external_body]
pub fn current_timestamp() -> (r: Timestamp)
    ensures
        1 <= r.month <= 12,
        1 <= r.day <= 31,
        r.minute <= 59,
        r.second <= 59,
{
    let now = chrono::Utc::now();
    Timestamp {
        year: now.year(),
        month: now.month(),
        day: now.day(),
        minute: now.minute(),
        second: now.second(),
    }
}

/// The rendered timestamp: year, month, day, minute and second, each
/// zero-padded (the year to four digits, the rest to two).
pub open spec fn spec_render_timestamp(ts: Timestamp) -> Seq<char> {
    spec_zero_padded(spec_decimal(ts.year as int), 4) + spec_zero_padded(
        spec_decimal(ts.month as int),
        2,
    ) + spec_zero_padded(spec_decimal(ts.day as int), 2) + spec_zero_padded(
        spec_decimal(ts.minute as int),
        2,
    ) + spec_zero_padded(spec_decimal(ts.second as int), 2)
}

/// Render a timestamp for a migration id.
pub fn render_timestamp(ts: &Timestamp) -> (r: String)
    requires
        ts.year >= 0,
    ensures
        r@ == spec_render_timestamp(*ts),
{
    let mut out = render_u64_padded(ts.year as u64, 4);
    out.append(render_u64_padded(ts.month as u64, 2).as_str());
    out.append(render_u64_padded(ts.day as u64, 2).as_str());
    out.append(render_u64_padded(ts.minute as u64, 2).as_str());
    out.append(render_u64_padded(ts.second as u64, 2).as_str());
    out
}

/// The folder name of a migration: `{timestamp}_{name}`.
pub open spec fn spec_migration_folder_name(ts: Timestamp, name: Seq<char>) -> Seq<char> {
    spec_render_timestamp(ts) + "_"@ + name
}

/// The folder name for a migration created at `ts`.
pub fn migration_folder_name(ts: &Timestamp, migration_name: &str) -> (r: String)
    requires
        ts.year >= 0,
    ensures
        r@ == spec_migration_folder_name(*ts, migration_name@),
{
    let mut out = render_timestamp(ts);
    out.append("_");
    out.append(migration_name);
    out
}

/// The folder name for a migration created now: the clock's timestamp, an
/// underscore, then the migration's name. `None` only when the clock
/// reports a negative proleptic year.
pub fn new_migration_folder_name(migration_name: &str) -> (r: Option<String>)
    ensures
        match r {
            Some(s) => exists|ts: Timestamp|
                ts.year >= 0 && 1 <= ts.month <= 12 && 1 <= ts.day <= 31 && ts.minute <= 59
                    && ts.second <= 59 && s@ == #[trigger] spec_migration_folder_name(
                    ts,
                    migration_name@,
                ),
            None => true,
        },
{
    let ts = current_timestamp();
    if ts.year >= 0 {
        let name = migration_folder_name(&ts, migration_name);
        proof {
            assert(name@ == spec_migration_folder_name(ts, migration_name@));
        }
        Some(name)
    } else {
        None
    }
}

/// An applied migration, as the migration store records it.
#[derive(Clone, PartialEq, Eq, Debug)]
pub struct Migration {
    pub name: String,
}

/// One migration of the migrations folder, known by its
/// `{timestamp}_{name}` id; the host program keeps the path beside it.
#[derive(Clone, PartialEq, Eq, Debug)]
pub struct MigrationFolder {
    pub folder_name: String,
}

/// Ghost mirror of [`MigrationFolder`].
#[verifier::ext_equal]
pub ghost struct MigrationFolderV {
    pub folder_name: Seq<char>,
}

impl DeepView for MigrationFolder {
    type V = MigrationFolderV;

    open spec fn deep_view(&self) -> MigrationFolderV {
        MigrationFolderV { folder_name: self.folder_name.deep_view() }
    }
}

/// Whether the folders stand in order of non-decreasing migration id.
pub open spec fn spec_sorted_by_id(folders: Seq<MigrationFolderV>) -> bool {
    forall|i: int, j: int|
        0 <= i < j < folders.len() ==> !crate::strutil::spec_str_lt(
            (#[trigger] folders[j]).folder_name,
            (#[trigger] folders[i]).folder_name,
        )
}

/// Sort migrations by increasing migration id — the order the folder
/// listing must be returned in. The result holds exactly the given
/// folders.
pub fn sort_migrations(folders: Vec<MigrationFolder>) -> (r: Vec<MigrationFolder>)
    ensures
        r.deep_view().to_multiset() == folders.deep_view().to_multiset(),
        spec_sorted_by_id(r.deep_view()),
{
    broadcast use vstd::seq_lib::group_to_multiset_ensures;

    let ghost orig = folders.deep_view();
    let mut remaining = folders;
    let total = remaining.len();
    let mut out: Vec<MigrationFolder> = Vec::new();
    let mut done: usize = 0;
    proof {
        assert(remaining.deep_view() =~= orig.skip(0int));
        assert(out.deep_view() =~= Seq::<MigrationFolderV>::empty());
        assert(out.deep_view().to_multiset() =~= orig.take(0int).to_multiset()) by {
            assert(orig.take(0int) =~= Seq::<MigrationFolderV>::empty());
        }
    }
    while remaining.len() > 0
        invariant
            done + remaining@.len() == total,
            orig.len() == total,
            remaining.deep_view() == orig.skip(done as int),
            out.deep_view().to_multiset() == orig.take(done as int).to_multiset(),
            out@.len() == done,
            spec_sorted_by_id(out.deep_view()),
        decreases remaining@.len(),
    {
        let ghost old_rem = remaining@;
        let x = remaining.remove(0);
        let ghost xv = x.deep_view();
        proof {
            assert(x.deep_view() == orig.skip(done as int)[0]);
            assert(orig.skip(done as int)[0] == orig[done as int]);
            assert(remaining@ =~= old_rem.drop_first());
            assert forall|k: int| 0 <= k < remaining@.len() implies remaining@[k].deep_view()
                == orig.skip(done + 1int)[k] by {
                assert(remaining@[k] == old_rem[k + 1]);
                assert(old_rem[k + 1].deep_view() == orig.skip(done as int)[k + 1]);
                assert(orig.skip(done as int)[k + 1] == orig[done + 1 + k]);
            }
            assert(remaining.deep_view() =~= orig.skip(done + 1int));
        }

        // The first position whose id is not below the new id.
        let mut k: usize = 0;
        let mut stop = false;
        while !stop && k < out.len()
            invariant
                k <= out@.len(),
                out@.len() < usize::MAX,
                out.deep_view().len() == out@.len(),
                xv == x.deep_view(),
                stop ==> k < out@.len() && !crate::strutil::spec_str_lt(
                    out.deep_view()[k as int].folder_name,
                    xv.folder_name,
                ),
                forall|m: int|
                    0 <= m < k ==> crate::strutil::spec_str_lt(
                        (#[trigger] out.deep_view()[m]).folder_name,
                        xv.folder_name,
                    ),
            decreases out@.len() - k + (if stop { 0int } else { 1int }),
        {
            if !crate::strutil::str_lt(out[k].folder_name.as_str(), x.folder_name.as_str()) {
                stop = true;
            } else {
                k = k + 1;
            }
        }
        proof {
            assert(k < out.deep_view().len() ==> !crate::strutil::spec_str_lt(
                out.deep_view()[k as int].folder_name,
                xv.folder_name,
            ));
        }
        let ghost pre_insert = out.deep_view();
        out.insert(k, x);
        proof {
            let inserted = out.deep_view();
            assert(inserted =~= pre_insert.insert(k as int, xv));
            // The multiset gains exactly the new element.
            assert(inserted.remove(k as int) =~= pre_insert);
            assert(inserted[k as int] == xv);
            inserted.to_multiset_ensures();
            assert(0 <= k < inserted.len());
            assert(inserted.remove(k as int).to_multiset() =~= inserted.to_multiset().remove(
                inserted[k as int],
            ));
            assert(inserted.to_multiset().remove(xv) =~= pre_insert.to_multiset());
            assert(inserted.contains(xv)) by {
                assert(inserted[k as int] == xv);
            }
            assert(inserted.to_multiset().count(xv) > 0);
            assert(inserted.to_multiset() =~= pre_insert.to_multiset().insert(xv));
            assert(orig.take(done + 1int) =~= orig.take(done as int).push(orig[done as int]));
            orig.take(done as int).to_multiset_ensures();
            assert(orig.take(done as int).push(orig[done as int]).to_multiset() =~= orig.take(
                done as int,
            ).to_multiset().insert(orig[done as int]));
            assert(orig.take(done + 1int).to_multiset() =~= orig.take(
                done as int,
            ).to_multiset().insert(xv));

            // Order is kept: everything before the spot is below the new
            // id, everything at or after it is at least the id at the
            // spot, hence at least the new id.
            assert forall|i: int, j: int|
                0 <= i < j < inserted.len() implies !crate::strutil::spec_str_lt(
                (#[trigger] inserted[j]).folder_name,
                (#[trigger] inserted[i]).folder_name,
            ) by {
                if i < k && j == k {
                    crate::strutil::lemma_str_lt_asym(
                        pre_insert[i].folder_name,
                        xv.folder_name,
                    );
                } else if i == k && j > k {
                    assert(inserted[j] == pre_insert[j - 1]);
                    assert(k < pre_insert.len());
                    if j - 1 > k {
                        assert(!crate::strutil::spec_str_lt(
                            pre_insert[j - 1].folder_name,
                            pre_insert[k as int].folder_name,
                        ));
                        crate::strutil::lemma_str_ge_trans(
                            xv.folder_name,
                            pre_insert[k as int].folder_name,
                            pre_insert[j - 1].folder_name,
                        );
                    }
                } else if i < k && j > k {
                    assert(inserted[i] == pre_insert[i]);
                    assert(inserted[j] == pre_insert[j - 1]);
                    if j - 1 > i {
                    } else {
                        assert(j - 1 == i);
                        assert(i < k);
                        crate::strutil::lemma_str_lt_asym(
                            pre_insert[i].folder_name,
                            xv.folder_name,
                        );
                        assert(false);
                    }
                } else if i > k && j > k {
                    assert(inserted[i] == pre_insert[i - 1]);
                    assert(inserted[j] == pre_insert[j - 1]);
                } else {
                    assert(i < k && j < k);
                    assert(inserted[i] == pre_insert[i]);
                    assert(inserted[j] == pre_insert[j]);
                }
            }
        }
        done = done + 1;
    }
    proof {
        assert(orig.take(orig.len() as int) =~= orig);
    }
    out
}

impl MigrationFolder {
    /// The `{timestamp}_{name}` formatted migration id.
    pub fn migration_id(&self) -> (r: &str)
        ensures
            r@ == self.folder_name@,
    {
        self.folder_name.as_str()
    }

    /// Whether an applied migration is the one this folder holds: the
    /// recorded name equals the folder's id.
    pub fn matches_applied_migration(&self, applied_migration: &Migration) -> (r: bool)
        ensures
            r == (applied_migration.name@ == self.folder_name@),
    {
        str_eq(applied_migration.name.as_str(), self.migration_id())
    }
}

} // verus!
