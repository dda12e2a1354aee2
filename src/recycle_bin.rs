//! Safe deletion: objects move into a holding area under a fresh token, and
//! a ledger records where each of them came from.

use vstd::prelude::*;
use vstd::string::*;
use crate::errors::{DeleteError, LedgerError};
use crate::paths::{join, join_path, parent_of, parent_path, same_dir, is_same_dir};

verus! {

/// A held name: 32 lower-case hexadecimal digits.
pub open spec fn is_token(s: Seq<char>) -> bool {
    &&& s.len() == 32
    &&& forall|i: int| 0 <= i < s.len() ==> ('0' <= #[trigger] s[i] <= '9' || 'a' <= s[i] <= 'f')
}

/// Relies on uuid's `Uuid::new_v4` and `Uuid::simple`: a random version-4
/// UUID, written as 32 lower-case hexadecimal digits without hyphens.
#[verifier::external_body]
fn fresh_token() -> (r: String)
    ensures
        is_token(r@),
{
    uuid::Uuid::new_v4().simple().to_string()
}

/// One record of the ledger: where a held object came from, and the name it
/// is held under.
#[derive(Debug, Clone, PartialEq, Eq)]
pub struct RecycleBinEntry {
    pub orig_path: String,
    /// The held name, a fresh token.
    pub deleted_name: String,
}

/// The ledger of held objects, oldest first.
#[derive(Debug, Clone, Default)]
pub struct RecycleBin {
    pub entryes: Vec<RecycleBinEntry>,
}

/// What a safe delete does on the filesystem.
#[derive(Debug, Clone, PartialEq, Eq)]
pub enum DeletePlan {
    /// The object already sits in the holding area: remove it for good
    /// (recursively for a directory) and record nothing.
    RemoveInPlace { path: String },
    /// Rename the object into the holding area, then append `record` to the ledger.
    MoveToBin { from: String, to: String, record: RecycleBinEntry },
}

/// Whether the object at `orig` already sits in the holding area `bin_dir`.
pub open spec fn in_holding_area(orig: Seq<char>, bin_dir: Seq<char>) -> bool {
    same_dir(parent_of(orig), bin_dir)
}

/// `plan` is the safe delete of the object of `entry` into the holding area `bin_dir`.
pub open spec fn is_plan_for(plan: DeletePlan, entry: RecycleBinEntry, bin_dir: Seq<char>) -> bool {
    if in_holding_area(entry.orig_path@, bin_dir) {
        plan == (DeletePlan::RemoveInPlace { path: entry.orig_path })
    } else {
        plan matches DeletePlan::MoveToBin { from, to, record } && from == entry.orig_path && to@
            == join(bin_dir, entry.deleted_name@) && record == entry
    }
}

impl RecycleBinEntry {
    /// A record for the object at `orig_pth`, under a fresh token.
    pub fn new(orig_pth: &str) -> (r: RecycleBinEntry)
        ensures
            r.orig_path@ == orig_pth@,
            is_token(r.deleted_name@),
    {
        RecycleBinEntry { orig_path: String::from_str(orig_pth), deleted_name: fresh_token() }
    }

    /// Where the object is held inside the holding area `bin_dir`.
    pub fn held_path(&self, bin_dir: &str) -> (r: String)
        ensures
            r@ == join(bin_dir@, self.deleted_name@),
    {
        join_path(bin_dir, self.deleted_name.as_str())
    }

    /// The steps of safe-deleting the object of this record into the
    /// holding area `bin_dir`.
    pub fn safe_delete(&self, bin_dir: &str) -> (r: DeletePlan)
        ensures
            is_plan_for(r, *self, bin_dir@),
    {
        let parent = parent_path(self.orig_path.as_str());
        if is_same_dir(parent.as_str(), bin_dir) {
            DeletePlan::RemoveInPlace { path: self.orig_path.clone() }
        } else {
            DeletePlan::MoveToBin {
                from: self.orig_path.clone(),
                to: self.held_path(bin_dir),
                record: RecycleBinEntry {
                    orig_path: self.orig_path.clone(),
                    deleted_name: self.deleted_name.clone(),
                },
            }
        }
    }
}

impl RecycleBin {
    /// The empty ledger, which a missing ledger file stands for.
    pub fn new() -> (r: RecycleBin)
        ensures
            r.entryes@.len() == 0,
    {
        RecycleBin { entryes: Vec::new() }
    }

    /// Appends one record.
    pub fn append(&mut self, record: RecycleBinEntry)
        ensures
            final(self).entryes@ == old(self).entryes@.push(record),
    {
        self.entryes.push(record);
    }

    /// The ledger to store after a move into the holding area: the stored
    /// ledger (none where its file is missing) with `record` appended. A
    /// ledger that could not be read is reported, never replaced.
    pub fn after_move(stored: Result<Option<RecycleBin>, LedgerError>, record: RecycleBinEntry) -> (r:
        Result<RecycleBin, DeleteError>)
        ensures
            match stored {
                Ok(Some(b)) => r matches Ok(n) && n.entryes@ == b.entryes@.push(record),
                Ok(None) => r matches Ok(n) && n.entryes@ == seq![record],
                Err(e) => r == Err::<RecycleBin, DeleteError>(DeleteError::LedgerWriteFailed(e)),
            },
    {
        match stored {
            Ok(Some(b)) => {
                let mut b = b;
                b.append(record);
                Ok(b)
            },
            Ok(None) => {
                let mut b = RecycleBin::new();
                b.append(record);
                proof {
                    assert(b.entryes@ =~= seq![record]);
                }
                Ok(b)
            },
            Err(e) => Err(DeleteError::LedgerWriteFailed(e)),
        }
    }

    /// The number of records.
    pub fn len(&self) -> (r: usize)
        ensures
            r == self.entryes@.len(),
    {
        self.entryes.len()
    }
}

/// Safe-deleting an object that already sits in the holding area removes it
/// in place and brings no ledger record.
pub proof fn lemma_redelete_records_nothing(entry: RecycleBinEntry, bin_dir: Seq<char>, plan: DeletePlan)
    requires
        in_holding_area(entry.orig_path@, bin_dir),
        is_plan_for(plan, entry, bin_dir),
    ensures
        plan is RemoveInPlace,
        plan->path == entry.orig_path,
{
}

/// Safe-deleting an object from outside the holding area moves exactly that
/// object into it under the record's token; where no held object bears that
/// token yet, the holding area gains exactly one object, and appending the
/// plan's record grows the ledger by exactly that one record.
pub proof fn lemma_safe_delete_adds_one(
    entry: RecycleBinEntry,
    bin_dir: Seq<char>,
    plan: DeletePlan,
    held: Set<Seq<char>>,
    before: Seq<RecycleBinEntry>,
)
    requires
        !in_holding_area(entry.orig_path@, bin_dir),
        is_plan_for(plan, entry, bin_dir),
        held.finite(),
        !held.contains(entry.deleted_name@),
    ensures
        plan matches DeletePlan::MoveToBin { from, to, record } && from@ == entry.orig_path@
            && to@ == join(bin_dir, entry.deleted_name@) && record == entry,
        held.insert(entry.deleted_name@).len() == held.len() + 1,
        before.push(plan->record).len() == before.len() + 1,
        before.push(plan->record).drop_last() == before,
        before.push(plan->record).last().orig_path@ == entry.orig_path@,
        before.push(plan->record).last().deleted_name@ == entry.deleted_name@,
{
    assert(before.push(plan->record).drop_last() =~= before);
}

} // verus!
