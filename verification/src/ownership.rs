//! The ownership guard: confirms that the authenticated account owns the
//! target resource before any mutation. The existence-and-owner lookup
//! itself belongs to the storage collaborator; the guard consumes its one
//! boolean answer, so a missing resource and a resource under another
//! owner are indistinguishable here and to every caller.

use vstd::prelude::*;
use crate::errors::Error;

verus! {

/// A storage world for the guard's laws and tests: resource id paired
/// with owning account id.
pub open spec fn spec_owns(records: Seq<(i32, i32)>, resource_id: i32, account_id: i32) -> bool {
    exists|i: int|
        0 <= i < records.len() && (#[trigger] records[i]).0 == resource_id && records[i].1
            == account_id
}

/// The storage collaborator's existence-and-owner lookup over an
/// in-memory world: whether some record has this id and this owner.
pub fn exists_with_owner(records: &Vec<(i32, i32)>, resource_id: i32, account_id: i32) -> (r:
    bool)
    ensures
        r == spec_owns(records@, resource_id, account_id),
{
    let mut i: usize = 0;
    while i < records.len()
        invariant
            0 <= i <= records@.len(),
            forall|j: int|
                0 <= j < i ==> !((#[trigger] records@[j]).0 == resource_id && records@[j].1
                    == account_id),
        decreases records@.len() - i,
    {
        let (rid, aid) = records[i];
        if rid == resource_id && aid == account_id {
            return true;
        }
        i = i + 1;
    }
    false
}

/// What the guard answers for the storage collaborator's boolean: a
/// `false`, for whatever reason, is `Unauthorized` and nothing more.
pub open spec fn spec_ownership_check(owned: bool) -> Result<(), Error> {
    if owned {
        Ok(())
    } else {
        Err(Error::Unauthorized)
    }
}

/// The ownership guard: passes exactly when the lookup affirmed the
/// ownership, and rejects with `Unauthorized` otherwise, never saying why.
pub fn ownership_check(owned: bool) -> (r: Result<(), Error>)
    ensures
        r == spec_ownership_check(owned),
{
    if owned {
        Ok(())
    } else {
        Err(Error::Unauthorized)
    }
}

/// A nonexistent resource and a resource owned by a different account are
/// one and the same rejection: in any world where no record pairs this
/// resource with this account, whether the resource is absent or held by
/// others, the guard answers exactly `Unauthorized`.
pub proof fn lemma_ownership_indistinguishable(
    records: Seq<(i32, i32)>,
    resource_id: i32,
    account_id: i32,
)
    requires
        forall|i: int|
            0 <= i < records.len() ==> !((#[trigger] records[i]).0 == resource_id && records[i].1
                == account_id),
    ensures
        spec_ownership_check(spec_owns(records, resource_id, account_id)) == Err::<(), Error>(
            Error::Unauthorized,
        ),
{
}

} // verus!
