//! Fresh identifiers for submissions.

use vstd::prelude::*;

verus! {

/// Length of a random identifier in its hyphenated form.
pub const RANDOM_ID_LEN: usize = 36;

/// Whether `id` has the shape of a submission id: the prefix `sub_` and a
/// random identifier of fixed length behind it.
pub open spec fn is_submission_id(id: Seq<char>) -> bool {
    id.len() == 4 + RANDOM_ID_LEN && id.subrange(0, 4) == "sub_"@
}

/// `uuid::Uuid::new_v4` and its `Display`: a random identifier, written in
/// the hyphenated form, which has 36 characters. Which identifier comes is
/// left open; two calls need not agree.
#[verifier::external_body]
pub(crate) fn random_id() -> (r: String)
    ensures
        r@.len() == RANDOM_ID_LEN,
{
    uuid::Uuid::new_v4().to_string()
}

/// A fresh submission id. It is made anew on every call and names nothing
/// durable.
pub fn new_submission_id() -> (r: String)
    ensures
        is_submission_id(r@),
{
    let id = "sub_".to_string().concat(random_id().as_str());
    proof {
        reveal_strlit("sub_");
        assert(id@.subrange(0, 4) =~= "sub_"@);
    }
    id
}

} // verus!
