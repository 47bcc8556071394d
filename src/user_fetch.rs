use vstd::prelude::*;

verus! {

/// The identifier that the stub answers with for every request.
pub const STUB_USER_ID: i32 = 1001;

/// What the stub answers for a request: the fixed identifier, whatever the
/// request was.
pub open spec fn fetched_id(request: int) -> int {
    STUB_USER_ID as int
}

/// Looks up a user: a stand-in that does not inspect its argument and always
/// returns `1001`.
pub fn fetch(_request: i32) -> (r: i32)
    ensures
        r as int == fetched_id(_request as int),
        r == 1001,
{
    STUB_USER_ID
}

} // verus!
