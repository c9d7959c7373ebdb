//! The name under which the runtime entry-point attributes keep the user's async
//! function: `#[treadmill::main]` and `#[treadmill::test]` move the body of
//! `async fn f` to `async fn treadmill_f`, and generate a synchronous `f` that builds a
//! default runtime and blocks on `treadmill_f()`.
use vstd::prelude::*;
use vstd::string::StringExecFns;

verus! {

/// The prefix given to the name of the function that keeps the async body.
pub open spec fn spec_prefix() -> Seq<char> {
    seq!['t', 'r', 'e', 'a', 'd', 'm', 'i', 'l', 'l', '_']
}

/// The name of the function that keeps the async body of the function `name`.
pub fn prefixed_name(name: &str) -> (renamed: String)
    ensures
        renamed@ == spec_prefix() + name@,
{
    let prefix = "treadmill_";
    proof {
        reveal_strlit("treadmill_");
    }
    assert(prefix@ =~= spec_prefix());
    String::from_str(prefix).concat(name)
}

} // verus!
