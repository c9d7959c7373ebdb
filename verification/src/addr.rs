//! Trying the addresses a name resolves to, one after the other.
use vstd::prelude::*;

verus! {

/// The call of `f` on `a` may fail.
pub open spec fn may_fail<A, T, E, F: Fn(A) -> Result<T, E>>(f: F, a: A) -> bool {
    exists|e: E| call_ensures(f, (a,), Err(e))
}

/// Calls `f` on each address in turn and gives back the value of the first call that
/// succeeds; the addresses after it are not tried. Gives back `None` when every call
/// failed, or when there is no address at all.
pub fn for_each_addr<A: Copy, T, E, F: Fn(A) -> Result<T, E>>(addrs: &Vec<A>, f: F) -> (found:
    Option<T>)
    requires
        forall|i: int| 0 <= i < addrs@.len() ==> call_requires(f, (#[trigger] addrs@[i],)),
    ensures
        found is Some ==> exists|i: int|
            0 <= i < addrs@.len() && call_ensures(f, (#[trigger] addrs@[i],), Ok(found->0)) && (
            forall|j: int| 0 <= j < i ==> may_fail(f, #[trigger] addrs@[j])),
        found is None ==> forall|j: int| 0 <= j < addrs@.len() ==> may_fail(f, #[trigger] addrs@[j]),
{
    let mut i: usize = 0;
    while i < addrs.len()
        invariant
            i <= addrs@.len(),
            forall|k: int| 0 <= k < addrs@.len() ==> call_requires(f, (#[trigger] addrs@[k],)),
            forall|j: int| 0 <= j < i ==> may_fail(f, #[trigger] addrs@[j]),
        decreases addrs@.len() - i,
    {
        let addr = addrs[i];
        let r = f(addr);
        match r {
            Ok(t) => {
                assert(call_ensures(f, (addrs@[i as int],), Ok(t)));
                return Some(t);
            },
            Err(e) => {
                assert(call_ensures(f, (addrs@[i as int],), Err(e)));
                assert(may_fail(f, addrs@[i as int]));
            },
        }
        i = i + 1;
    }
    None
}

} // verus!
