//! Laws of the three operations, stated and proved over the store view
//! and the transition functions the operations' contracts refer to.

use vstd::prelude::*;

use crate::store::CallerIdentity;
use crate::store::Error;
use crate::store::Event;
use crate::store::StoreView;
use crate::store::is_authorized;
use crate::store::spec_set_class_info;
use crate::store::spec_set_dorm_info;
use crate::store::spec_set_student_info;

verus! {

/// A signed caller always succeeds in setting the class value: the new
/// value replaces whatever was there, exactly one event carrying the
/// value and the caller is appended, and the other collections keep
/// every entry they had.
pub proof fn law_class_info_stores_and_emits(s: StoreView, who: u64, v: u32)
    ensures
        ({
            let (s2, r) = spec_set_class_info(s, CallerIdentity::Signed(who), v);
            &&& r == Ok::<(), Error>(())
            &&& s2.class_value == Some(v)
            &&& s2.events == s.events.push(Event::ValueStored { class_value: v, caller: who })
            &&& s2.students == s.students
            &&& s2.dorms == s.dorms
        }),
{
}

/// An unauthorized caller is refused by every operation, and the store
/// is left exactly as it was.
pub proof fn law_unauthorized_changes_nothing(
    s: StoreView,
    caller: CallerIdentity,
    v: u32,
    k: u32,
    n: u128,
    d: u32,
    b: u32,
    sn: u32,
)
    requires
        !is_authorized(caller),
    ensures
        spec_set_class_info(s, caller, v) == (s, Err::<(), Error>(Error::Unauthorized)),
        spec_set_student_info(s, caller, k, n) == (s, Err::<(), Error>(Error::Unauthorized)),
        spec_set_dorm_info(s, caller, d, b, sn) == (s, Err::<(), Error>(Error::Unauthorized)),
{
}

/// Whenever an operation reports an error, the store is left exactly as
/// it was: no partial writes and no events.
pub proof fn law_error_leaves_store_unchanged(
    s: StoreView,
    caller: CallerIdentity,
    v: u32,
    k: u32,
    n: u128,
    d: u32,
    b: u32,
    sn: u32,
)
    ensures
        spec_set_class_info(s, caller, v).1 is Err ==> spec_set_class_info(s, caller, v).0 == s,
        spec_set_student_info(s, caller, k, n).1 is Err ==> spec_set_student_info(
            s,
            caller,
            k,
            n,
        ).0 == s,
        spec_set_dorm_info(s, caller, d, b, sn).1 is Err ==> spec_set_dorm_info(
            s,
            caller,
            d,
            b,
            sn,
        ).0 == s,
{
}

/// Student entries are write-once: registering a fresh number succeeds,
/// and any further registration under that number — whatever name, and
/// whichever signed caller — is refused with `DuplicateKey`, leaving the
/// store, and in particular the first name, untouched.
pub proof fn law_student_info_write_once(
    s: StoreView,
    c1: CallerIdentity,
    c2: CallerIdentity,
    k: u32,
    n: u128,
    m: u128,
)
    requires
        is_authorized(c1),
        is_authorized(c2),
        !s.students.contains_key(k),
    ensures
        ({
            let (s1, r1) = spec_set_student_info(s, c1, k, n);
            let (s2, r2) = spec_set_student_info(s1, c2, k, m);
            &&& r1 == Ok::<(), Error>(())
            &&& s1.students[k] == n
            &&& r2 == Err::<(), Error>(Error::DuplicateKey)
            &&& s2 == s1
            &&& s2.students[k] == n
        }),
{
}

/// Bed assignments are last-writer-wins: a second assignment of the same
/// bed succeeds and replaces the first.
pub proof fn law_dorm_info_overwrites(
    s: StoreView,
    c1: CallerIdentity,
    c2: CallerIdentity,
    d: u32,
    b: u32,
    first: u32,
    second: u32,
)
    requires
        is_authorized(c1),
        is_authorized(c2),
    ensures
        ({
            let (s1, r1) = spec_set_dorm_info(s, c1, d, b, first);
            let (s2, r2) = spec_set_dorm_info(s1, c2, d, b, second);
            &&& r1 == Ok::<(), Error>(())
            &&& r2 == Ok::<(), Error>(())
            &&& s2.dorms.contains_key((d, b))
            &&& s2.dorms[(d, b)] == second
        }),
{
}

/// Assigning a bed is idempotent: repeating `set_dorm_info` with
/// identical arguments leaves exactly the state and result of the first
/// application, whoever the caller is.
pub proof fn law_dorm_info_idempotent(
    s: StoreView,
    caller: CallerIdentity,
    d: u32,
    b: u32,
    sn: u32,
)
    ensures
        ({
            let (s1, r1) = spec_set_dorm_info(s, caller, d, b, sn);
            let (s2, r2) = spec_set_dorm_info(s1, caller, d, b, sn);
            s2 == s1 && r2 == r1
        }),
{
    if is_authorized(caller) {
        let (s1, r1) = spec_set_dorm_info(s, caller, d, b, sn);
        let (s2, r2) = spec_set_dorm_info(s1, caller, d, b, sn);
        assert(s2.dorms =~= s1.dorms);
        assert(s2 =~= s1);
    }
}

} // verus!
