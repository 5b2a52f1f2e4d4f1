//! The state store: three collections behind three authorization-gated
//! write operations, with an event record for successful class writes.

use vstd::prelude::*;

use crate::assoc::assoc_map;
use crate::assoc::distinct_keys;
use crate::assoc::lemma_assoc_map_at;
use crate::assoc::lemma_assoc_map_contains;
use crate::assoc::lemma_assoc_map_push;
use crate::assoc::lemma_assoc_map_update;

verus! {

/// The authenticated principal the host attributes to a call. Only a
/// signed caller — one cryptographically attributable to an account,
/// verified by the host before the store is invoked — may write.
#[derive(Clone, Copy, Debug, PartialEq, Eq, Structural)]
pub enum CallerIdentity {
    /// The call is attributable to the account with this identifier.
    Signed(u64),
    /// The call carries no authenticated origin.
    Unsigned,
    /// The call originates from the host itself, not from an account.
    System,
}

/// Whether a caller may invoke the write operations.
pub open spec fn is_authorized(caller: CallerIdentity) -> bool {
    caller is Signed
}

/// A record emitted on a successful mutation, in operation order.
#[derive(Clone, Copy, Debug, PartialEq, Eq, Structural)]
pub enum Event {
    /// A caller stored a new class value.
    ValueStored { class_value: u32, caller: u64 },
}

/// Why a write operation was refused. Refused operations mutate nothing.
#[derive(Clone, Copy, Debug, PartialEq, Eq, Structural)]
pub enum Error {
    /// The caller is not an authenticated signed principal.
    Unauthorized,
    /// The student number is already registered and entries are write-once.
    DuplicateKey,
    /// Reserved for counter-style extensions that could overflow their
    /// numeric width; no current operation raises it.
    StorageOverflow,
}

/// The mathematical content of a store: what each collection maps, and
/// the events emitted so far.
#[verifier::ext_equal]
pub struct StoreView {
    /// The singleton class value, absent until first written.
    pub class_value: Option<u32>,
    /// Student number to student name; entries are write-once.
    pub students: Map<u32, u128>,
    /// Dormitory and bed number to student number; last writer wins.
    pub dorms: Map<(u32, u32), u32>,
    /// Every event emitted so far, oldest first.
    pub events: Seq<Event>,
}

impl StoreView {
    /// The view of a freshly initialized store: all collections empty.
    pub open spec fn initial() -> StoreView {
        StoreView {
            class_value: None,
            students: Map::empty(),
            dorms: Map::empty(),
            events: Seq::empty(),
        }
    }

    /// The student name registered under a number, if any.
    pub open spec fn student_of(self, student_number: u32) -> Option<u128> {
        if self.students.contains_key(student_number) {
            Some(self.students[student_number])
        } else {
            None
        }
    }

    /// The student assigned to a bed, if any.
    pub open spec fn dorm_of(self, dorm_number: u32, bed_number: u32) -> Option<u32> {
        if self.dorms.contains_key((dorm_number, bed_number)) {
            Some(self.dorms[(dorm_number, bed_number)])
        } else {
            None
        }
    }
}

/// What `set_class_info` does: for a signed caller, overwrite the class
/// value and append one event carrying the value and the caller; for any
/// other caller, leave the store unchanged and report `Unauthorized`.
pub open spec fn spec_set_class_info(
    s: StoreView,
    caller: CallerIdentity,
    class_value: u32,
) -> (StoreView, Result<(), Error>) {
    match caller {
        CallerIdentity::Signed(who) => (
            StoreView {
                class_value: Some(class_value),
                events: s.events.push(Event::ValueStored { class_value, caller: who }),
                ..s
            },
            Ok(()),
        ),
        _ => (s, Err(Error::Unauthorized)),
    }
}

/// What `set_student_info` does: for a signed caller and a fresh student
/// number, register the name and emit nothing; for a registered number,
/// leave the store unchanged and report `DuplicateKey`; for an unsigned
/// caller, leave the store unchanged and report `Unauthorized`.
pub open spec fn spec_set_student_info(
    s: StoreView,
    caller: CallerIdentity,
    student_number: u32,
    student_name: u128,
) -> (StoreView, Result<(), Error>) {
    if !is_authorized(caller) {
        (s, Err(Error::Unauthorized))
    } else if s.students.contains_key(student_number) {
        (s, Err(Error::DuplicateKey))
    } else {
        (
            StoreView { students: s.students.insert(student_number, student_name), ..s },
            Ok(()),
        )
    }
}

/// What `set_dorm_info` does: for a signed caller, assign the student to
/// the bed, overwriting any prior assignment of that bed, and emit
/// nothing; for an unsigned caller, leave the store unchanged and report
/// `Unauthorized`.
pub open spec fn spec_set_dorm_info(
    s: StoreView,
    caller: CallerIdentity,
    dorm_number: u32,
    bed_number: u32,
    student_number: u32,
) -> (StoreView, Result<(), Error>) {
    if !is_authorized(caller) {
        (s, Err(Error::Unauthorized))
    } else {
        (
            StoreView {
                dorms: s.dorms.insert((dorm_number, bed_number), student_number),
                ..s
            },
            Ok(()),
        )
    }
}

/// The store itself. Collections are kept as sequences of key-value
/// pairs with pairwise distinct keys; the view abstracts them to maps.
pub struct StateStore {
    class: Option<u32>,
    students: Vec<(u32, u128)>,
    dorms: Vec<((u32, u32), u32)>,
    events: Vec<Event>,
}

impl View for StateStore {
    type V = StoreView;

    closed spec fn view(&self) -> StoreView {
        StoreView {
            class_value: self.class,
            students: assoc_map(self.students@),
            dorms: assoc_map(self.dorms@),
            events: self.events@,
        }
    }
}

impl StateStore {
    /// The representation invariant: each collection holds at most one
    /// entry per key, so the sequences denote their maps unambiguously.
    pub closed spec fn wf(self) -> bool {
        distinct_keys(self.students@) && distinct_keys(self.dorms@)
    }

    /// A fresh store: no class value, no students, no assignments, no events.
    pub fn new() -> (s: StateStore)
        ensures
            s.wf(),
            s@ == StoreView::initial(),
    {
        let s = StateStore {
            class: None,
            students: Vec::new(),
            dorms: Vec::new(),
            events: Vec::new(),
        };
        proof {
            assert(s@ =~= StoreView::initial());
        }
        s
    }

    /// The position of the entry registered under `key`, if any.
    fn student_index(&self, key: u32) -> (r: Option<usize>)
        ensures
            match r {
                Some(i) => i < self.students@.len() && self.students@[i as int].0 == key,
                None => forall|j: int| 0 <= j < self.students@.len()
                    ==> self.students@[j].0 != key,
            },
    {
        let mut i: usize = 0;
        while i < self.students.len()
            invariant
                i <= self.students@.len(),
                forall|j: int| 0 <= j < i ==> self.students@[j].0 != key,
            decreases self.students@.len() - i,
        {
            if self.students[i].0 == key {
                return Some(i);
            }
            i = i + 1;
        }
        None
    }

    /// The position of the assignment for bed `(dorm_number, bed_number)`, if any.
    fn dorm_index(&self, dorm_number: u32, bed_number: u32) -> (r: Option<usize>)
        ensures
            match r {
                Some(i) => i < self.dorms@.len()
                    && self.dorms@[i as int].0 == (dorm_number, bed_number),
                None => forall|j: int| 0 <= j < self.dorms@.len()
                    ==> self.dorms@[j].0 != (dorm_number, bed_number),
            },
    {
        let mut i: usize = 0;
        while i < self.dorms.len()
            invariant
                i <= self.dorms@.len(),
                forall|j: int| 0 <= j < i ==> self.dorms@[j].0 != (dorm_number, bed_number),
            decreases self.dorms@.len() - i,
        {
            if self.dorms[i].0.0 == dorm_number && self.dorms[i].0.1 == bed_number {
                proof {
                    assert(self.dorms@[i as int].0 =~= (dorm_number, bed_number));
                }
                return Some(i);
            }
            proof {
                assert(self.dorms@[i as int].0 != (dorm_number, bed_number));
            }
            i = i + 1;
        }
        None
    }

    /// Overwrite the class value and record one event. Only a signed
    /// caller may write; any other caller changes nothing and is told so.
    pub fn set_class_info(&mut self, caller: CallerIdentity, class_value: u32) -> (r: Result<(), Error>)
        requires
            old(self).wf(),
        ensures
            final(self).wf(),
            r == spec_set_class_info(old(self)@, caller, class_value).1,
            final(self)@ == spec_set_class_info(old(self)@, caller, class_value).0,
    {
        match caller {
            CallerIdentity::Signed(who) => {
                self.class = Some(class_value);
                self.events.push(Event::ValueStored { class_value, caller: who });
                Ok(())
            },
            _ => Err(Error::Unauthorized),
        }
    }

    /// Register a student name under a fresh student number. Entries are
    /// write-once: a registered number is refused with `DuplicateKey`.
    /// Only a signed caller may write. Refusals change nothing.
    pub fn set_student_info(
        &mut self,
        caller: CallerIdentity,
        student_number: u32,
        student_name: u128,
    ) -> (r: Result<(), Error>)
        requires
            old(self).wf(),
        ensures
            final(self).wf(),
            r == spec_set_student_info(old(self)@, caller, student_number, student_name).1,
            final(self)@ == spec_set_student_info(old(self)@, caller, student_number, student_name).0,
    {
        match caller {
            CallerIdentity::Signed(_) => {
                match self.student_index(student_number) {
                    Some(i) => {
                        proof {
                            assert(self.students@[i as int].0 == student_number);
                            lemma_assoc_map_contains(self.students@, student_number);
                        }
                        Err(Error::DuplicateKey)
                    },
                    None => {
                        proof {
                            lemma_assoc_map_contains(self.students@, student_number);
                            lemma_assoc_map_push(self.students@, student_number, student_name);
                        }
                        self.students.push((student_number, student_name));
                        Ok(())
                    },
                }
            },
            _ => Err(Error::Unauthorized),
        }
    }

    /// Assign a student to a bed, overwriting any prior assignment of
    /// that bed. Only a signed caller may write; refusals change nothing.
    pub fn set_dorm_info(
        &mut self,
        caller: CallerIdentity,
        dorm_number: u32,
        bed_number: u32,
        student_number: u32,
    ) -> (r: Result<(), Error>)
        requires
            old(self).wf(),
        ensures
            final(self).wf(),
            r == spec_set_dorm_info(old(self)@, caller, dorm_number, bed_number, student_number).1,
            final(self)@ == spec_set_dorm_info(
                old(self)@,
                caller,
                dorm_number,
                bed_number,
                student_number,
            ).0,
    {
        match caller {
            CallerIdentity::Signed(_) => {
                match self.dorm_index(dorm_number, bed_number) {
                    Some(i) => {
                        proof {
                            lemma_assoc_map_update(self.dorms@, i as int, student_number);
                        }
                        self.dorms[i] = ((dorm_number, bed_number), student_number);
                        Ok(())
                    },
                    None => {
                        proof {
                            lemma_assoc_map_contains(self.dorms@, (dorm_number, bed_number));
                            lemma_assoc_map_push(
                                self.dorms@,
                                (dorm_number, bed_number),
                                student_number,
                            );
                        }
                        self.dorms.push(((dorm_number, bed_number), student_number));
                        Ok(())
                    },
                }
            },
            _ => Err(Error::Unauthorized),
        }
    }

    /// The class value most recently stored, if any.
    pub fn my_class(&self) -> (r: Option<u32>)
        ensures
            r == self@.class_value,
    {
        self.class
    }

    /// The student name registered under a number, if any.
    pub fn student_info(&self, student_number: u32) -> (r: Option<u128>)
        requires
            self.wf(),
        ensures
            r == self@.student_of(student_number),
    {
        match self.student_index(student_number) {
            Some(i) => {
                proof {
                    lemma_assoc_map_at(self.students@, i as int);
                }
                Some(self.students[i].1)
            },
            None => {
                proof {
                    lemma_assoc_map_contains(self.students@, student_number);
                }
                None
            },
        }
    }

    /// The student assigned to a bed, if any.
    pub fn dorm_info(&self, dorm_number: u32, bed_number: u32) -> (r: Option<u32>)
        requires
            self.wf(),
        ensures
            r == self@.dorm_of(dorm_number, bed_number),
    {
        match self.dorm_index(dorm_number, bed_number) {
            Some(i) => {
                proof {
                    lemma_assoc_map_at(self.dorms@, i as int);
                }
                Some(self.dorms[i].1)
            },
            None => {
                proof {
                    lemma_assoc_map_contains(self.dorms@, (dorm_number, bed_number));
                }
                None
            },
        }
    }

    /// Every event emitted so far, oldest first.
    pub fn events(&self) -> (evs: &Vec<Event>)
        ensures
            evs@ == self@.events,
    {
        &self.events
    }
}

} // verus!
