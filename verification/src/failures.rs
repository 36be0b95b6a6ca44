//! Failures that the fake runtime is told to inject.

use std::collections::HashMap;

use vstd::prelude::*;

use crate::error::VmbError;

verus! {

broadcast use vstd::std_specs::hash::group_hash_axioms;

/// Knob naming the method a caller wants to fail.
#[derive(Debug, Clone, Copy, PartialEq, Eq, Structural, Hash)]
pub enum Method {
    Startup,
    ListCameras,
    OpenCamera,
    LoadSettings,
    GetFeatureInt,
    GetFeatureFloat,
    SetFeatureFloat,
    SetFeatureEnum,
    RunFeatureCommand,
    PayloadSize,
    AnnounceFrame,
    CaptureStart,
    QueueFrame,
    RegisterDiscovery,
}

impl Method {
    /// The position of the method in the list above.
    pub open spec fn position(self) -> u64 {
        match self {
            Method::Startup => 0,
            Method::ListCameras => 1,
            Method::OpenCamera => 2,
            Method::LoadSettings => 3,
            Method::GetFeatureInt => 4,
            Method::GetFeatureFloat => 5,
            Method::SetFeatureFloat => 6,
            Method::SetFeatureEnum => 7,
            Method::RunFeatureCommand => 8,
            Method::PayloadSize => 9,
            Method::AnnounceFrame => 10,
            Method::CaptureStart => 11,
            Method::QueueFrame => 12,
            Method::RegisterDiscovery => 13,
        }
    }

    /// The position of the method in the list above; it tells methods apart.
    pub fn ordinal(self) -> (n: u64)
        ensures
            n == self.position(),
            forall|m: Method| #[trigger] m.position() == n ==> m == self,
    {
        match self {
            Method::Startup => 0,
            Method::ListCameras => 1,
            Method::OpenCamera => 2,
            Method::LoadSettings => 3,
            Method::GetFeatureInt => 4,
            Method::GetFeatureFloat => 5,
            Method::SetFeatureFloat => 6,
            Method::SetFeatureEnum => 7,
            Method::RunFeatureCommand => 8,
            Method::PayloadSize => 9,
            Method::AnnounceFrame => 10,
            Method::CaptureStart => 11,
            Method::QueueFrame => 12,
            Method::RegisterDiscovery => 13,
        }
    }
}

spec fn key_at(entries: Seq<(Method, u128, VmbError)>, i: int) -> (Method, nat) {
    (entries[i].0, entries[i].1 as nat)
}

/// The entries are the armed failures, each listed once.
spec fn lists(
    entries: Seq<(Method, u128, VmbError)>,
    armed: Map<(Method, nat), VmbError>,
) -> bool {
    &&& forall|i: int, j: int|
        0 <= i < j < entries.len() ==> #[trigger] key_at(entries, i) != #[trigger] key_at(
            entries,
            j,
        )
    &&& forall|i: int|
        0 <= i < entries.len() ==> {
            &&& armed.contains_key(#[trigger] key_at(entries, i))
            &&& armed[key_at(entries, i)] == entries[i].2
        }
    &&& forall|k: (Method, nat)| #[trigger]
        armed.contains_key(k) ==> exists|i: int|
            0 <= i < entries.len() && #[trigger] key_at(entries, i) == k
}

/// The failures that are armed, and how often each method was called: for a
/// method, and for the number of its calls that come before the one to fail, the
/// error to return.
pub struct FailurePlan {
    entries: Vec<(Method, u128, VmbError)>,
    armed: Ghost<Map<(Method, nat), VmbError>>,
    /// Per-method invocation counters, by the position of the method.
    counters: HashMap<u64, u64>,
}

impl View for FailurePlan {
    type V = Map<(Method, nat), VmbError>;

    closed spec fn view(&self) -> Map<(Method, nat), VmbError> {
        self.armed@
    }
}

impl FailurePlan {
    /// How often the method was called.
    pub closed spec fn made(self, m: Method) -> nat {
        if self.counters@.contains_key(m.position()) {
            self.counters@[m.position()] as nat
        } else {
            0
        }
    }

    /// The failure that is armed for the next call of the method.
    pub open spec fn due(self, m: Method) -> Option<VmbError> {
        if self@.contains_key((m, self.made(m))) {
            Some(self@[(m, self.made(m))])
        } else {
            None
        }
    }

    /// The entries are the armed failures, each listed once.
    pub closed spec fn valid(self) -> bool {
        lists(self.entries@, self.armed@)
    }

    /// Nothing is armed, and nothing was called.
    pub fn new() -> (plan: Self)
        ensures
            plan.valid(),
            plan@ == Map::<(Method, nat), VmbError>::empty(),
            forall|m: Method| #[trigger] plan.made(m) == 0,
    {
        FailurePlan { entries: Vec::new(), armed: Ghost(Map::empty()), counters: HashMap::new() }
    }

    /// How often the method was called.
    fn count(&self, method: Method) -> (made: u64)
        ensures
            made == self.made(method),
    {
        let key = method.ordinal();
        match self.counters.get(&key) {
            Some(n) => *n,
            None => 0,
        }
    }

    /// Whether a failure is armed for the next call of the method.
    pub fn is_due(&self, method: Method) -> (due: bool)
        requires
            self.valid(),
        ensures
            due == (self.due(method) is Some),
    {
        self.find(method, self.count(method) as u128).is_some()
    }

    /// Make the `skip`-th future call of the method fail (0-indexed); a failure that
    /// was armed for the same call is replaced.
    pub fn arm(&mut self, method: Method, skip: u64, error: VmbError)
        requires
            old(self).valid(),
        ensures
            final(self).valid(),
            final(self)@ == old(self)@.insert(
                (method, old(self).made(method) + skip as nat),
                error,
            ),
            forall|m: Method| #[trigger] final(self).made(m) == old(self).made(m),
    {
        let at = self.count(method) as u128 + skip as u128;
        self.arm_at(method, at, error);
    }

    /// Count a call of the method. If that call was made to fail, return its error,
    /// which is then used up; otherwise return `Ok(())`.
    pub fn maybe_fail(&mut self, method: Method) -> (r: Result<(), VmbError>)
        requires
            old(self).valid(),
            old(self).made(method) < u64::MAX,
        ensures
            final(self).valid(),
            match old(self).due(method) {
                Some(e) => {
                    &&& r == Err::<(), VmbError>(e)
                    &&& final(self)@ == old(self)@.remove((method, old(self).made(method)))
                },
                None => r == Ok::<(), VmbError>(()) && final(self)@ == old(self)@,
            },
            forall|m: Method| #[trigger]
                final(self).made(m) == old(self).made(m) + if m == method {
                    1nat
                } else {
                    0nat
                },
    {
        let key = method.ordinal();
        let idx: u64 = self.count(method);
        let taken = self.take(method, idx as u128);
        let ghost before = *self;
        self.counters.insert(key, idx + 1);
        assert forall|m: Method| #[trigger] self.made(m) == before.made(m) + if m == method {
            1nat
        } else {
            0nat
        } by {}
        match taken {
            Some(err) => Err(err),
            None => {
                assert(old(self)@.remove((method, idx as nat)) =~= old(self)@);
                Ok(())
            },
        }
    }

    fn find(&self, method: Method, at: u128) -> (found: Option<usize>)
        requires
            self.valid(),
        ensures
            match found {
                Some(i) => {
                    &&& i < self.entries@.len()
                    &&& key_at(self.entries@, i as int) == (method, at as nat)
                },
                None => !self@.contains_key((method, at as nat)),
            },
    {
        let mut i: usize = 0;
        while i < self.entries.len()
            invariant
                i <= self.entries@.len(),
                forall|j: int|
                    0 <= j < i ==> #[trigger] key_at(self.entries@, j) != (method, at as nat),
            decreases self.entries@.len() - i,
        {
            if self.entries[i].0 == method && self.entries[i].1 == at {
                return Some(i);
            }
            i = i + 1;
        }
        None
    }

    /// Arm a failure for the call of the method that comes after `at` others.
    fn arm_at(&mut self, method: Method, at: u128, error: VmbError)
        requires
            old(self).valid(),
        ensures
            final(self).valid(),
            final(self).counters == old(self).counters,
            final(self)@ == old(self)@.insert((method, at as nat), error),
    {
        let ghost k = (method, at as nat);
        let ghost was = self.entries@;
        match self.find(method, at) {
            Some(i) => {
                self.entries.set(i, (method, at, error));
                self.armed = Ghost(self.armed@.insert(k, error));
                proof {
                    let now = self.entries@;
                    assert forall|j: int| 0 <= j < now.len() implies #[trigger] key_at(now, j)
                        == key_at(was, j) by {}
                    assert forall|q: (Method, nat)| #[trigger]
                        self.armed@.contains_key(q) implies exists|j: int|
                        0 <= j < now.len() && #[trigger] key_at(now, j) == q by {
                        if q != k {
                            let j = choose|j: int|
                                0 <= j < was.len() && #[trigger] key_at(was, j) == q;
                            assert(key_at(now, j) == q);
                        } else {
                            assert(key_at(now, i as int) == q);
                        }
                    }
                }
            },
            None => {
                self.entries.push((method, at, error));
                self.armed = Ghost(self.armed@.insert(k, error));
                proof {
                    let now = self.entries@;
                    let last = was.len() as int;
                    assert(key_at(now, last) == k);
                    assert forall|j: int| 0 <= j < last implies #[trigger] key_at(now, j)
                        == key_at(was, j) by {}
                    assert forall|q: (Method, nat)| #[trigger]
                        self.armed@.contains_key(q) implies exists|i: int|
                        0 <= i < now.len() && #[trigger] key_at(now, i) == q by {
                        if q != k {
                            let i = choose|i: int|
                                0 <= i < was.len() && #[trigger] key_at(was, i) == q;
                            assert(key_at(now, i) == q);
                        }
                    }
                }
            },
        }
    }

    /// Disarm the failure for a call, and return its error.
    fn take(&mut self, method: Method, at: u128) -> (taken: Option<VmbError>)
        requires
            old(self).valid(),
        ensures
            final(self).valid(),
            final(self).counters == old(self).counters,
            final(self)@ == old(self)@.remove((method, at as nat)),
            taken == if old(self)@.contains_key((method, at as nat)) {
                Some(old(self)@[(method, at as nat)])
            } else {
                None
            },
    {
        let ghost k = (method, at as nat);
        let ghost was = self.entries@;
        match self.find(method, at) {
            Some(i) => {
                let entry = self.entries.remove(i);
                self.armed = Ghost(self.armed@.remove(k));
                proof {
                    let now = self.entries@;
                    assert forall|j: int| 0 <= j < now.len() implies #[trigger] key_at(now, j)
                        == key_at(was, if j < i { j } else { j + 1 }) by {}
                    assert forall|q: (Method, nat)| #[trigger]
                        self.armed@.contains_key(q) implies exists|j: int|
                        0 <= j < now.len() && #[trigger] key_at(now, j) == q by {
                        let j = choose|j: int|
                            0 <= j < was.len() && #[trigger] key_at(was, j) == q;
                        assert(key_at(now, if j < i { j } else { j - 1 }) == q);
                    }
                }
                Some(entry.2)
            },
            None => {
                assert(self@.remove(k) =~= self@);
                None
            },
        }
    }
}

} // verus!
