//! The health reporter: a serving state per registered service name,
//! flipped by the aggregator's liveness and queried by clients. Unknown
//! service names are a `NotFound` error.

use vstd::prelude::*;
use crate::ErrorKind;
use crate::visitor::str_eq;

verus! {

/// The serving state of one service.
#[derive(Clone, Copy, Debug, PartialEq, Eq, Structural)]
pub enum ServingStatus {
    Serving,
    NotServing,
}

/// The first status registered under `name`, scanning front to back.
pub open spec fn spec_status(
    entries: Seq<(String, ServingStatus)>,
    name: Seq<char>,
) -> Option<ServingStatus>
    decreases entries.len(),
{
    if entries.len() == 0 {
        None
    } else if entries[0].0@ == name {
        Some(entries[0].1)
    } else {
        spec_status(entries.drop_first(), name)
    }
}

/// Looking a name up in a concatenation: the front list wins.
pub proof fn lemma_status_append(a: Seq<(String, ServingStatus)>, b: Seq<(String, ServingStatus)>, name: Seq<char>)
    ensures
        spec_status(a + b, name) == match spec_status(a, name) {
            Some(s) => Some(s),
            None => spec_status(b, name),
        },
    decreases a.len(),
{
    if a.len() == 0 {
        assert(a + b =~= b);
    } else {
        assert((a + b)[0] == a[0]);
        assert((a + b).drop_first() =~= a.drop_first() + b);
        lemma_status_append(a.drop_first(), b, name);
    }
}

/// Tracks a serving state per service name. Entries are kept unique by
/// name; a lookup returns the first (hence only) match.
pub struct HealthReporter {
    pub entries: Vec<(String, ServingStatus)>,
}

impl HealthReporter {
    /// The status registered for a service name, if any.
    pub open spec fn status_of(self, name: Seq<char>) -> Option<ServingStatus> {
        spec_status(self.entries@, name)
    }

    pub fn new() -> (r: Self)
        ensures
            r.entries@.len() == 0,
            forall|name: Seq<char>| r.status_of(name) is None,
    {
        HealthReporter { entries: Vec::new() }
    }

    /// Registers or replaces the status for `name`, leaving every other
    /// service's status as it was.
    pub fn set_service_status(&mut self, name: &str, status: ServingStatus)
        ensures
            final(self).status_of(name@) == Some(status),
            forall|other: Seq<char>| other != name@ ==> final(self).status_of(other) == old(
                self,
            ).status_of(other),
    {
        let ghost entries0 = self.entries@;
        let mut idx: usize = 0;
        let mut found: bool = false;
        let n = self.entries.len();
        while idx < n && !found
            invariant
                self.entries@ == entries0,
                n == entries0.len(),
                0 <= idx <= n,
                !found ==> forall|j: int| 0 <= j < idx ==> entries0[j].0@ != name@,
                found ==> idx < n && entries0[idx as int].0@ == name@,
            decreases n - idx + (if found { 0int } else { 1int }),
        {
            if str_eq(self.entries[idx].0.as_str(), name) {
                found = true;
            } else {
                idx = idx + 1;
            }
        }
        if found {
            let _ = self.entries.remove(idx);
            proof {
                assert(self.entries@ =~= entries0.subrange(0, idx as int) + entries0.subrange(
                    idx + 1,
                    entries0.len() as int,
                ));
            }
        }
        let ghost kept = self.entries@;
        self.entries.insert(0, (name.to_owned(), status));
        proof {
            assert(self.entries@.len() == kept.len() + 1);
            let e = self.entries@[0];
            assert(e.0@ == name@ && e.1 == status);
            assert(self.entries@ =~= seq![e] + kept);
            assert forall|other: Seq<char>| other != name@ implies spec_status(self.entries@, other)
                == spec_status(entries0, other) by {
                lemma_status_append(seq![e], kept, other);
                assert(seq![e].drop_first() =~= Seq::<(String, ServingStatus)>::empty());
                assert(spec_status(seq![e].drop_first(), other) is None);
                assert(spec_status(seq![e], other) is None);
                if found {
                    let a = entries0.subrange(0, idx as int);
                    let m = entries0.subrange(idx as int, idx + 1);
                    let b = entries0.subrange(idx + 1, entries0.len() as int);
                    assert(entries0 =~= a + (m + b));
                    assert(kept =~= a + b);
                    lemma_status_append(a, m + b, other);
                    lemma_status_append(a, b, other);
                    lemma_status_append(m, b, other);
                    assert(m[0] == entries0[idx as int]);
                    assert(m.drop_first() =~= Seq::<(String, ServingStatus)>::empty());
                    assert(spec_status(m.drop_first(), other) is None);
                    assert(spec_status(m, other) is None);
                }
            }
            assert(spec_status(self.entries@, name@) == Some(status));
        }
    }

    /// The standard health query: the current status for a service name,
    /// or `NotFound` for a name never registered.
    pub fn check(&self, name: &str) -> (r: Result<ServingStatus, ErrorKind>)
        ensures
            r == match self.status_of(name@) {
                Some(s) => Ok::<ServingStatus, ErrorKind>(s),
                None => Err::<ServingStatus, ErrorKind>(ErrorKind::NotFound),
            },
    {
        let n = self.entries.len();
        let mut idx: usize = 0;
        proof {
            assert(self.entries@.subrange(0, n as int) =~= self.entries@);
        }
        while idx < n
            invariant
                n == self.entries@.len(),
                0 <= idx <= n,
                spec_status(self.entries@, name@) == spec_status(
                    self.entries@.subrange(idx as int, n as int),
                    name@,
                ),
            decreases n - idx,
        {
            let suffix_first_matches = str_eq(self.entries[idx].0.as_str(), name);
            proof {
                let suf = self.entries@.subrange(idx as int, n as int);
                assert(suf[0] == self.entries@[idx as int]);
                assert(suf.drop_first() =~= self.entries@.subrange(idx + 1, n as int));
            }
            if suffix_first_matches {
                return Ok(self.entries[idx].1);
            }
            idx = idx + 1;
        }
        proof {
            assert(self.entries@.subrange(n as int, n as int) =~= Seq::<(
                String,
                ServingStatus,
            )>::empty());
        }
        Err(ErrorKind::NotFound)
    }
}

/// The registered name of the instrumentation service.
pub open spec fn spec_instrument_name() -> Seq<char> {
    "rs.devtools.instrument.Instrument"@
}

/// The registered name of the host-introspection service.
pub open spec fn spec_tauri_name() -> Seq<char> {
    "rs.devtools.tauri.Tauri"@
}

pub fn instrument_service_name() -> (r: &'static str)
    ensures
        r@ == spec_instrument_name(),
{
    "rs.devtools.instrument.Instrument"
}

pub fn tauri_service_name() -> (r: &'static str)
    ensures
        r@ == spec_tauri_name(),
{
    "rs.devtools.tauri.Tauri"
}

} // verus!
