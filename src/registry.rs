use vstd::prelude::*;

use crate::endpoint::ClientEndpoint;

verus! {

/// The registry after `e` announces itself: unchanged when `e` is already
/// present, else `e` appended at the end.
pub open spec fn registered(s: Seq<ClientEndpoint>, e: ClientEndpoint) -> Seq<ClientEndpoint> {
    if s.contains(e) {
        s
    } else {
        s.push(e)
    }
}

/// The registry with every endpoint on port `port` taken out, the order of
/// the others kept.
pub open spec fn without_port(s: Seq<ClientEndpoint>, port: u16) -> Seq<ClientEndpoint> {
    s.filter(|e: ClientEndpoint| e.port != port)
}

/// The registered clients, in order of registration, each endpoint at most once.
pub struct ClientRegistry {
    entries: Vec<ClientEndpoint>,
}

impl View for ClientRegistry {
    type V = Seq<ClientEndpoint>;

    closed spec fn view(&self) -> Seq<ClientEndpoint> {
        self.entries@
    }
}

impl ClientRegistry {
    /// No endpoint is held twice.
    #[verifier::type_invariant]
    pub closed spec fn entries_unique(&self) -> bool {
        self.entries@.no_duplicates()
    }

    /// The invariant is what `wf` states.
    pub proof fn lemma_unique_wf(&self)
        requires
            self.entries_unique(),
        ensures
            self.wf(),
    {
    }

    /// No endpoint is held twice.
    pub open spec fn wf(&self) -> bool {
        self@.no_duplicates()
    }

    pub fn new() -> (r: ClientRegistry)
        ensures
            r@ == Seq::<ClientEndpoint>::empty(),
            r.wf(),
    {
        ClientRegistry { entries: Vec::new() }
    }

    pub fn len(&self) -> (r: usize)
        ensures
            r == self@.len(),
            self.wf(),
    {
        proof {
            use_type_invariant(self);
        }
        self.entries.len()
    }

    pub fn contains(&self, e: &ClientEndpoint) -> (r: bool)
        ensures
            r == self@.contains(*e),
    {
        let mut i: usize = 0;
        while i < self.entries.len()
            invariant
                0 <= i <= self@.len(),
                forall|j: int| 0 <= j < i ==> self@[j] != *e,
            decreases self@.len() - i,
        {
            if self.entries[i] == *e {
                return true;
            }
            i = i + 1;
        }
        false
    }

    /// Adds `e` at the end unless it is already present; tells whether it was added.
    pub fn register(&mut self, e: ClientEndpoint) -> (added: bool)
        ensures
            final(self)@ == registered(old(self)@, e),
            added == !old(self)@.contains(e),
            final(self).wf(),
    {
        proof {
            use_type_invariant(&*self);
        }
        if self.contains(&e) {
            false
        } else {
            let mut grown = self.entries.clone();
            grown.push(e);
            self.entries = grown;
            proof {
                use_type_invariant(&*self);
            }
            true
        }
    }

    /// Takes out every endpoint whose port is `port`, whatever its address.
    pub fn remove_port(&mut self, port: u16)
        ensures
            final(self)@ == without_port(old(self)@, port),
            final(self).wf(),
    {
        proof {
            use_type_invariant(&*self);
        }
        let ghost s = self@;
        let ghost pred = |e: ClientEndpoint| e.port != port;
        let mut kept: Vec<ClientEndpoint> = Vec::new();
        let mut i: usize = 0;
        while i < self.entries.len()
            invariant
                s == self@,
                s.no_duplicates(),
                0 <= i <= s.len(),
                pred == (|e: ClientEndpoint| e.port != port),
                kept@ == s.subrange(0, i as int).filter(pred),
                kept@.no_duplicates(),
                forall|x: ClientEndpoint| kept@.contains(x) ==> s.subrange(0, i as int).contains(x),
            decreases s.len() - i,
        {
            let e = self.entries[i];
            let ghost before = kept@;
            proof {
                assert(s.subrange(0, i + 1) =~= s.subrange(0, i as int).push(e));
                s.subrange(0, i as int).lemma_filter_push(e, pred);
            }
            if e.port != port {
                proof {
                    assert(!s.subrange(0, i as int).contains(e));
                }
                kept.push(e);
                proof {
                    assert(!before.contains(e));
                    assert forall|x: ClientEndpoint| kept@.contains(x) implies s.subrange(
                        0,
                        i + 1,
                    ).contains(x) by {
                        let k = choose|k: int| 0 <= k < kept@.len() && kept@[k] == x;
                        if k < before.len() {
                            assert(before[k] == x);
                            assert(before.contains(x));
                            let j = choose|j: int|
                                0 <= j < i && s.subrange(0, i as int)[j] == x;
                            assert(s.subrange(0, i + 1)[j] == x);
                        } else {
                            assert(s.subrange(0, i + 1)[i as int] == x);
                        }
                    }
                    assert forall|a: int, b: int|
                        0 <= a < kept@.len() && 0 <= b < kept@.len() && a != b implies kept@[a]
                        != kept@[b] by {
                        if a < before.len() && b < before.len() {
                        } else if a < before.len() {
                            assert(before.contains(kept@[a]));
                        } else if b < before.len() {
                            assert(before.contains(kept@[b]));
                        }
                    }
                }
            } else {
                proof {
                    assert forall|x: ClientEndpoint| kept@.contains(x) implies s.subrange(
                        0,
                        i + 1,
                    ).contains(x) by {
                        let j = choose|j: int| 0 <= j < i && s.subrange(0, i as int)[j] == x;
                        assert(s.subrange(0, i + 1)[j] == x);
                    }
                }
            }
            i = i + 1;
        }
        proof {
            assert(s.subrange(0, s.len() as int) =~= s);
        }
        self.entries = kept;
    }

    /// The registered endpoints, in order of registration.
    pub fn snapshot(&self) -> (r: Vec<ClientEndpoint>)
        ensures
            r@ == self@,
    {
        self.entries.clone()
    }
}

} // verus!
