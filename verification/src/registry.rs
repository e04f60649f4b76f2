//! Client registry: the endpoints that completed the init handshake, in
//! registration order, one entry per distinct address, append-only.

use vstd::prelude::*;

verus! {

/// A remote endpoint: an IPv4 address held as one 32-bit value, and a port.
#[derive(Debug, Clone, Copy, PartialEq, Eq, Structural)]
pub struct ClientEndpoint {
    pub ip: u32,
    pub port: u16,
}

/// What registering an address does to the registered sequence: nothing if
/// it is already there, an append at the end if it is new.
pub open spec fn spec_register(s: Seq<ClientEndpoint>, c: ClientEndpoint) -> Seq<ClientEndpoint> {
    if s.contains(c) {
        s
    } else {
        s.push(c)
    }
}

/// Ordered, deduplicated list of registered endpoints.
#[derive(Debug)]
pub struct ClientRegistry {
    clients: Vec<ClientEndpoint>,
}

impl View for ClientRegistry {
    type V = Seq<ClientEndpoint>;

    closed spec fn view(&self) -> Seq<ClientEndpoint> {
        self.clients@
    }
}

impl ClientRegistry {
    /// Well-formed: no address appears twice.
    pub open spec fn inv(&self) -> bool {
        forall|i: int, j: int| 0 <= i < j < self@.len() ==> self@[i] != self@[j]
    }

    pub fn new() -> (r: ClientRegistry)
        ensures
            r@ == Seq::<ClientEndpoint>::empty(),
            r.inv(),
    {
        ClientRegistry { clients: Vec::new() }
    }

    pub fn len(&self) -> (n: usize)
        ensures
            n == self@.len(),
    {
        self.clients.len()
    }

    /// The endpoint at a registration rank.
    pub fn get(&self, i: usize) -> (c: ClientEndpoint)
        requires
            i < self@.len(),
        ensures
            c == self@[i as int],
    {
        self.clients[i]
    }

    /// Whether an address is already registered (linear scan).
    pub fn contains(&self, c: ClientEndpoint) -> (present: bool)
        ensures
            present == self@.contains(c),
    {
        let mut i: usize = 0;
        while i < self.clients.len()
            invariant
                i <= self.clients.len(),
                self.clients@ == self@,
                forall|j: int| 0 <= j < i ==> self@[j] != c,
            decreases self.clients.len() - i,
        {
            if self.clients[i] == c {
                assert(self@[i as int] == c);
                return true;
            }
            i += 1;
        }
        false
    }

    /// Register an address: append it if absent, leave the registry
    /// unchanged if it is already there. Returns whether an entry was
    /// added, so a caller can log the duplicate as the warning it is,
    /// not an error.
    pub fn register(&mut self, c: ClientEndpoint) -> (added: bool)
        requires
            old(self).inv(),
        ensures
            final(self).inv(),
            final(self)@ == spec_register(old(self)@, c),
            added == !old(self)@.contains(c),
    {
        if self.contains(c) {
            false
        } else {
            self.clients.push(c);
            true
        }
    }

    /// The ordered address sequence, copied out for the arbiter and the
    /// dispatch engine to read.
    pub fn snapshot(&self) -> (r: Vec<ClientEndpoint>)
        ensures
            r@ == self@,
    {
        let mut r: Vec<ClientEndpoint> = Vec::new();
        let mut i: usize = 0;
        while i < self.clients.len()
            invariant
                i <= self.clients.len(),
                self.clients@ == self@,
                r@ == self@.subrange(0, i as int),
            decreases self.clients.len() - i,
        {
            r.push(self.clients[i]);
            assert(r@ =~= self@.subrange(0, i + 1));
            i += 1;
        }
        assert(r@ =~= self@);
        r
    }
}

/// Registration is idempotent: registering an address a second time leaves
/// the sequence exactly as the first registration left it, and a single
/// registration of a new address grows it by exactly one entry.
pub proof fn lemma_register_idempotent(s: Seq<ClientEndpoint>, c: ClientEndpoint)
    ensures
        spec_register(spec_register(s, c), c) == spec_register(s, c),
        !s.contains(c) ==> spec_register(s, c).len() == s.len() + 1,
        s.contains(c) ==> spec_register(s, c) == s,
{
    if !s.contains(c) {
        assert(spec_register(s, c)[s.len() as int] == c);
        assert(spec_register(s, c).contains(c));
    }
}

} // verus!
