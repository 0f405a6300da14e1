//! A rotating registry of upstream tunnel endpoints.
//!
//! The registry keeps its endpoints in insertion order, without duplicates,
//! and a cursor that selects the next one to hand out. Inserting never moves
//! the cursor, so the rotation position survives growth.
use vstd::arithmetic::div_mod::{lemma_mod_add_multiples_vanish, lemma_mod_self_0, lemma_small_mod};
use vstd::prelude::*;

verus! {

/// A network destination: an IP address and a port.
///
/// Equality is structural: two endpoints are equal exactly when every field
/// agrees.
#[derive(Clone, Copy, Debug, PartialEq, Eq, Hash, Structural)]
#[allow(inconsistent_fields)]
pub enum Endpoint {
    /// An IPv4 address, as its 32-bit big-endian value, and a port.
    V4 { ip: u32, port: u16 },
    /// An IPv6 address, as its 128-bit big-endian value, a port, and the
    /// flow label and scope identifier of the address.
    V6 { ip: u128, port: u16, flowinfo: u32, scope_id: u32 },
}

/// Returned by a selection on a registry that holds no endpoint.
#[derive(Clone, Copy, Debug, PartialEq, Eq, Structural)]
pub struct EmptyRegistryError;

/// The mathematical state of a registry: its endpoints in insertion order
/// and the index of the one that the next selection returns.
pub struct RegistryModel {
    pub endpoints: Seq<Endpoint>,
    pub cursor: nat,
}

impl RegistryModel {
    /// The registry as created: no endpoint, cursor at zero.
    pub open spec fn empty() -> RegistryModel {
        RegistryModel { endpoints: Seq::empty(), cursor: 0 }
    }

    /// No endpoint appears twice, and the cursor is a valid index whenever
    /// there is an endpoint to point at (zero otherwise).
    pub open spec fn wf(self) -> bool {
        &&& self.endpoints.no_duplicates()
        &&& if self.endpoints.len() == 0 {
            self.cursor == 0
        } else {
            self.cursor < self.endpoints.len()
        }
    }

    /// Appends `e` unless it is already present; the cursor is kept.
    pub open spec fn insert(self, e: Endpoint) -> RegistryModel {
        if self.endpoints.contains(e) {
            self
        } else {
            RegistryModel { endpoints: self.endpoints.push(e), cursor: self.cursor }
        }
    }

    /// What a selection returns: the endpoint under the cursor, or the
    /// empty-registry error.
    pub open spec fn selected(self) -> Result<Endpoint, EmptyRegistryError> {
        if self.endpoints.len() == 0 {
            Err(EmptyRegistryError)
        } else {
            Ok(self.endpoints[self.cursor as int])
        }
    }

    /// The state after a selection: the cursor moves one step, wrapping
    /// around at the end. An empty registry is left as it is.
    pub open spec fn advanced(self) -> RegistryModel {
        if self.endpoints.len() == 0 {
            self
        } else {
            RegistryModel {
                endpoints: self.endpoints,
                cursor: ((self.cursor + 1) % self.endpoints.len()) as nat,
            }
        }
    }
}

/// The registry built by inserting the endpoints of `es` one after another
/// into an empty registry.
pub open spec fn built_from(es: Seq<Endpoint>) -> RegistryModel
    decreases es.len(),
{
    if es.len() == 0 {
        RegistryModel::empty()
    } else {
        built_from(es.drop_last()).insert(es.last())
    }
}

/// The results of `k` successive selections starting from `m`.
pub open spec fn selections(m: RegistryModel, k: nat) -> Seq<Result<Endpoint, EmptyRegistryError>>
    decreases k,
{
    if k == 0 {
        Seq::empty()
    } else {
        seq![m.selected()] + selections(m.advanced(), (k - 1) as nat)
    }
}

/// Building a registry from distinct endpoints keeps them in insertion
/// order, with the cursor at zero.
proof fn lemma_built_from(es: Seq<Endpoint>)
    requires
        es.no_duplicates(),
    ensures
        built_from(es).endpoints == es,
        built_from(es).cursor == 0,
        built_from(es).wf(),
    decreases es.len(),
{
    if es.len() > 0 {
        let prefix = es.drop_last();
        assert(prefix.no_duplicates());
        lemma_built_from(prefix);
        assert(!prefix.contains(es.last())) by {
            if prefix.contains(es.last()) {
                let j = choose|j: int| 0 <= j < prefix.len() && prefix[j] == es.last();
                assert(es[j] == es[es.len() - 1]);
            }
        }
        assert(prefix.push(es.last()) == es);
    }
}

/// From a well-formed, non-empty state, the `i`-th of `k` successive
/// selections returns the endpoint `i` places after the cursor, wrapping
/// around.
proof fn lemma_selections(m: RegistryModel, k: nat)
    requires
        m.wf(),
        m.endpoints.len() > 0,
    ensures
        selections(m, k).len() == k,
        forall|i: int|
            0 <= i < k ==> #[trigger] selections(m, k)[i] == Ok::<Endpoint, EmptyRegistryError>(
                m.endpoints[(m.cursor + i) % m.endpoints.len() as int],
            ),
    decreases k,
{
    if k > 0 {
        let n = m.endpoints.len() as int;
        let next = m.advanced();
        lemma_selections(next, (k - 1) as nat);
        assert forall|i: int| 0 <= i < k implies #[trigger] selections(m, k)[i] == Ok::<
            Endpoint,
            EmptyRegistryError,
        >(m.endpoints[(m.cursor + i) % n]) by {
            if i == 0 {
                lemma_small_mod(m.cursor, n as nat);
            } else {
                assert(selections(m, k)[i] == selections(next, (k - 1) as nat)[i - 1]);
                if m.cursor + 1 < n {
                    lemma_small_mod((m.cursor + 1) as nat, n as nat);
                } else {
                    lemma_mod_self_0(n);
                    lemma_mod_add_multiples_vanish(i - 1, n);
                }
            }
        }
    }
}

/// Round-robin order: after the distinct endpoints `es` are inserted in
/// order into an empty registry, successive selections return `es[0]`,
/// `es[1]`, ..., the last one, and then the same cycle again.
pub proof fn law_round_robin_cycle(es: Seq<Endpoint>, k: nat)
    requires
        es.no_duplicates(),
        es.len() > 0,
    ensures
        selections(built_from(es), k).len() == k,
        forall|i: int|
            0 <= i < k ==> #[trigger] selections(built_from(es), k)[i] == Ok::<
                Endpoint,
                EmptyRegistryError,
            >(es[i % es.len() as int]),
{
    lemma_built_from(es);
    lemma_selections(built_from(es), k);
}

/// Insertion is idempotent: inserting an endpoint that is already
/// registered changes neither the endpoints nor the rotation position.
pub proof fn law_insert_idempotent(m: RegistryModel, e: Endpoint)
    requires
        m.wf(),
        m.endpoints.contains(e),
    ensures
        m.insert(e) == m,
        m.insert(e).endpoints.len() == m.endpoints.len(),
        m.insert(e).cursor == m.cursor,
{
}

/// Inserting the same endpoint twice gives the same registry as inserting
/// it once.
pub proof fn law_insert_twice(m: RegistryModel, e: Endpoint)
    requires
        m.wf(),
    ensures
        m.insert(e).insert(e) == m.insert(e),
{
    assert(m.insert(e).endpoints.contains(e)) by {
        if !m.endpoints.contains(e) {
            assert(m.insert(e).endpoints[m.endpoints.len() as int] == e);
        }
    }
}

/// Selection on an empty registry fails and leaves the registry as it was.
pub proof fn law_empty_selection()
    ensures
        RegistryModel::empty().selected() == Err::<Endpoint, EmptyRegistryError>(
            EmptyRegistryError,
        ),
        RegistryModel::empty().advanced() == RegistryModel::empty(),
{
}

/// An ordered, duplicate-free collection of endpoints with a rotation
/// cursor.
pub struct Ternnels {
    tunnels: Vec<Endpoint>,
    idx: usize,
}

impl View for Ternnels {
    type V = RegistryModel;

    closed spec fn view(&self) -> RegistryModel {
        RegistryModel { endpoints: self.tunnels@, cursor: self.idx as nat }
    }
}

impl Ternnels {
    /// The registry's invariant holds of its model.
    pub open spec fn wf(&self) -> bool {
        self@.wf()
    }

    /// An empty registry with its cursor at zero.
    pub fn new() -> (r: Ternnels)
        ensures
            r@ == RegistryModel::empty(),
            r.wf(),
    {
        Ternnels { tunnels: Vec::new(), idx: 0 }
    }

    /// Appends `tunnel` unless an equal endpoint is already registered.
    /// The rotation position is left where it was.
    pub fn add_tunnel(&mut self, tunnel: Endpoint)
        requires
            old(self).wf(),
        ensures
            final(self).wf(),
            final(self)@ == old(self)@.insert(tunnel),
    {
        let mut i: usize = 0;
        while i < self.tunnels.len()
            invariant
                i <= self.tunnels@.len(),
                self@ == old(self)@,
                self.wf(),
                forall|j: int| 0 <= j < i ==> self.tunnels@[j] != tunnel,
            decreases self.tunnels@.len() - i,
        {
            if self.tunnels[i] == tunnel {
                assert(self@.endpoints.contains(tunnel)) by {
                    assert(self@.endpoints[i as int] == tunnel);
                }
                return;
            }
            i = i + 1;
        }
        assert(!self@.endpoints.contains(tunnel));
        self.tunnels.push(tunnel);
    }

    /// Returns the endpoint under the cursor and moves the cursor one step,
    /// wrapping around after the last endpoint. Fails, leaving the registry
    /// unchanged, when no endpoint is registered.
    pub fn round_robin_tunnel(&mut self) -> (r: Result<Endpoint, EmptyRegistryError>)
        requires
            old(self).wf(),
        ensures
            final(self).wf(),
            r == old(self)@.selected(),
            final(self)@ == old(self)@.advanced(),
    {
        let len = self.tunnels.len();
        if len == 0 {
            return Err(EmptyRegistryError);
        }
        let current = self.idx;
        let picked = self.tunnels[current];
        if current + 1 >= len {
            self.idx = 0;
            proof {
                lemma_mod_self_0(len as int);
            }
        } else {
            self.idx = current + 1;
            proof {
                lemma_small_mod((current + 1) as nat, len as nat);
            }
        }
        Ok(picked)
    }

    /// The number of registered endpoints.
    pub fn len(&self) -> (r: usize)
        ensures
            r == self@.endpoints.len(),
    {
        self.tunnels.len()
    }
}

} // verus!
