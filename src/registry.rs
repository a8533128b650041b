use vstd::prelude::*;
use std::rc::Rc;

verus! {

#[verifier::external_type_specification]
#[verifier::external_body]
#[verifier::reject_recursive_types(K)]
#[verifier::reject_recursive_types(V)]
#[verifier::reject_recursive_types(S)]
pub struct ExDashMap<K, V, S>(dashmap::DashMap<K, V, S>);

/// What a slot map holds: service id to the slot of its handle.
pub uninterp spec fn slots_of(m: dashmap::DashMap<String, usize>) -> Map<Seq<char>, usize>;

/// Relies on `DashMap::new`: a new map holds no entry.
#[verifier::external_body]
fn slots_new() -> (r: dashmap::DashMap<String, usize>)
    ensures
        slots_of(r).dom() == Set::<Seq<char>>::empty(),
{
    dashmap::DashMap::new()
}

/// Relies on `DashMap::get`: the value stored under an equal key, if there is one.
#[verifier::external_body]
fn slots_get(m: &dashmap::DashMap<String, usize>, k: &String) -> (r: Option<usize>)
    ensures
        match r {
            Some(v) => slots_of(*m).contains_key(k@) && slots_of(*m)[k@] == v,
            None => !slots_of(*m).contains_key(k@),
        },
{
    m.get(k).map(|e| *e)
}

/// Relies on `DashMap::insert`: afterwards `k` maps to `v` and every other key is untouched.
#[verifier::external_body]
fn slots_insert(m: &mut dashmap::DashMap<String, usize>, k: String, v: usize)
    ensures
        slots_of(*final(m)) == slots_of(*old(m)).insert(k@, v),
{
    m.insert(k, v);
}

/// Relies on `DashMap::remove`: afterwards no entry has key `k` and every other key is untouched.
#[verifier::external_body]
fn slots_remove(m: &mut dashmap::DashMap<String, usize>, k: &String)
    ensures
        slots_of(*final(m)) == slots_of(*old(m)).remove(k@),
{
    m.remove(k);
}

/// A live service: its id, the address the orchestrator gave it, and the object that speaks to it.
pub struct ServiceHandle<S> {
    pub service_id: String,
    pub ip_address: String,
    pub service: Rc<S>,
}

/// The services of one network. Each handle ever added keeps its slot, so an id stays
/// taken after its service is removed; the slot map tells which of them are live.
pub struct ServiceRegistry<S> {
    slots: dashmap::DashMap<String, usize>,
    handles: Vec<ServiceHandle<S>>,
}

impl<S> ServiceRegistry<S> {
    /// The live services, by id.
    pub closed spec fn live(&self) -> Map<Seq<char>, ServiceHandle<S>> {
        Map::new(
            |k: Seq<char>| slots_of(self.slots).contains_key(k),
            |k: Seq<char>| self.handles@[slots_of(self.slots)[k] as int],
        )
    }

    /// Every id that was ever added, live or removed.
    pub closed spec fn used(&self) -> Set<Seq<char>> {
        Set::new(|k: Seq<char>| exists|i: int| 0 <= i < self.handles@.len() && #[trigger] self.handles@[i].service_id@ == k)
    }

    pub closed spec fn wf(&self) -> bool {
        &&& forall|k: Seq<char>| #[trigger] slots_of(self.slots).contains_key(k) ==> {
            &&& slots_of(self.slots)[k] < self.handles@.len()
            &&& self.handles@[slots_of(self.slots)[k] as int].service_id@ == k
        }
        &&& forall|i: int, j: int|
            0 <= i < j < self.handles@.len() ==> self.handles@[i].service_id@ != self.handles@[j].service_id@
    }

    /// A live service is stored under its own id, and its id counts as used.
    pub proof fn lemma_live_is_used(&self)
        requires
            self.wf(),
        ensures
            forall|k: Seq<char>| #[trigger] self.live().contains_key(k) ==> {
                &&& self.used().contains(k)
                &&& self.live()[k].service_id@ == k
            },
    {
        assert forall|k: Seq<char>| #[trigger] self.live().contains_key(k) implies {
            &&& self.used().contains(k)
            &&& self.live()[k].service_id@ == k
        } by {
            let i = slots_of(self.slots)[k] as int;
            assert(self.handles@[i].service_id@ == k);
        }
    }

    pub fn new() -> (r: ServiceRegistry<S>)
        ensures
            r.wf(),
            r.live().dom() == Set::<Seq<char>>::empty(),
            r.used() == Set::<Seq<char>>::empty(),
    {
        let r = ServiceRegistry { slots: slots_new(), handles: Vec::new() };
        assert(r.live().dom() =~= Set::<Seq<char>>::empty());
        assert(r.used() =~= Set::<Seq<char>>::empty());
        r
    }

    /// Whether `id` was ever added to this registry.
    pub fn is_used(&self, id: &String) -> (r: bool)
        requires
            self.wf(),
        ensures
            r == self.used().contains(id@),
    {
        let mut i: usize = 0;
        while i < self.handles.len()
            invariant
                i <= self.handles@.len(),
                forall|j: int| 0 <= j < i ==> self.handles@[j].service_id@ != id@,
            decreases self.handles@.len() - i,
        {
            if self.handles[i].service_id == *id {
                assert(self.handles@[i as int].service_id@ == id@);
                return true;
            }
            i = i + 1;
        }
        false
    }

    /// The live service with id `id`, if there is one.
    pub fn get(&self, id: &String) -> (r: Option<&ServiceHandle<S>>)
        requires
            self.wf(),
        ensures
            match r {
                Some(h) => self.live().contains_key(id@) && *h == self.live()[id@],
                None => !self.live().contains_key(id@),
            },
    {
        match slots_get(&self.slots, id) {
            Some(i) => Some(&self.handles[i]),
            None => None,
        }
    }

    /// Adds a service whose id was never used here.
    pub fn add(&mut self, handle: ServiceHandle<S>)
        requires
            old(self).wf(),
            !old(self).used().contains(handle.service_id@),
        ensures
            final(self).wf(),
            final(self).live() == old(self).live().insert(handle.service_id@, handle),
            final(self).used() == old(self).used().insert(handle.service_id@),
    {
        let ghost id = handle.service_id@;
        let ghost h = handle;
        let key = handle.service_id.clone();
        let slot = self.handles.len();
        self.handles.push(handle);
        slots_insert(&mut self.slots, key, slot);
        assert forall|i: int| 0 <= i < old(self).handles@.len() implies
            #[trigger] self.handles@[i] == old(self).handles@[i] && self.handles@[i].service_id@ != id by {
            if self.handles@[i].service_id@ == id {
                assert(old(self).used().contains(id));
            }
        }
        assert(self.live() =~= old(self).live().insert(id, h));
        assert(self.handles@[slot as int].service_id@ == id);
        assert forall|k: Seq<char>| self.used().contains(k) == old(self).used().insert(id).contains(k) by {
            if old(self).used().contains(k) {
                let i = choose|i: int| 0 <= i < old(self).handles@.len() && #[trigger] old(self).handles@[i].service_id@ == k;
                assert(self.handles@[i].service_id@ == k);
            }
            if self.used().contains(k) && k != id {
                let i = choose|i: int| 0 <= i < self.handles@.len() && #[trigger] self.handles@[i].service_id@ == k;
                assert(i != slot);
                assert(old(self).handles@[i].service_id@ == k);
            }
        }
        assert(self.used() =~= old(self).used().insert(id));
    }

    /// Removes the live service with id `id`, if any; the id stays used.
    pub fn remove(&mut self, id: &String)
        requires
            old(self).wf(),
        ensures
            final(self).wf(),
            final(self).live() == old(self).live().remove(id@),
            final(self).used() == old(self).used(),
    {
        slots_remove(&mut self.slots, id);
        assert(self.live() =~= old(self).live().remove(id@));
        assert(self.used() =~= old(self).used());
    }
}

} // verus!
