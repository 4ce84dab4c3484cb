//! The content-id registry of one compositing pass.
use vstd::prelude::*;

use crate::resource::{ContentId, EmbeddingWithCId, Resource};

verus! {

/// Why a registration was refused.
#[derive(PartialEq, Eq, Structural, Clone, Copy, Debug)]
pub enum CIdError {
    /// The content id is already given to another resource.
    DuplicateCId(ContentId),
    /// No fresh content id is left.
    ExhaustedCIds,
}

/// One embedding held by the registry, and whether it came through the
/// shared path.
pub struct Registration {
    pub embedding: EmbeddingWithCId,
    pub shared: bool,
}

/// The state of a registry: its registrations, in order, and the lowest
/// content id that it may still hand out fresh.
pub struct RegistryModel {
    pub registrations: Seq<Registration>,
    pub next: u64,
}

pub open spec fn cid_used(rs: Seq<Registration>, c: ContentId) -> bool {
    exists|i: int| 0 <= i < rs.len() && (#[trigger] rs[i]).embedding.cid == c
}

pub open spec fn is_shared_of(r: Registration, id: u64) -> bool {
    r.shared && r.embedding.resource.id == id
}

/// The index of the first shared registration of the resource identity `id`,
/// or -1.
pub open spec fn find_shared(rs: Seq<Registration>, id: u64) -> int
    decreases rs.len(),
{
    if rs.len() == 0 {
        -1
    } else {
        let k = find_shared(rs.drop_last(), id);
        if k >= 0 {
            k
        } else if is_shared_of(rs.last(), id) {
            rs.len() - 1
        } else {
            -1
        }
    }
}

/// The registry is consistent: content ids are unique, and all lie below
/// `next` unless `next` is at its limit.
pub open spec fn model_wf(m: RegistryModel) -> bool {
    &&& forall|i: int, j: int|
        0 <= i < j < m.registrations.len() ==> (#[trigger] m.registrations[i]).embedding.cid
            != (#[trigger] m.registrations[j]).embedding.cid
    &&& forall|i: int|
        0 <= i < m.registrations.len() ==> (#[trigger] m.registrations[i]).embedding.cid.id
            < m.next || m.next == u64::MAX
}

pub open spec fn push_registration(m: RegistryModel, resource: Resource, cid: ContentId, shared: bool, next: u64) -> RegistryModel {
    RegistryModel {
        registrations: m.registrations.push(
            Registration { embedding: EmbeddingWithCId { resource, cid }, shared },
        ),
        next,
    }
}

/// Registration through the shared path: a resource identity that was shared
/// before gets its content id back and nothing is added; otherwise it gets a
/// fresh content id.
pub open spec fn register_shared_spec(m: RegistryModel, resource: Resource) -> (RegistryModel, Result<ContentId, CIdError>) {
    let k = find_shared(m.registrations, resource.id);
    if k >= 0 {
        (m, Ok(m.registrations[k].embedding.cid))
    } else if m.next == u64::MAX {
        (m, Err(CIdError::ExhaustedCIds))
    } else {
        let c = ContentId { id: m.next };
        (push_registration(m, resource, c, true, (m.next + 1) as u64), Ok(c))
    }
}

/// Registration of a local embedding: always a fresh content id.
pub open spec fn register_local_spec(m: RegistryModel, resource: Resource) -> (RegistryModel, Result<ContentId, CIdError>) {
    if m.next == u64::MAX {
        (m, Err(CIdError::ExhaustedCIds))
    } else {
        let c = ContentId { id: m.next };
        (push_registration(m, resource, c, false, (m.next + 1) as u64), Ok(c))
    }
}

/// The index of the registration that holds content id `c`, or -1.
pub open spec fn find_cid(rs: Seq<Registration>, c: ContentId) -> int
    decreases rs.len(),
{
    if rs.len() == 0 {
        -1
    } else {
        let k = find_cid(rs.drop_last(), c);
        if k >= 0 {
            k
        } else if rs.last().embedding.cid == c {
            rs.len() - 1
        } else {
            -1
        }
    }
}

/// Registration under a content id that the caller chose: refused where the
/// id is held by another resource identity, a no-op where it is held by the
/// same one.
pub open spec fn register_with_cid_spec(m: RegistryModel, resource: Resource, cid: ContentId, shared: bool) -> (RegistryModel, Result<(), CIdError>) {
    let k = find_cid(m.registrations, cid);
    if k >= 0 {
        if m.registrations[k].embedding.resource.id == resource.id {
            (m, Ok(()))
        } else {
            (m, Err(CIdError::DuplicateCId(cid)))
        }
    } else {
        let next = if cid.id < m.next {
            m.next
        } else if cid.id < u64::MAX {
            (cid.id + 1) as u64
        } else {
            u64::MAX
        };
        (push_registration(m, resource, cid, shared, next), Ok(()))
    }
}

/// Assigns content ids to the embeddings of one compositing pass.
pub struct ContentIdRegistry {
    next: u64,
    registrations: Vec<Registration>,
}

impl View for ContentIdRegistry {
    type V = RegistryModel;

    closed spec fn view(&self) -> RegistryModel {
        RegistryModel { registrations: self.registrations@, next: self.next }
    }
}

proof fn lemma_find_cid(rs: Seq<Registration>, c: ContentId)
    ensures
        -1 <= find_cid(rs, c) < rs.len(),
        find_cid(rs, c) >= 0 ==> rs[find_cid(rs, c)].embedding.cid == c,
        find_cid(rs, c) == -1 <==> !cid_used(rs, c),
    decreases rs.len(),
{
    if rs.len() > 0 {
        let p = rs.drop_last();
        lemma_find_cid(p, c);
        if cid_used(rs, c) && find_cid(p, c) == -1 && rs.last().embedding.cid != c {
            let i = choose|i: int| 0 <= i < rs.len() && (#[trigger] rs[i]).embedding.cid == c;
            assert(p[i] == rs[i]);
        }
        if cid_used(p, c) {
            let i = choose|i: int| 0 <= i < p.len() && (#[trigger] p[i]).embedding.cid == c;
            assert(rs[i] == p[i]);
        }
    }
}

proof fn lemma_find_shared(rs: Seq<Registration>, id: u64)
    ensures
        -1 <= find_shared(rs, id) < rs.len(),
        find_shared(rs, id) >= 0 ==> is_shared_of(rs[find_shared(rs, id)], id),
    decreases rs.len(),
{
    if rs.len() > 0 {
        lemma_find_shared(rs.drop_last(), id);
    }
}

proof fn lemma_find_shared_prefix(rs: Seq<Registration>, id: u64, j: int)
    requires
        0 <= j <= rs.len(),
        find_shared(rs.subrange(0, j), id) >= 0,
    ensures
        find_shared(rs, id) == find_shared(rs.subrange(0, j), id),
    decreases rs.len(),
{
    if j == rs.len() {
        assert(rs.subrange(0, j) =~= rs);
    } else {
        let p = rs.drop_last();
        assert(p.subrange(0, j) =~= rs.subrange(0, j));
        lemma_find_shared_prefix(p, id, j);
    }
}

proof fn lemma_find_cid_prefix(rs: Seq<Registration>, c: ContentId, j: int)
    requires
        0 <= j <= rs.len(),
        find_cid(rs.subrange(0, j), c) >= 0,
    ensures
        find_cid(rs, c) == find_cid(rs.subrange(0, j), c),
    decreases rs.len(),
{
    if j == rs.len() {
        assert(rs.subrange(0, j) =~= rs);
    } else {
        let p = rs.drop_last();
        assert(p.subrange(0, j) =~= rs.subrange(0, j));
        lemma_find_cid_prefix(p, c, j);
    }
}

proof fn lemma_push_keeps_wf(m: RegistryModel, resource: Resource, cid: ContentId, shared: bool, next: u64)
    requires
        model_wf(m),
        !cid_used(m.registrations, cid),
        cid.id < next || next == u64::MAX,
        next >= m.next,
    ensures
        model_wf(push_registration(m, resource, cid, shared, next)),
{
    let m2 = push_registration(m, resource, cid, shared, next);
    assert forall|i: int, j: int| 0 <= i < j < m2.registrations.len() implies
        (#[trigger] m2.registrations[i]).embedding.cid != (#[trigger] m2.registrations[j]).embedding.cid by {
        if j == m.registrations.len() {
            assert(m2.registrations[i] == m.registrations[i]);
        }
    }
    assert forall|i: int| 0 <= i < m2.registrations.len() implies
        (#[trigger] m2.registrations[i]).embedding.cid.id < m2.next || m2.next == u64::MAX by {
        if i < m.registrations.len() {
            assert(m2.registrations[i] == m.registrations[i]);
        }
    }
}

/// Registering one resource identity twice through the shared path yields one
/// content id and one embedding: the second registration returns the content
/// id of the first and leaves the registry as the first left it.
pub proof fn lemma_shared_registration_idempotent(m: RegistryModel, a: Resource, b: Resource)
    requires
        model_wf(m),
        a.id == b.id,
    ensures
        ({
            let (m1, r1) = register_shared_spec(m, a);
            let (m2, r2) = register_shared_spec(m1, b);
            r1 is Ok ==> r2 == r1 && m2 == m1 && m1.registrations.len() <= m.registrations.len() + 1
        }),
{
    let (m1, r1) = register_shared_spec(m, a);
    if find_shared(m.registrations, a.id) < 0 && m.next < u64::MAX {
        assert(m1.registrations.drop_last() =~= m.registrations);
    }
}

/// Two distinct resources cannot be registered under one content id that the
/// caller chose: once the first is in, the second is refused with
/// `DuplicateCId`.
pub proof fn lemma_duplicate_cid_refused(
    m: RegistryModel,
    a: Resource,
    b: Resource,
    cid: ContentId,
    shared_a: bool,
    shared_b: bool,
)
    requires
        model_wf(m),
        a.id != b.id,
    ensures
        ({
            let (m1, r1) = register_with_cid_spec(m, a, cid, shared_a);
            r1 is Ok ==> register_with_cid_spec(m1, b, cid, shared_b).1 == Err::<(), CIdError>(
                CIdError::DuplicateCId(cid),
            )
        }),
{
    let (m1, r1) = register_with_cid_spec(m, a, cid, shared_a);
    lemma_find_cid(m.registrations, cid);
    if find_cid(m.registrations, cid) < 0 {
        assert(m1.registrations.drop_last() =~= m.registrations);
    }
}

impl ContentIdRegistry {
    pub open spec fn wf(&self) -> bool {
        model_wf(self@)
    }

    /// An empty registry.
    pub fn new() -> (r: ContentIdRegistry)
        ensures
            r.wf(),
            r@.registrations.len() == 0,
            r@.next == 0,
    {
        ContentIdRegistry { next: 0, registrations: Vec::new() }
    }

    /// The number of embeddings held.
    pub fn len(&self) -> (r: usize)
        ensures
            r == self@.registrations.len(),
    {
        self.registrations.len()
    }

    /// The embeddings held, in the order of their registration.
    pub fn into_embeddings(self) -> (r: Vec<EmbeddingWithCId>)
        ensures
            r@ == self@.registrations.map_values(|g: Registration| g.embedding),
    {
        let ghost rs = self@.registrations;
        let mut regs = self.registrations;
        let mut out: Vec<EmbeddingWithCId> = Vec::new();
        let mut i: usize = 0;
        assert(rs.len() == regs.len());
        while regs.len() > 0
            invariant
                i <= rs.len() <= usize::MAX,
                regs@ == rs.subrange(i as int, rs.len() as int),
                regs@.len() == rs.len() - i,
                out@ == rs.subrange(0, i as int).map_values(|g: Registration| g.embedding),
            decreases regs@.len(),
        {
            let g = regs.remove(0);
            assert(g == rs[i as int]);
            out.push(g.embedding);
            i = i + 1;
            assert(regs@ =~= rs.subrange(i as int, rs.len() as int));
            assert(out@ =~= rs.subrange(0, i as int).map_values(|g: Registration| g.embedding));
        }
        assert(rs.subrange(0, rs.len() as int) =~= rs);
        out
    }

    fn find_shared_index(&self, id: u64) -> (r: Option<usize>)
        ensures
            match r {
                Some(i) => find_shared(self@.registrations, id) == i,
                None => find_shared(self@.registrations, id) == -1,
            },
    {
        let ghost rs = self@.registrations;
        let mut i: usize = 0;
        while i < self.registrations.len()
            invariant
                rs == self@.registrations,
                i <= rs.len(),
                find_shared(rs.subrange(0, i as int), id) == -1,
            decreases rs.len() - i,
        {
            assert(rs.subrange(0, i + 1).drop_last() =~= rs.subrange(0, i as int));
            let r = &self.registrations[i];
            if r.shared && r.embedding.resource.id == id {
                proof {
                    lemma_find_shared_prefix(rs, id, i + 1);
                }
                return Some(i);
            }
            i = i + 1;
        }
        assert(rs.subrange(0, rs.len() as int) =~= rs);
        None
    }

    fn find_cid_index(&self, c: ContentId) -> (r: Option<usize>)
        ensures
            match r {
                Some(i) => find_cid(self@.registrations, c) == i,
                None => find_cid(self@.registrations, c) == -1,
            },
    {
        let ghost rs = self@.registrations;
        let mut i: usize = 0;
        while i < self.registrations.len()
            invariant
                rs == self@.registrations,
                i <= rs.len(),
                find_cid(rs.subrange(0, i as int), c) == -1,
            decreases rs.len() - i,
        {
            assert(rs.subrange(0, i + 1).drop_last() =~= rs.subrange(0, i as int));
            if self.registrations[i].embedding.cid == c {
                proof {
                    lemma_find_cid_prefix(rs, c, i + 1);
                }
                return Some(i);
            }
            i = i + 1;
        }
        assert(rs.subrange(0, rs.len() as int) =~= rs);
        None
    }

    /// Registers a resource through the shared path; a resource identity that
    /// was shared before keeps its one content id and its one embedding.
    pub fn register_shared(&mut self, resource: Resource) -> (r: Result<ContentId, CIdError>)
        requires
            old(self).wf(),
        ensures
            final(self).wf(),
            (final(self)@, r) == register_shared_spec(old(self)@, resource),
    {
        match self.find_shared_index(resource.id) {
            Some(i) => {
                proof {
                    lemma_find_shared(self@.registrations, resource.id);
                }
                Ok(self.registrations[i].embedding.cid)
            },
            None => self.register_fresh(resource, true),
        }
    }

    /// Registers the embedding of one alternative under a fresh content id.
    pub fn register_local(&mut self, resource: Resource) -> (r: Result<ContentId, CIdError>)
        requires
            old(self).wf(),
        ensures
            final(self).wf(),
            (final(self)@, r) == register_local_spec(old(self)@, resource),
    {
        self.register_fresh(resource, false)
    }

    fn register_fresh(&mut self, resource: Resource, shared: bool) -> (r: Result<ContentId, CIdError>)
        requires
            old(self).wf(),
        ensures
            final(self).wf(),
            old(self)@.next == u64::MAX ==> final(self)@ == old(self)@ && r == Err::<ContentId, CIdError>(CIdError::ExhaustedCIds),
            old(self)@.next < u64::MAX ==> {
                let c = ContentId { id: old(self)@.next };
                &&& r == Ok::<ContentId, CIdError>(c)
                &&& final(self)@ == push_registration(old(self)@, resource, c, shared, (old(self)@.next + 1) as u64)
            },
    {
        if self.next == u64::MAX {
            return Err(CIdError::ExhaustedCIds);
        }
        let c = ContentId { id: self.next };
        proof {
            let m = self@;
            if cid_used(m.registrations, c) {
                let i = choose|i: int| 0 <= i < m.registrations.len() && (#[trigger] m.registrations[i]).embedding.cid == c;
            }
            lemma_push_keeps_wf(m, resource, c, shared, (m.next + 1) as u64);
        }
        self.registrations.push(Registration { embedding: EmbeddingWithCId { resource, cid: c }, shared });
        self.next = self.next + 1;
        Ok(c)
    }

    /// Registers a resource under a content id that the caller chose before
    /// rendering; `DuplicateCId` where that id is held by another resource.
    pub fn register_with_cid(&mut self, resource: Resource, cid: ContentId, shared: bool) -> (r: Result<(), CIdError>)
        requires
            old(self).wf(),
        ensures
            final(self).wf(),
            (final(self)@, r) == register_with_cid_spec(old(self)@, resource, cid, shared),
    {
        proof {
            lemma_find_cid(self@.registrations, cid);
        }
        match self.find_cid_index(cid) {
            Some(i) => {
                if self.registrations[i].embedding.resource.id == resource.id {
                    Ok(())
                } else {
                    Err(CIdError::DuplicateCId(cid))
                }
            },
            None => {
                let next = if cid.id < self.next {
                    self.next
                } else if cid.id < u64::MAX {
                    cid.id + 1
                } else {
                    u64::MAX
                };
                proof {
                    lemma_push_keeps_wf(self@, resource, cid, shared, next);
                }
                self.registrations.push(Registration { embedding: EmbeddingWithCId { resource, cid }, shared });
                self.next = next;
                Ok(())
            },
        }
    }
}

} // verus!
