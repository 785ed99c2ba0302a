//! The entity-resource binding table: four parallel maps from entity key to
//! shader program, texture, buffer list and model transform.
//!
//! An entity is ready for the frame loop exactly when all four maps hold an
//! entry for it; a partially bound entity yields nothing until it is
//! completed. Binding is last-write-wins, and the walk order of the ready
//! entities is the shader-bind order, stable for the frame.

use vstd::prelude::*;
use crate::component::{BufferHandle, EntityID, ShaderProgramHandle, ShaderUniformHandle,
    TextureHandle, Transform};
use crate::keymap::KeyMap;
use crate::pipeline::{BuildReplies, RegisteredProgram, ShaderCompilationError, StageKind,
    register_program, resolved_map, first_missing};
use crate::uniform::ShaderProgram;

verus! {

/// Everything the frame loop needs for one draw: the entity and copies of
/// its four bound resources.
#[derive(Debug)]
pub struct ReadyEntity {
    pub entity: EntityID,
    pub program: ShaderProgram,
    pub texture: TextureHandle,
    pub buffers: Vec<BufferHandle>,
    pub transform: Transform,
}

/// One uniform store for the frame loop to issue: which program to bind and
/// which previously resolved location to write the matrix to.
#[derive(Debug)]
pub struct UniformWrite {
    pub program: ShaderProgramHandle,
    pub location: ShaderUniformHandle,
    pub transform: Transform,
}

/// A filtered walk of a duplicate-free sequence keeps it duplicate-free and
/// holds exactly the members that pass.
proof fn lemma_filter_of_distinct(s: Seq<u32>, pred: spec_fn(u32) -> bool)
    requires
        s.no_duplicates(),
    ensures
        s.filter(pred).no_duplicates(),
        forall|k: u32| #[trigger] s.filter(pred).contains(k) <==> s.contains(k) && pred(k),
    decreases s.len(),
{
    reveal(Seq::filter);
    if s.len() > 0 {
        assert(s.drop_last().no_duplicates());
        lemma_filter_of_distinct(s.drop_last(), pred);
        let f = s.filter(pred);
        let fsub = s.drop_last().filter(pred);
        assert forall|k: u32| #[trigger] f.contains(k) implies s.contains(k) && pred(k) by {
            let j = choose|j: int| 0 <= j < f.len() && f[j] == k;
            if pred(s.last()) && j == f.len() - 1 {
                assert(s[s.len() - 1] == k);
            } else {
                assert(f[j] == fsub[j]);
                assert(fsub.contains(k));
                let i = choose|i: int| 0 <= i < s.drop_last().len() && s.drop_last()[i] == k;
                assert(s[i] == k);
            }
        }
        assert forall|k: u32| s.contains(k) && pred(k) implies #[trigger] f.contains(k) by {
            let i = choose|i: int| 0 <= i < s.len() && s[i] == k;
            if i == s.len() - 1 {
                assert(f[f.len() - 1] == k);
            } else {
                assert(s.drop_last()[i] == k);
                assert(fsub.contains(k));
                let j = choose|j: int| 0 <= j < fsub.len() && fsub[j] == k;
                assert(f[j] == k);
            }
        }
        if pred(s.last()) {
            assert(!s.drop_last().contains(s.last()));
            assert(!fsub.contains(s.last()));
            assert forall|i: int, j: int| 0 <= i < j < f.len() implies f[i] != f[j] by {
                if j < f.len() - 1 {
                    assert(fsub[i] == f[i] && fsub[j] == f[j]);
                } else {
                    assert(f[i] == fsub[i]);
                    assert(fsub.contains(fsub[i]));
                }
            }
        }
    }
}

/// Binding is idempotent per call and last-write-wins: after two stores to
/// the same entity only the second is visible to the next frame.
pub proof fn lemma_set_transform_last_write(
    m: Map<u32, Transform>,
    e: u32,
    first: Transform,
    second: Transform,
)
    ensures
        m.insert(e, first).insert(e, second) == m.insert(e, second),
{
    assert(m.insert(e, first).insert(e, second) =~= m.insert(e, second));
}

/// A fresh list with the same buffer handles.
fn copy_buffers(v: &Vec<BufferHandle>) -> (r: Vec<BufferHandle>)
    ensures
        r@ == v@,
{
    let n = v.len();
    let mut r: Vec<BufferHandle> = Vec::new();
    let mut i: usize = 0;
    while i < n
        invariant
            n == v@.len(),
            0 <= i <= n,
            r@ =~= v@.subrange(0, i as int),
        decreases n - i,
    {
        r.push(v[i]);
        proof {
            assert(r@ =~= v@.subrange(0, i + 1));
        }
        i = i + 1;
    }
    proof {
        assert(r@ =~= v@);
    }
    r
}

/// The entity-resource binding table.
pub struct BindingTable {
    shaders: KeyMap<ShaderProgram>,
    textures: KeyMap<TextureHandle>,
    buffers: KeyMap<Vec<BufferHandle>>,
    transforms: KeyMap<Transform>,
}

impl BindingTable {
    pub closed spec fn shader_map(&self) -> Map<u32, ShaderProgram> {
        self.shaders@
    }

    pub closed spec fn texture_map(&self) -> Map<u32, TextureHandle> {
        self.textures@
    }

    pub closed spec fn buffer_map(&self) -> Map<u32, Vec<BufferHandle>> {
        self.buffers@
    }

    pub closed spec fn transform_map(&self) -> Map<u32, Transform> {
        self.transforms@
    }

    /// The four maps keep their invariants, and every stored program does.
    pub closed spec fn wf(&self) -> bool {
        &&& self.shaders.wf()
        &&& self.textures.wf()
        &&& self.buffers.wf()
        &&& self.transforms.wf()
        &&& forall|k: u32|
            #[trigger] self.shaders@.dom().contains(k) ==> self.shaders@[k].wf()
    }

    /// All four resources are bound: the entity takes part in the frame.
    pub open spec fn ready(&self, k: u32) -> bool {
        &&& self.shader_map().dom().contains(k)
        &&& self.texture_map().dom().contains(k)
        &&& self.buffer_map().dom().contains(k)
        &&& self.transform_map().dom().contains(k)
    }

    /// Readiness apart from the shader map itself.
    closed spec fn bound_elsewhere(&self) -> spec_fn(u32) -> bool {
        |k: u32|
            {
                &&& self.texture_map().dom().contains(k)
                &&& self.buffer_map().dom().contains(k)
                &&& self.transform_map().dom().contains(k)
            }
    }

    /// The ready entities in the frame's stable walk order: shader-bind
    /// order, restricted to the fully bound.
    pub closed spec fn ready_seq(&self) -> Seq<u32> {
        self.shaders.key_seq().filter(self.bound_elsewhere())
    }

    /// The walk order holds each entity once, and exactly the ready ones.
    pub proof fn lemma_ready_seq(&self)
        requires
            self.wf(),
        ensures
            self.ready_seq().no_duplicates(),
            forall|k: u32| #[trigger] self.ready_seq().contains(k) <==> self.ready(k),
    {
        self.shaders.lemma_key_seq();
        lemma_filter_of_distinct(self.shaders.key_seq(), self.bound_elsewhere());
    }

    /// The set of ready entities.
    pub open spec fn ready_set(&self) -> Set<u32> {
        Set::new(|k: u32| self.ready(k))
    }

    /// The walk yields exactly as many items as there are ready entities:
    /// its length is the cardinality of the ready set.
    pub proof fn lemma_ready_count(&self)
        requires
            self.wf(),
        ensures
            self.ready_set().finite(),
            self.ready_seq().len() == self.ready_set().len(),
    {
        broadcast use vstd::seq_lib::seq_to_set_is_finite;

        self.lemma_ready_seq();
        assert(self.ready_seq().to_set() =~= self.ready_set());
        self.ready_seq().unique_seq_to_set();
    }

    pub fn new() -> (r: BindingTable)
        ensures
            r.wf(),
            r.shader_map() == Map::<u32, ShaderProgram>::empty(),
            r.texture_map() == Map::<u32, TextureHandle>::empty(),
            r.buffer_map() == Map::<u32, Vec<BufferHandle>>::empty(),
            r.transform_map() == Map::<u32, Transform>::empty(),
    {
        BindingTable {
            shaders: KeyMap::new(),
            textures: KeyMap::new(),
            buffers: KeyMap::new(),
            transforms: KeyMap::new(),
        }
    }

    /// Bind the entity's shader program; a later bind wins.
    pub fn bind_program(&mut self, entity: EntityID, program: ShaderProgram)
        requires
            old(self).wf(),
            program.wf(),
        ensures
            final(self).wf(),
            final(self).shader_map() == old(self).shader_map().insert(entity.key(), program),
            final(self).texture_map() == old(self).texture_map(),
            final(self).buffer_map() == old(self).buffer_map(),
            final(self).transform_map() == old(self).transform_map(),
    {
        self.shaders.insert(entity.get(), program);
    }

    /// Bind the entity's texture; a later bind wins.
    pub fn bind_texture(&mut self, entity: EntityID, texture: TextureHandle)
        requires
            old(self).wf(),
        ensures
            final(self).wf(),
            final(self).texture_map() == old(self).texture_map().insert(entity.key(), texture),
            final(self).shader_map() == old(self).shader_map(),
            final(self).buffer_map() == old(self).buffer_map(),
            final(self).transform_map() == old(self).transform_map(),
    {
        self.textures.insert(entity.get(), texture);
    }

    /// Bind the entity's attribute buffers; a later bind wins.
    pub fn bind_buffers(&mut self, entity: EntityID, buffers: Vec<BufferHandle>)
        requires
            old(self).wf(),
        ensures
            final(self).wf(),
            final(self).buffer_map() == old(self).buffer_map().insert(entity.key(), buffers),
            final(self).shader_map() == old(self).shader_map(),
            final(self).texture_map() == old(self).texture_map(),
            final(self).transform_map() == old(self).transform_map(),
    {
        self.buffers.insert(entity.get(), buffers);
    }

    /// Store the entity's model transform; a later store wins, so the next
    /// frame sees only the latest value.
    pub fn set_transform(&mut self, entity: EntityID, transform: Transform)
        requires
            old(self).wf(),
        ensures
            final(self).wf(),
            final(self).transform_map() == old(self).transform_map().insert(
                entity.key(),
                transform,
            ),
            final(self).shader_map() == old(self).shader_map(),
            final(self).texture_map() == old(self).texture_map(),
            final(self).buffer_map() == old(self).buffer_map(),
    {
        self.transforms.insert(entity.get(), transform);
    }

    /// Append one more buffer to an entity's bound list: a uniform-block
    /// buffer joining the attribute buffers after geometry setup. Appending
    /// to an entity that has no buffer list yet is a construction-order
    /// violation, so the list is required to be there.
    pub fn append_buffer(&mut self, entity: EntityID, handle: BufferHandle)
        requires
            old(self).wf(),
            old(self).buffer_map().dom().contains(entity.key()),
        ensures
            final(self).wf(),
            final(self).buffer_map().dom() == old(self).buffer_map().dom(),
            final(self).buffer_map()[entity.key()]@ == old(self).buffer_map()[entity.key()]@.push(
                handle,
            ),
            forall|k: u32|
                k != entity.key() && old(self).buffer_map().dom().contains(k)
                    ==> final(self).buffer_map()[k] == old(self).buffer_map()[k],
            final(self).shader_map() == old(self).shader_map(),
            final(self).texture_map() == old(self).texture_map(),
            final(self).transform_map() == old(self).transform_map(),
    {
        let stored = self.buffers.get(entity.get()).unwrap();
        let mut list = copy_buffers(stored);
        list.push(handle);
        self.buffers.insert(entity.get(), list);
        proof {
            assert(self.buffers@.dom() =~= old(self).buffers@.dom());
        }
    }

    pub fn is_ready(&self, entity: EntityID) -> (r: bool)
        requires
            self.wf(),
        ensures
            r == self.ready(entity.key()),
    {
        let k = entity.get();
        self.shaders.contains_key(k) && self.textures.contains_key(k) && self.buffers.contains_key(
            k,
        ) && self.transforms.contains_key(k)
    }

    pub fn program(&self, entity: EntityID) -> (r: Option<&ShaderProgram>)
        requires
            self.wf(),
        ensures
            match r {
                Some(sp) => self.shader_map().dom().contains(entity.key()) && *sp
                    == self.shader_map()[entity.key()] && sp.wf(),
                None => !self.shader_map().dom().contains(entity.key()),
            },
    {
        self.shaders.get(entity.get())
    }

    pub fn texture(&self, entity: EntityID) -> (r: Option<TextureHandle>)
        requires
            self.wf(),
        ensures
            match r {
                Some(t) => self.texture_map().dom().contains(entity.key()) && t
                    == self.texture_map()[entity.key()],
                None => !self.texture_map().dom().contains(entity.key()),
            },
    {
        match self.textures.get(entity.get()) {
            Some(t) => Some(*t),
            None => None,
        }
    }

    pub fn buffers(&self, entity: EntityID) -> (r: Option<&Vec<BufferHandle>>)
        requires
            self.wf(),
        ensures
            match r {
                Some(b) => self.buffer_map().dom().contains(entity.key()) && *b
                    == self.buffer_map()[entity.key()],
                None => !self.buffer_map().dom().contains(entity.key()),
            },
    {
        self.buffers.get(entity.get())
    }

    pub fn transform(&self, entity: EntityID) -> (r: Option<Transform>)
        requires
            self.wf(),
        ensures
            match r {
                Some(t) => self.transform_map().dom().contains(entity.key()) && t
                    == self.transform_map()[entity.key()],
                None => !self.transform_map().dom().contains(entity.key()),
            },
    {
        match self.transforms.get(entity.get()) {
            Some(t) => Some(*t),
            None => None,
        }
    }

    /// The restartable per-frame walk: one item per ready entity, in the
    /// table's stable order, each carrying that entity's program, texture,
    /// buffers and current transform. A partially bound entity yields
    /// nothing.
    pub fn for_each_ready_entity(&self) -> (r: Vec<ReadyEntity>)
        requires
            self.wf(),
        ensures
            r@.map_values(|x: ReadyEntity| x.entity.key()) == self.ready_seq(),
            forall|i: int|
                0 <= i < r@.len() ==> {
                    let k = (#[trigger] r@[i]).entity.key();
                    &&& self.ready(k)
                    &&& r@[i].program.wf()
                    &&& r@[i].program.handle == self.shader_map()[k].handle
                    &&& r@[i].program.uniforms@ == self.shader_map()[k].uniforms@
                    &&& r@[i].texture == self.texture_map()[k]
                    &&& r@[i].buffers@ == self.buffer_map()[k]@
                    &&& r@[i].transform == self.transform_map()[k]
                },
    {
        let keys = self.shaders.keys();
        let ghost pred = self.bound_elsewhere();
        let n = keys.len();
        let mut r: Vec<ReadyEntity> = Vec::new();
        let mut i: usize = 0;
        while i < n
            invariant
                self.wf(),
                n == keys@.len(),
                keys@ == self.shaders.key_seq(),
                forall|k: u32| #[trigger] keys@.contains(k) <==> self.shader_map().dom().contains(
                    k,
                ),
                pred == self.bound_elsewhere(),
                0 <= i <= n,
                r@.map_values(|x: ReadyEntity| x.entity.key()) =~= keys@.subrange(
                    0,
                    i as int,
                ).filter(pred),
                forall|j: int|
                    0 <= j < r@.len() ==> {
                        let k = (#[trigger] r@[j]).entity.key();
                        &&& self.ready(k)
                        &&& r@[j].program.wf()
                        &&& r@[j].program.handle == self.shader_map()[k].handle
                        &&& r@[j].program.uniforms@ == self.shader_map()[k].uniforms@
                        &&& r@[j].texture == self.texture_map()[k]
                        &&& r@[j].buffers@ == self.buffer_map()[k]@
                        &&& r@[j].transform == self.transform_map()[k]
                    },
            decreases n - i,
        {
            let k = keys[i];
            proof {
                assert(keys@[i as int] == k);
                assert(keys@.contains(k));
            }
            if self.textures.contains_key(k) && self.buffers.contains_key(k)
                && self.transforms.contains_key(k) {
                let sp = self.shaders.get(k).unwrap();
                let program = sp.duplicate();
                let texture = *self.textures.get(k).unwrap();
                let stored = self.buffers.get(k).unwrap();
                let bufs = copy_buffers(stored);
                let transform = *self.transforms.get(k).unwrap();
                r.push(
                    ReadyEntity { entity: EntityID::new(k), program, texture, buffers: bufs, transform },
                );
            }
            proof {
                reveal(Seq::filter);
                let t = keys@.subrange(0, i + 1);
                assert(t.drop_last() =~= keys@.subrange(0, i as int));
                assert(t.last() == k);
                assert(r@.map_values(|x: ReadyEntity| x.entity.key()) =~= t.filter(pred));
            }
            i = i + 1;
        }
        proof {
            assert(keys@.subrange(0, n as int) =~= keys@);
        }
        r
    }

    /// Run one program registration for an entity: on success the program is
    /// bound to the entity, on any failure the error is surfaced and the
    /// whole table is left untouched, so no entity ever enters the frame
    /// loop half-initialized.
    pub fn install_program(
        &mut self,
        entity: EntityID,
        names: &Vec<String>,
        replies: &BuildReplies,
    ) -> (r: Result<RegisteredProgram, ShaderCompilationError>)
        requires
            old(self).wf(),
            replies.uniform_locations@.len() == names@.len(),
        ensures
            final(self).wf(),
            r is Ok <==> replies.succeeds(names@),
            r is Err ==> *final(self) == *old(self),
            !replies.vertex.ok ==> r == Err::<RegisteredProgram, _>(
                ShaderCompilationError::CompileFailed(StageKind::Vertex, replies.vertex.log.log),
            ),
            replies.vertex.ok && !replies.fragment.ok ==> r == Err::<RegisteredProgram, _>(
                ShaderCompilationError::CompileFailed(
                    StageKind::Fragment,
                    replies.fragment.log.log,
                ),
            ),
            replies.vertex.ok && replies.fragment.ok && !replies.link.ok ==> r == Err::<
                RegisteredProgram,
                _,
            >(ShaderCompilationError::LinkFailed(replies.link.log.log)),
            replies.vertex.ok && replies.fragment.ok && replies.link.ok && (exists|i: int|
                0 <= i < replies.uniform_locations@.len() && replies.uniform_locations@[i] < 0)
                ==> r == Err::<RegisteredProgram, _>(
                ShaderCompilationError::UniformNotFound(
                    names@[first_missing(replies.uniform_locations@)],
                ),
            ),
            r matches Ok(rp) ==> {
                &&& rp.program.wf()
                &&& rp.program.handle.id() == replies.link.log.index
                &&& rp.program.uniforms@ == resolved_map(names@, replies.uniform_locations@)
                &&& rp.validation.accepted == replies.validate.ok
                &&& rp.validation.log == replies.validate.log.log
                &&& rp.freed_stages@.len() == 2
                &&& rp.freed_stages@[0].id() == replies.vertex.log.index
                &&& rp.freed_stages@[1].id() == replies.fragment.log.index
                &&& final(self).texture_map() == old(self).texture_map()
                &&& final(self).buffer_map() == old(self).buffer_map()
                &&& final(self).transform_map() == old(self).transform_map()
                &&& final(self).shader_map().dom() == old(self).shader_map().dom().insert(
                    entity.key(),
                )
                &&& final(self).shader_map()[entity.key()].wf()
                &&& final(self).shader_map()[entity.key()].handle == rp.program.handle
                &&& final(self).shader_map()[entity.key()].uniforms@ == rp.program.uniforms@
                &&& forall|k: u32|
                    k != entity.key() && old(self).shader_map().dom().contains(k)
                        ==> final(self).shader_map()[k] == old(self).shader_map()[k]
            },
    {
        match register_program(names, replies) {
            Ok(rp) => {
                let copy = rp.program.duplicate();
                self.bind_program(entity, copy);
                Ok(rp)
            },
            Err(e) => Err(e),
        }
    }
}

/// The per-frame push of every ready entity's model transform, through the
/// location resolved at registration time — the driver is never re-queried.
/// One write per entity, in the walk's order.
pub fn model_uniform_writes(entities: &Vec<ReadyEntity>, model_name: &String) -> (r: Vec<
    UniformWrite,
>)
    requires
        forall|i: int|
            0 <= i < entities@.len() ==> (#[trigger] entities@[i]).program.wf()
                && entities@[i].program.uniforms@.dom().contains(model_name@),
    ensures
        r@.len() == entities@.len(),
        forall|i: int|
            0 <= i < r@.len() ==> {
                &&& (#[trigger] r@[i]).program == entities@[i].program.handle
                &&& r@[i].location == entities@[i].program.uniforms@[model_name@]
                &&& r@[i].transform == entities@[i].transform
            },
{
    let n = entities.len();
    let mut r: Vec<UniformWrite> = Vec::new();
    let mut i: usize = 0;
    while i < n
        invariant
            n == entities@.len(),
            forall|t: int|
                0 <= t < entities@.len() ==> (#[trigger] entities@[t]).program.wf()
                    && entities@[t].program.uniforms@.dom().contains(model_name@),
            0 <= i <= n,
            r@.len() == i,
            forall|j: int|
                0 <= j < i ==> {
                    &&& (#[trigger] r@[j]).program == entities@[j].program.handle
                    &&& r@[j].location == entities@[j].program.uniforms@[model_name@]
                    &&& r@[j].transform == entities@[j].transform
                },
        decreases n - i,
    {
        let e = &entities[i];
        let location = e.program.uniforms.lookup(model_name);
        r.push(UniformWrite { program: e.program.handle, location, transform: e.transform });
        i = i + 1;
    }
    r
}

/// The per-frame push of one camera matrix, shared by every ready entity:
/// the same value goes to each entity's program at its resolved location.
pub fn shared_uniform_writes(
    entities: &Vec<ReadyEntity>,
    name: &String,
    value: Transform,
) -> (r: Vec<UniformWrite>)
    requires
        forall|i: int|
            0 <= i < entities@.len() ==> (#[trigger] entities@[i]).program.wf()
                && entities@[i].program.uniforms@.dom().contains(name@),
    ensures
        r@.len() == entities@.len(),
        forall|i: int|
            0 <= i < r@.len() ==> {
                &&& (#[trigger] r@[i]).program == entities@[i].program.handle
                &&& r@[i].location == entities@[i].program.uniforms@[name@]
                &&& r@[i].transform == value
            },
{
    let n = entities.len();
    let mut r: Vec<UniformWrite> = Vec::new();
    let mut i: usize = 0;
    while i < n
        invariant
            n == entities@.len(),
            forall|t: int|
                0 <= t < entities@.len() ==> (#[trigger] entities@[t]).program.wf()
                    && entities@[t].program.uniforms@.dom().contains(name@),
            0 <= i <= n,
            r@.len() == i,
            forall|j: int|
                0 <= j < i ==> {
                    &&& (#[trigger] r@[j]).program == entities@[j].program.handle
                    &&& r@[j].location == entities@[j].program.uniforms@[name@]
                    &&& r@[j].transform == value
                },
        decreases n - i,
    {
        let e = &entities[i];
        let location = e.program.uniforms.lookup(name);
        r.push(UniformWrite { program: e.program.handle, location, transform: value });
        i = i + 1;
    }
    r
}

} // verus!
