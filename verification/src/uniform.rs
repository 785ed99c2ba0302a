//! The per-program uniform table: a map from uniform name to its resolved
//! location, filled once at registration time so the frame loop never
//! re-queries the driver.

use vstd::prelude::*;
use crate::component::{ShaderProgramHandle, ShaderUniformHandle};

verus! {

/// The map described by a name/handle entry sequence: later entries win.
pub open spec fn uniform_map_of(s: Seq<(String, ShaderUniformHandle)>) -> Map<
    Seq<char>,
    ShaderUniformHandle,
>
    decreases s.len(),
{
    if s.len() == 0 {
        Map::empty()
    } else {
        uniform_map_of(s.drop_last()).insert(s.last().0@, s.last().1)
    }
}

/// No uniform name occurs twice in the entry sequence.
pub open spec fn distinct_names(s: Seq<(String, ShaderUniformHandle)>) -> bool {
    forall|i: int, j: int| 0 <= i < j < s.len() ==> s[i].0@ != s[j].0@
}

/// A name of the sequence is a name of the described map, and conversely.
pub proof fn lemma_uniform_map_of_dom(s: Seq<(String, ShaderUniformHandle)>)
    ensures
        forall|k: Seq<char>|
            #[trigger] uniform_map_of(s).dom().contains(k) <==> exists|i: int|
                0 <= i < s.len() && s[i].0@ == k,
    decreases s.len(),
{
    if s.len() > 0 {
        lemma_uniform_map_of_dom(s.drop_last());
        assert forall|k: Seq<char>| #[trigger]
            uniform_map_of(s).dom().contains(k) implies exists|i: int|
            0 <= i < s.len() && s[i].0@ == k by {
            if k == s.last().0@ {
                assert(s[s.len() - 1].0@ == k);
            } else {
                assert(uniform_map_of(s.drop_last()).dom().contains(k));
                let i = choose|i: int| 0 <= i < s.drop_last().len() && s.drop_last()[i].0@ == k;
                assert(s[i].0@ == k);
            }
        }
        assert forall|k: Seq<char>| (exists|i: int| 0 <= i < s.len() && s[i].0@ == k) implies
        #[trigger] uniform_map_of(s).dom().contains(k) by {
            let i = choose|i: int| 0 <= i < s.len() && s[i].0@ == k;
            if i < s.len() - 1 {
                assert(s.drop_last()[i].0@ == k);
                assert(exists|j: int| 0 <= j < s.drop_last().len() && s.drop_last()[j].0@ == k);
                assert(uniform_map_of(s.drop_last()).dom().contains(k));
            }
        }
    }
}

/// Under distinct names, each entry is what the described map holds at its
/// name.
pub proof fn lemma_uniform_map_of_index(s: Seq<(String, ShaderUniformHandle)>, i: int)
    requires
        distinct_names(s),
        0 <= i < s.len(),
    ensures
        uniform_map_of(s).dom().contains(s[i].0@),
        uniform_map_of(s)[s[i].0@] == s[i].1,
    decreases s.len(),
{
    if i == s.len() - 1 {
        assert(uniform_map_of(s) == uniform_map_of(s.drop_last()).insert(s.last().0@, s.last().1));
    } else {
        assert(s.drop_last()[i] == s[i]);
        lemma_uniform_map_of_index(s.drop_last(), i);
        assert(s[i].0@ != s.last().0@);
    }
}

/// Replacing the handle at one entry updates the described map at that name.
pub proof fn lemma_uniform_map_of_update(
    s: Seq<(String, ShaderUniformHandle)>,
    i: int,
    name: String,
    v: ShaderUniformHandle,
)
    requires
        distinct_names(s),
        0 <= i < s.len(),
        name@ == s[i].0@,
    ensures
        uniform_map_of(s.update(i, (name, v))) == uniform_map_of(s).insert(s[i].0@, v),
    decreases s.len(),
{
    let t = s.update(i, (name, v));
    if i == s.len() - 1 {
        assert(t.drop_last() =~= s.drop_last());
        assert(t.last() == (name, v));
        assert(uniform_map_of(s.drop_last()).insert(name@, v) =~= uniform_map_of(
            s.drop_last(),
        ).insert(s.last().0@, s.last().1).insert(s[i].0@, v));
    } else {
        assert(t.drop_last() =~= s.drop_last().update(i, (name, v)));
        assert(s.drop_last()[i] == s[i]);
        lemma_uniform_map_of_update(s.drop_last(), i, name, v);
        assert(t.last() == s.last());
        assert(s[i].0@ != s.last().0@);
        assert(uniform_map_of(s.drop_last()).insert(s[i].0@, v).insert(s.last().0@, s.last().1)
            =~= uniform_map_of(s.drop_last()).insert(s.last().0@, s.last().1).insert(s[i].0@, v));
    }
}

/// A map from uniform name to resolved location within one program.
#[derive(Debug)]
pub struct UniformMap {
    entries: Vec<(String, ShaderUniformHandle)>,
}

impl View for UniformMap {
    type V = Map<Seq<char>, ShaderUniformHandle>;

    closed spec fn view(&self) -> Map<Seq<char>, ShaderUniformHandle> {
        uniform_map_of(self.entries@)
    }
}

impl UniformMap {
    /// The distinct-name invariant; every operation preserves it.
    pub closed spec fn wf(&self) -> bool {
        distinct_names(self.entries@)
    }

    /// The names in insertion order.
    pub closed spec fn name_seq(&self) -> Seq<Seq<char>> {
        self.entries@.map_values(|e: (String, ShaderUniformHandle)| e.0@)
    }

    pub fn new() -> (r: UniformMap)
        ensures
            r.wf(),
            r@ == Map::<Seq<char>, ShaderUniformHandle>::empty(),
            r.name_seq() == Seq::<Seq<char>>::empty(),
    {
        UniformMap { entries: Vec::new() }
    }

    pub fn len(&self) -> (r: usize)
        ensures
            r == self.name_seq().len(),
    {
        self.entries.len()
    }

    /// The index of the entry that holds `name`, if one does.
    fn find(&self, name: &String) -> (r: Option<usize>)
        ensures
            match r {
                Some(i) => 0 <= i < self.entries@.len() && self.entries@[i as int].0@ == name@,
                None => forall|i: int| 0 <= i < self.entries@.len() ==> self.entries@[i].0@ != name@,
            },
    {
        let n = self.entries.len();
        let mut i: usize = 0;
        while i < n
            invariant
                n == self.entries@.len(),
                0 <= i <= n,
                forall|j: int| 0 <= j < i ==> self.entries@[j].0@ != name@,
            decreases n - i,
        {
            if self.entries[i].0 == *name {
                return Some(i);
            }
            i = i + 1;
        }
        None
    }

    pub fn contains_name(&self, name: &String) -> (r: bool)
        requires
            self.wf(),
        ensures
            r == self@.dom().contains(name@),
    {
        proof {
            lemma_uniform_map_of_dom(self.entries@);
        }
        self.find(name).is_some()
    }

    /// The resolved location of `name`, if the program exposes it.
    pub fn get(&self, name: &String) -> (r: Option<ShaderUniformHandle>)
        requires
            self.wf(),
        ensures
            match r {
                Some(h) => self@.dom().contains(name@) && h == self@[name@],
                None => !self@.dom().contains(name@),
            },
    {
        proof {
            lemma_uniform_map_of_dom(self.entries@);
        }
        match self.find(name) {
            Some(i) => {
                proof {
                    lemma_uniform_map_of_index(self.entries@, i as int);
                }
                Some(self.entries[i].1)
            },
            None => None,
        }
    }

    /// Resolving a name the program does not expose is a contract violation,
    /// not an empty-result case.
    pub fn lookup(&self, name: &String) -> (r: ShaderUniformHandle)
        requires
            self.wf(),
            self@.dom().contains(name@),
        ensures
            r == self@[name@],
    {
        self.get(name).unwrap()
    }

    /// Bind `name` to `handle`; a later bind for the same name wins.
    pub fn insert(&mut self, name: String, handle: ShaderUniformHandle)
        requires
            old(self).wf(),
        ensures
            final(self).wf(),
            final(self)@ == old(self)@.insert(name@, handle),
    {
        proof {
            lemma_uniform_map_of_dom(self.entries@);
        }
        match self.find(&name) {
            Some(i) => {
                proof {
                    lemma_uniform_map_of_update(self.entries@, i as int, name, handle);
                }
                self.entries[i] = (name, handle);
            },
            None => {
                self.entries.push((name, handle));
                proof {
                    assert(self.entries@.drop_last() =~= old(self).entries@);
                }
            },
        }
    }

    /// A fresh table with the same contents.
    pub fn duplicate(&self) -> (r: UniformMap)
        requires
            self.wf(),
        ensures
            r.wf(),
            r@ == self@,
            r.name_seq() == self.name_seq(),
    {
        let n = self.entries.len();
        let mut entries: Vec<(String, ShaderUniformHandle)> = Vec::new();
        let mut i: usize = 0;
        while i < n
            invariant
                n == self.entries@.len(),
                0 <= i <= n,
                entries@ =~= self.entries@.subrange(0, i as int),
            decreases n - i,
        {
            let name = self.entries[i].0.clone();
            entries.push((name, self.entries[i].1));
            proof {
                assert(entries@ =~= self.entries@.subrange(0, i + 1));
            }
            i = i + 1;
        }
        proof {
            assert(entries@ =~= self.entries@);
        }
        UniformMap { entries }
    }
}

/// A registered program: its handle and its resolved uniform table.
#[derive(Debug)]
pub struct ShaderProgram {
    pub handle: ShaderProgramHandle,
    pub uniforms: UniformMap,
}

impl ShaderProgram {
    /// Both maps of a well-formed program keep their invariants.
    pub open spec fn wf(&self) -> bool {
        self.uniforms.wf()
    }

    pub fn new(handle: ShaderProgramHandle) -> (r: ShaderProgram)
        ensures
            r.wf(),
            r.handle == handle,
            r.uniforms@ == Map::<Seq<char>, ShaderUniformHandle>::empty(),
    {
        ShaderProgram { handle, uniforms: UniformMap::new() }
    }

    /// A fresh record with the same handle and uniform table.
    pub fn duplicate(&self) -> (r: ShaderProgram)
        requires
            self.wf(),
        ensures
            r.wf(),
            r.handle == self.handle,
            r.uniforms@ == self.uniforms@,
    {
        ShaderProgram { handle: self.handle, uniforms: self.uniforms.duplicate() }
    }
}

/// Shader stage source text together with the uniform names the caller will
/// set before first draw; registration resolves every one of them or fails.
#[derive(Debug)]
pub struct ShaderSource {
    src: String,
    uniforms: Vec<String>,
}

impl ShaderSource {
    pub closed spec fn text(&self) -> Seq<char> {
        self.src@
    }

    pub closed spec fn uniform_names(&self) -> Seq<String> {
        self.uniforms@
    }

    pub fn new(src: String, uniforms: Vec<String>) -> (r: ShaderSource)
        ensures
            r.text() == src@,
            r.uniform_names() == uniforms@,
    {
        ShaderSource { src, uniforms }
    }

    pub fn source(&self) -> (r: &String)
        ensures
            r@ == self.text(),
    {
        &self.src
    }

    pub fn names(&self) -> (r: &Vec<String>)
        ensures
            r@ == self.uniform_names(),
    {
        &self.uniforms
    }
}

} // verus!
