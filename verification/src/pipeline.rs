//! The shader build pipeline: compile, link, validate, resolve uniforms.
//!
//! The GPU driver is a collaborator that the embedding program talks to; this
//! module holds the decisions around its replies. Each driver answer (a
//! compile status with its info log, a link status, a set of uniform
//! locations) is handed in as a plain value, and the functions here say
//! exactly which replies produce a registered program and which produce
//! which error. Link failure is fatal for the program; a validation failure
//! is only a warning and never invalidates the handle.

use vstd::prelude::*;
use crate::component::{ShaderProgramHandle, ShaderStageHandle, ShaderUniformHandle};
use crate::uniform::{ShaderProgram, UniformMap};

verus! {

/// Sources longer than this are truncated, with a warning, before they are
/// handed to the driver: 256 KiB.
pub const MAX_SHADER_LENGTH: usize = 262144;

/// Which stage of a program a source text or a diagnostic belongs to.
#[derive(Clone, Copy, PartialEq, Eq, Structural, Debug)]
pub enum StageKind {
    Vertex,
    Fragment,
}

/// A fatal failure while building one program's resources. Driver-reported
/// text is carried verbatim; the compile case also names the failing stage.
#[derive(PartialEq, Eq, Debug)]
pub enum ShaderCompilationError {
    /// The caller could not produce the source text at all.
    ShaderNotFound(String),
    /// One stage failed to compile; carries the driver's info log.
    CompileFailed(StageKind, String),
    /// The program failed to link; carries the driver's info log.
    LinkFailed(String),
    /// A requested uniform name is absent from the linked program.
    UniformNotFound(String),
}

impl ShaderCompilationError {
    /// A human-readable description of the failure, with the file name,
    /// driver log or uniform name appended verbatim.
    pub fn message(&self) -> (r: String)
        ensures
            match self {
                ShaderCompilationError::ShaderNotFound(f) => r@ == (
                "Could not open the shader file for reading: ")@ + f@,
                ShaderCompilationError::CompileFailed(kind, log) => r@ == (match kind {
                    StageKind::Vertex => ("The vertex shader could not be compiled: ")@,
                    StageKind::Fragment => ("The fragment shader could not be compiled: ")@,
                }) + log@,
                ShaderCompilationError::LinkFailed(log) => r@ == (
                "The shader program could not be linked: ")@ + log@,
                ShaderCompilationError::UniformNotFound(name) => r@ == (
                "The shader program does not expose the uniform: ")@ + name@,
            },
    {
        match self {
            ShaderCompilationError::ShaderNotFound(f) => "Could not open the shader file for reading: ".to_owned().concat(
                f.as_str(),
            ),
            ShaderCompilationError::CompileFailed(StageKind::Vertex, log) => "The vertex shader could not be compiled: ".to_owned().concat(
                log.as_str(),
            ),
            ShaderCompilationError::CompileFailed(StageKind::Fragment, log) => "The fragment shader could not be compiled: ".to_owned().concat(
                log.as_str(),
            ),
            ShaderCompilationError::LinkFailed(log) => "The shader program could not be linked: ".to_owned().concat(
                log.as_str(),
            ),
            ShaderCompilationError::UniformNotFound(name) => "The shader program does not expose the uniform: ".to_owned().concat(
                name.as_str(),
            ),
        }
    }
}

/// The driver's info log for one shader stage object.
#[derive(Debug)]
pub struct ShaderLog {
    pub index: u32,
    pub log: String,
}

impl ShaderLog {
    pub fn new(index: u32, log: String) -> (r: ShaderLog)
        ensures
            r.index == index,
            r.log == log,
    {
        ShaderLog { index, log }
    }
}

/// The driver's info log for one program object.
#[derive(Debug)]
pub struct ProgramLog {
    pub index: u32,
    pub log: String,
}

impl ProgramLog {
    pub fn new(index: u32, log: String) -> (r: ProgramLog)
        ensures
            r.index == index,
            r.log == log,
    {
        ProgramLog { index, log }
    }
}

/// What the driver reported for one compile request: the stage object it
/// allocated, whether compilation succeeded, and the info log.
#[derive(Debug)]
pub struct CompileReply {
    pub ok: bool,
    pub log: ShaderLog,
}

/// What the driver reported for one link request.
#[derive(Debug)]
pub struct LinkReply {
    pub ok: bool,
    pub log: ProgramLog,
}

/// What the driver reported when the linked program was validated.
#[derive(Debug)]
pub struct ValidateReply {
    pub ok: bool,
    pub log: ProgramLog,
}

/// The validation verdict surfaced to the caller: warning-level only, the
/// program handle stays valid either way.
#[derive(Debug)]
pub struct ValidationReport {
    pub accepted: bool,
    pub log: String,
}

/// The GLSL scalar, vector and matrix type tokens the driver reports for
/// active uniforms and attributes, with their host-side storage sizes.
/// Floats and integers take four bytes per component, booleans one.
pub open spec fn spec_type_size(gl_type: u32) -> Option<usize> {
    match gl_type {
        0x1406u32 => Some(4usize),  // float
        0x8B50u32 => Some(8usize),  // float vec2
        0x8B51u32 => Some(12usize),  // float vec3
        0x8B52u32 => Some(16usize),  // float vec4
        0x1404u32 => Some(4usize),  // int
        0x8B53u32 => Some(8usize),  // int vec2
        0x8B54u32 => Some(12usize),  // int vec3
        0x8B55u32 => Some(16usize),  // int vec4
        0x1405u32 => Some(4usize),  // unsigned int
        0x8DC6u32 => Some(8usize),  // unsigned int vec2
        0x8DC7u32 => Some(12usize),  // unsigned int vec3
        0x8DC8u32 => Some(16usize),  // unsigned int vec4
        0x8B56u32 => Some(1usize),  // bool
        0x8B57u32 => Some(2usize),  // bool vec2
        0x8B58u32 => Some(3usize),  // bool vec3
        0x8B59u32 => Some(4usize),  // bool vec4
        0x8B5Au32 => Some(16usize),  // float mat2
        0x8B65u32 => Some(24usize),  // float mat2x3
        0x8B66u32 => Some(32usize),  // float mat2x4
        0x8B5Bu32 => Some(36usize),  // float mat3
        0x8B67u32 => Some(24usize),  // float mat3x2
        0x8B68u32 => Some(48usize),  // float mat3x4
        0x8B5Cu32 => Some(64usize),  // float mat4
        0x8B69u32 => Some(32usize),  // float mat4x2
        0x8B6Au32 => Some(48usize),  // float mat4x3
        _ => None,
    }
}

/// The storage size of one driver-reported GLSL type. An unknown type
/// token is a construction-time bug, so the token is required to be known.
pub fn type_size(gl_type: u32) -> (r: usize)
    requires
        spec_type_size(gl_type) is Some,
    ensures
        r == spec_type_size(gl_type).unwrap(),
{
    match gl_type {
        0x1406u32 => 4,
        0x8B50u32 => 8,
        0x8B51u32 => 12,
        0x8B52u32 => 16,
        0x1404u32 => 4,
        0x8B53u32 => 8,
        0x8B54u32 => 12,
        0x8B55u32 => 16,
        0x1405u32 => 4,
        0x8DC6u32 => 8,
        0x8DC7u32 => 12,
        0x8DC8u32 => 16,
        0x8B56u32 => 1,
        0x8B57u32 => 2,
        0x8B58u32 => 3,
        0x8B59u32 => 4,
        0x8B5Au32 => 16,
        0x8B65u32 => 24,
        0x8B66u32 => 32,
        0x8B5Bu32 => 36,
        0x8B67u32 => 24,
        0x8B68u32 => 48,
        0x8B5Cu32 => 64,
        0x8B69u32 => 32,
        0x8B6Au32 => 48,
        _ => 0,
    }
}

/// Whether the driver-reported GLSL type token is one the demo knows.
pub fn type_size_known(gl_type: u32) -> (r: bool)
    ensures
        r == (spec_type_size(gl_type) is Some),
{
    match gl_type {
        0x1406u32 | 0x8B50u32 | 0x8B51u32 | 0x8B52u32 | 0x1404u32 | 0x8B53u32 | 0x8B54u32
            | 0x8B55u32 | 0x1405u32 | 0x8DC6u32 | 0x8DC7u32 | 0x8DC8u32 | 0x8B56u32 | 0x8B57u32
            | 0x8B58u32 | 0x8B59u32 | 0x8B5Au32 | 0x8B65u32 | 0x8B66u32 | 0x8B5Bu32 | 0x8B67u32
            | 0x8B68u32 | 0x8B5Cu32 | 0x8B69u32 | 0x8B6Au32 => true,
        _ => false,
    }
}

/// The source text to hand to the driver: the input unchanged, or, past the
/// size limit, its first `MAX_SHADER_LENGTH` bytes with the truncation
/// flagged so the caller can warn.
pub fn prepare_source(source: &[u8]) -> (r: (Vec<u8>, bool))
    ensures
        r.1 == (source@.len() > MAX_SHADER_LENGTH),
        source@.len() <= MAX_SHADER_LENGTH ==> r.0@ == source@,
        source@.len() > MAX_SHADER_LENGTH ==> r.0@ == source@.subrange(
            0,
            MAX_SHADER_LENGTH as int,
        ),
{
    let n = source.len();
    let truncated = n > MAX_SHADER_LENGTH;
    let limit = if truncated {
        MAX_SHADER_LENGTH
    } else {
        n
    };
    let mut text: Vec<u8> = Vec::new();
    let mut i: usize = 0;
    while i < limit
        invariant
            limit <= source@.len(),
            0 <= i <= limit,
            text@ =~= source@.subrange(0, i as int),
        decreases limit - i,
    {
        text.push(source[i]);
        proof {
            assert(text@ =~= source@.subrange(0, i + 1));
        }
        i = i + 1;
    }
    proof {
        if !truncated {
            assert(source@.subrange(0, n as int) =~= source@);
        }
    }
    (text, truncated)
}

/// The stage handle or the error that one compile reply stands for: a
/// successful reply yields the driver's stage object, a failed one yields
/// `CompileFailed` naming the stage and carrying the log verbatim. No handle
/// survives a failed compile.
pub fn compile_outcome(kind: StageKind, reply: &CompileReply) -> (r: Result<
    ShaderStageHandle,
    ShaderCompilationError,
>)
    ensures
        r is Ok <==> reply.ok,
        r matches Ok(h) ==> h.id() == reply.log.index,
        !reply.ok ==> r == Err::<ShaderStageHandle, _>(
            ShaderCompilationError::CompileFailed(kind, reply.log.log),
        ),
{
    if reply.ok {
        Ok(ShaderStageHandle::new(reply.log.index))
    } else {
        Err(ShaderCompilationError::CompileFailed(kind, reply.log.log.clone()))
    }
}

/// The program handle or the error that one link reply stands for, together
/// with the stage objects that are to be freed: both of them once the link
/// succeeded, none on failure (failed stages are kept for their logs).
pub fn link_outcome(vertex: ShaderStageHandle, fragment: ShaderStageHandle, reply: &LinkReply) -> (r: (
    Result<ShaderProgramHandle, ShaderCompilationError>,
    Vec<ShaderStageHandle>,
))
    ensures
        r.0 is Ok <==> reply.ok,
        r.0 matches Ok(p) ==> p.id() == reply.log.index,
        reply.ok ==> r.1@ =~= seq![vertex, fragment],
        !reply.ok ==> r.0 == Err::<ShaderProgramHandle, _>(
            ShaderCompilationError::LinkFailed(reply.log.log),
        ) && r.1@ =~= Seq::<ShaderStageHandle>::empty(),
{
    if reply.ok {
        let mut freed: Vec<ShaderStageHandle> = Vec::new();
        freed.push(vertex);
        freed.push(fragment);
        (Ok(ShaderProgramHandle::new(reply.log.index)), freed)
    } else {
        (Err(ShaderCompilationError::LinkFailed(reply.log.log.clone())), Vec::new())
    }
}

/// The warning-level report that one validation reply stands for. A failed
/// validation never invalidates the program: some drivers report false
/// negatives, so the verdict is surfaced and the handle kept.
pub fn validation_report(reply: &ValidateReply) -> (r: ValidationReport)
    ensures
        r.accepted == reply.ok,
        r.log == reply.log.log,
{
    ValidationReport { accepted: reply.ok, log: reply.log.log.clone() }
}

/// The uniform table described by a name list and the locations the driver
/// reported for them, pairwise; a later occurrence of a name wins.
pub open spec fn resolved_map(names: Seq<String>, locs: Seq<i32>) -> Map<
    Seq<char>,
    ShaderUniformHandle,
>
    recommends
        names.len() == locs.len(),
    decreases names.len(),
{
    if names.len() == 0 {
        Map::empty()
    } else {
        resolved_map(names.drop_last(), locs.drop_last()).insert(
            names.last()@,
            ShaderUniformHandle::from_loc(locs.last()),
        )
    }
}

/// Every listed name is in the described table, and every table entry came
/// from the list, with the location the driver gave some occurrence of it.
pub proof fn lemma_resolved_map_covers(names: Seq<String>, locs: Seq<i32>)
    requires
        names.len() == locs.len(),
    ensures
        forall|i: int|
            0 <= i < names.len() ==> #[trigger] resolved_map(names, locs).dom().contains(
                names[i]@,
            ),
        forall|k: Seq<char>|
            #[trigger] resolved_map(names, locs).dom().contains(k) ==> exists|i: int|
                0 <= i < names.len() && names[i]@ == k && resolved_map(names, locs)[k]
                    == ShaderUniformHandle::from_loc(locs[i]),
    decreases names.len(),
{
    broadcast use crate::component::lemma_from_loc;

    if names.len() > 0 {
        lemma_resolved_map_covers(names.drop_last(), locs.drop_last());
        let m = resolved_map(names, locs);
        let sub = resolved_map(names.drop_last(), locs.drop_last());
        assert forall|i: int| 0 <= i < names.len() implies #[trigger] m.dom().contains(
            names[i]@,
        ) by {
            if i < names.len() - 1 {
                assert(names.drop_last()[i] == names[i]);
                assert(sub.dom().contains(names[i]@));
            }
        }
        assert forall|k: Seq<char>| #[trigger] m.dom().contains(k) implies exists|i: int|
            0 <= i < names.len() && names[i]@ == k && m[k] == ShaderUniformHandle::from_loc(
                locs[i],
            ) by {
            if k == names.last()@ {
                let i = names.len() - 1;
                assert(names[i]@ == k && m[k] == ShaderUniformHandle::from_loc(locs[i]));
            } else {
                assert(sub.dom().contains(k));
                let i = choose|i: int|
                    0 <= i < names.drop_last().len() && names.drop_last()[i]@ == k && sub[k]
                        == ShaderUniformHandle::from_loc(locs.drop_last()[i]);
                assert(names[i]@ == k && m[k] == ShaderUniformHandle::from_loc(locs[i]));
            }
        }
    }
}

/// Whenever every stage compiled, the program linked and every requested
/// uniform resolved, the registered program holds a handle for every
/// requested name, and every handle it holds carries a non-negative
/// location.
pub proof fn lemma_registered_uniforms_nonnegative(names: Seq<String>, locs: Seq<i32>)
    requires
        names.len() == locs.len(),
        forall|i: int| 0 <= i < locs.len() ==> locs[i] >= 0,
    ensures
        forall|i: int|
            0 <= i < names.len() ==> #[trigger] resolved_map(names, locs).dom().contains(
                names[i]@,
            ),
        forall|k: Seq<char>|
            #[trigger] resolved_map(names, locs).dom().contains(k) ==> resolved_map(names, locs)[
                k].location() >= 0,
{
    broadcast use crate::component::lemma_from_loc;

    lemma_resolved_map_covers(names, locs);
}

/// The index of the first location the driver reported as not found
/// (negative), or the list's length when every name resolved.
pub open spec fn first_missing(locs: Seq<i32>) -> int
    decreases locs.len(),
{
    if locs.len() == 0 {
        0
    } else if locs[0] < 0 {
        0
    } else {
        1 + first_missing(locs.drop_first())
    }
}

proof fn lemma_first_missing_at(locs: Seq<i32>, i: int)
    requires
        0 <= i <= locs.len(),
        forall|j: int| 0 <= j < i ==> locs[j] >= 0,
        i < locs.len() ==> locs[i] < 0,
    ensures
        first_missing(locs) == i,
    decreases i,
{
    if locs.len() == 0 {
    } else if i == 0 {
    } else {
        assert forall|j: int| 0 <= j < i - 1 implies locs.drop_first()[j] >= 0 by {
            assert(locs[j + 1] >= 0);
        }
        assert(i - 1 < locs.drop_first().len() ==> locs.drop_first()[i - 1] < 0);
        lemma_first_missing_at(locs.drop_first(), i - 1);
    }
}

/// The registry step after a successful link: resolve every requested
/// uniform name. Any name the driver reported as missing (a negative
/// location) is a hard construction error naming the first such uniform;
/// only when every name resolved is a program record built, with exactly
/// the requested names in its table, each at the driver's location.
pub fn resolve_uniforms(
    handle: ShaderProgramHandle,
    names: &Vec<String>,
    locations: &Vec<i32>,
) -> (r: Result<ShaderProgram, ShaderCompilationError>)
    requires
        names@.len() == locations@.len(),
    ensures
        r is Ok <==> (forall|i: int| 0 <= i < locations@.len() ==> locations@[i] >= 0),
        r matches Ok(sp) ==> sp.wf() && sp.handle == handle && sp.uniforms@ == resolved_map(
            names@,
            locations@,
        ),
        (exists|i: int| 0 <= i < locations@.len() && locations@[i] < 0) ==> r == Err::<
            ShaderProgram,
            _,
        >(ShaderCompilationError::UniformNotFound(names@[first_missing(locations@)])),
{
    let n = names.len();
    let mut um = UniformMap::new();
    let mut i: usize = 0;
    while i < n
        invariant
            n == names@.len(),
            names@.len() == locations@.len(),
            0 <= i <= n,
            forall|j: int| 0 <= j < i ==> locations@[j] >= 0,
            um.wf(),
            um@ == resolved_map(names@.subrange(0, i as int), locations@.subrange(0, i as int)),
        decreases n - i,
    {
        let loc = locations[i];
        if loc < 0 {
            proof {
                lemma_first_missing_at(locations@, i as int);
            }
            return Err(ShaderCompilationError::UniformNotFound(names[i].clone()));
        }
        um.insert(names[i].clone(), ShaderUniformHandle::new(loc));
        proof {
            let sub1 = names@.subrange(0, i + 1);
            let lub1 = locations@.subrange(0, i + 1);
            assert(sub1.drop_last() =~= names@.subrange(0, i as int));
            assert(lub1.drop_last() =~= locations@.subrange(0, i as int));
            assert(sub1.last() == names@[i as int] && lub1.last() == locations@[i as int]);
        }
        i = i + 1;
    }
    proof {
        assert(names@.subrange(0, n as int) =~= names@);
        assert(locations@.subrange(0, n as int) =~= locations@);
    }
    Ok(ShaderProgram { handle, uniforms: um })
}

/// One whole driver conversation for building a program: both compile
/// replies, the link reply, the validation reply, and the location the
/// driver reported for each requested uniform name, in order.
#[derive(Debug)]
pub struct BuildReplies {
    pub vertex: CompileReply,
    pub fragment: CompileReply,
    pub link: LinkReply,
    pub validate: ValidateReply,
    pub uniform_locations: Vec<i32>,
}

/// A successfully registered program: the record itself, the warning-level
/// validation verdict, and the stage objects the driver is to free.
#[derive(Debug)]
pub struct RegisteredProgram {
    pub program: ShaderProgram,
    pub validation: ValidationReport,
    pub freed_stages: Vec<ShaderStageHandle>,
}

impl BuildReplies {
    /// Every reply reports success and every requested uniform resolved.
    pub open spec fn succeeds(&self, names: Seq<String>) -> bool {
        &&& self.vertex.ok
        &&& self.fragment.ok
        &&& self.link.ok
        &&& forall|i: int|
            0 <= i < self.uniform_locations@.len() ==> self.uniform_locations@[i] >= 0
    }
}

/// The whole registration chain: compile both stages, link, validate,
/// resolve every requested uniform. It short-circuits on the first failure,
/// the error names the failing step (and stage), and a program record comes
/// out exactly when every step succeeded. Validation cannot fail the chain:
/// its verdict is carried as a warning in the result.
pub fn register_program(names: &Vec<String>, replies: &BuildReplies) -> (r: Result<
    RegisteredProgram,
    ShaderCompilationError,
>)
    requires
        replies.uniform_locations@.len() == names@.len(),
    ensures
        r is Ok <==> replies.succeeds(names@),
        !replies.vertex.ok ==> r == Err::<RegisteredProgram, _>(
            ShaderCompilationError::CompileFailed(StageKind::Vertex, replies.vertex.log.log),
        ),
        replies.vertex.ok && !replies.fragment.ok ==> r == Err::<RegisteredProgram, _>(
            ShaderCompilationError::CompileFailed(StageKind::Fragment, replies.fragment.log.log),
        ),
        replies.vertex.ok && replies.fragment.ok && !replies.link.ok ==> r == Err::<
            RegisteredProgram,
            _,
        >(ShaderCompilationError::LinkFailed(replies.link.log.log)),
        replies.vertex.ok && replies.fragment.ok && replies.link.ok && (exists|i: int|
            0 <= i < replies.uniform_locations@.len() && replies.uniform_locations@[i] < 0)
            ==> r == Err::<RegisteredProgram, _>(
            ShaderCompilationError::UniformNotFound(
                names@[first_missing(replies.uniform_locations@)],
            ),
        ),
        r matches Ok(rp) ==> {
            &&& rp.program.wf()
            &&& rp.program.handle.id() == replies.link.log.index
            &&& rp.program.uniforms@ == resolved_map(names@, replies.uniform_locations@)
            &&& rp.validation.accepted == replies.validate.ok
            &&& rp.validation.log == replies.validate.log.log
            &&& rp.freed_stages@.len() == 2
            &&& rp.freed_stages@[0].id() == replies.vertex.log.index
            &&& rp.freed_stages@[1].id() == replies.fragment.log.index
        },
{
    let vertex = match compile_outcome(StageKind::Vertex, &replies.vertex) {
        Ok(h) => h,
        Err(e) => {
            return Err(e);
        },
    };
    let fragment = match compile_outcome(StageKind::Fragment, &replies.fragment) {
        Ok(h) => h,
        Err(e) => {
            return Err(e);
        },
    };
    let (linked, freed_stages) = link_outcome(vertex, fragment, &replies.link);
    let handle = match linked {
        Ok(h) => h,
        Err(e) => {
            return Err(e);
        },
    };
    let program = match resolve_uniforms(handle, names, &replies.uniform_locations) {
        Ok(sp) => sp,
        Err(e) => {
            return Err(e);
        },
    };
    let validation = validation_report(&replies.validate);
    Ok(RegisteredProgram { program, validation, freed_stages })
}

} // verus!
