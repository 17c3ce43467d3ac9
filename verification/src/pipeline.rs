//! Turning a registry snapshot into the plan for one executable GPU pipeline:
//! which binaries to upload (each at most once), which uploaded module each
//! stage binds, and the fixed resource layout both stages share.

use vstd::prelude::*;

use crate::registry::{resolve_index, EntryPointNotFound, ModuleRegistry};
use crate::CONSTANTS_SIZE;

verus! {

/// One programmable stage's binding: which upload its module comes from and
/// which entry point inside it to invoke.
#[derive(Debug)]
pub struct StageBinding {
    /// Index into [`PipelinePlan::uploads`].
    pub module: usize,
    /// The entry-point name handed to the GPU for this stage.
    pub entry_point: String,
}

/// Everything the GPU needs to construct one pipeline, with the uploads
/// already deduplicated: when both stages resolve to one binary it appears
/// once and both bindings point at it.
#[derive(Debug)]
pub struct PipelinePlan {
    /// The distinct binaries to create GPU modules from, in upload order.
    pub uploads: Vec<Vec<u8>>,
    pub vertex: StageBinding,
    pub fragment: StageBinding,
    /// The byte length of the push-constant range both stages share: sized to
    /// exactly fit the resource-constants block.
    pub push_constant_size: u32,
}

/// What a correct plan for `registry` and the two requested entry points
/// looks like: both stages bound to the binaries their names resolve to, the
/// push-constant range sized to the constants block, and — when the two
/// resolved entries share a `source_identity` — the binary uploaded exactly
/// once and referenced from both stages.
pub open spec fn plan_for(
    plan: PipelinePlan,
    registry: ModuleRegistry,
    vertex_entry: Seq<char>,
    fragment_entry: Seq<char>,
) -> bool {
    let vi = resolve_index(registry.entries@, vertex_entry)->0;
    let fi = resolve_index(registry.entries@, fragment_entry)->0;
    &&& resolve_index(registry.entries@, vertex_entry) is Some
    &&& resolve_index(registry.entries@, fragment_entry) is Some
    &&& plan.vertex.entry_point@ == vertex_entry
    &&& plan.fragment.entry_point@ == fragment_entry
    &&& plan.push_constant_size == CONSTANTS_SIZE
    &&& plan.vertex.module < plan.uploads@.len()
    &&& plan.fragment.module < plan.uploads@.len()
    &&& plan.uploads@[plan.vertex.module as int]@ == registry.entries@[vi].binary@
    &&& plan.uploads@[plan.fragment.module as int]@ == registry.entries@[fi].binary@
    &&& if registry.entries@[vi].source_identity == registry.entries@[fi].source_identity {
        plan.uploads@.len() == 1 && plan.vertex.module == 0 && plan.fragment.module == 0
    } else {
        plan.uploads@.len() == 2 && plan.vertex.module == 0 && plan.fragment.module == 1
    }
}

/// Resolve the two stage entry points in `registry` and lay out the uploads.
///
/// Both stages resolve by the registry's rule (exact name first, wildcard
/// fallback); a miss is the fatal mismatch error, the vertex stage checked
/// first. When the two resolved entries share a `source_identity` the binary
/// is uploaded exactly once and referenced from both stages.
pub fn build_plan(
    registry: &ModuleRegistry,
    vertex_entry: &String,
    fragment_entry: &String,
) -> (r: Result<PipelinePlan, EntryPointNotFound>)
    requires
        registry.wf(),
    ensures
        r is Ok <==> resolve_index(registry.entries@, vertex_entry@) is Some && resolve_index(
            registry.entries@,
            fragment_entry@,
        ) is Some,
        r matches Ok(plan) ==> plan_for(plan, *registry, vertex_entry@, fragment_entry@),
        r matches Err(err) ==> err.entry_point@ == if resolve_index(
            registry.entries@,
            vertex_entry@,
        ) is None {
            vertex_entry@
        } else {
            fragment_entry@
        },
{
    let vertex_module = match registry.resolve(vertex_entry) {
        Ok(e) => e,
        Err(err) => {
            return Err(err);
        },
    };
    let fragment_module = match registry.resolve(fragment_entry) {
        Ok(e) => e,
        Err(err) => {
            return Err(err);
        },
    };
    let mut uploads: Vec<Vec<u8>> = Vec::new();
    uploads.push(vertex_module.binary.clone());
    let fragment_slot: usize;
    if vertex_module.source_identity == fragment_module.source_identity {
        // One underlying module: upload it once, bind it from both stages.
        fragment_slot = 0;
    } else {
        uploads.push(fragment_module.binary.clone());
        fragment_slot = 1;
    }
    Ok(
        PipelinePlan {
            uploads,
            vertex: StageBinding { module: 0, entry_point: vertex_entry.clone() },
            fragment: StageBinding { module: fragment_slot, entry_point: fragment_entry.clone() },
            push_constant_size: CONSTANTS_SIZE,
        },
    )
}

/// A binary whose length is not a whole number of 32-bit words cannot be
/// bytecode for the GPU: construction must fail rather than upload garbage.
#[derive(Debug)]
pub struct MalformedBinary {
    pub length: usize,
}

/// The 32-bit word at position `i`, read little endian from `bytes`.
pub open spec fn spec_word_at(bytes: Seq<u8>, i: int) -> u32 {
    (bytes[4 * i] + bytes[4 * i + 1] * 0x100 + bytes[4 * i + 2] * 0x10000 + bytes[4 * i + 3]
        * 0x1000000) as u32
}

/// Repack a module's bytes into the 32-bit words the GPU consumes, little
/// endian; a length that is not a multiple of four is rejected.
pub fn spirv_words(bytes: &Vec<u8>) -> (r: Result<Vec<u32>, MalformedBinary>)
    ensures
        r is Ok <==> bytes@.len() % 4 == 0,
        r matches Ok(words) ==> {
            &&& words@.len() == bytes@.len() / 4
            &&& forall|i: int| 0 <= i < words@.len() ==> words@[i] == spec_word_at(bytes@, i)
        },
        r matches Err(err) ==> err.length == bytes@.len(),
{
    let n = bytes.len();
    if n % 4 != 0 {
        return Err(MalformedBinary { length: n });
    }
    let mut words: Vec<u32> = Vec::new();
    let mut i: usize = 0;
    while i < n / 4
        invariant
            n == bytes@.len(),
            n % 4 == 0,
            0 <= i <= n / 4,
            words@.len() == i,
            forall|k: int| 0 <= k < i ==> words@[k] == spec_word_at(bytes@, k),
        decreases n / 4 - i,
    {
        let b0 = bytes[4 * i] as u32;
        let b1 = bytes[4 * i + 1] as u32;
        let b2 = bytes[4 * i + 2] as u32;
        let b3 = bytes[4 * i + 3] as u32;
        words.push(b0 + b1 * 0x100 + b2 * 0x10000 + b3 * 0x1000000);
        i = i + 1;
    }
    Ok(words)
}

} // verus!
