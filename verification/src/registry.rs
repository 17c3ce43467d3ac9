//! Immutable snapshots of one build's compiled shader modules, indexed by
//! entry-point name, with identity handles that detect two names sharing one
//! binary without comparing bytes.

use vstd::prelude::*;

verus! {

/// A compiler failure: the external compiler's diagnostic text, carried to
/// whoever reports it, never silently swallowed.
#[derive(Debug)]
pub struct CompileError {
    pub diagnostic: String,
}

/// What one successful compile produced: either one shared binary for every
/// entry point, or one independent binary per entry-point name. The binaries
/// themselves still sit on disk; each variant carries paths.
pub enum CompileOutput {
    /// One module holding every entry point, at this path.
    Single(String),
    /// One module per entry point: `(entry_point_name, path)` pairs, the
    /// names pairwise distinct.
    Multi(Vec<(String, String)>),
}

/// One compiled module inside a registry snapshot.
#[derive(Debug)]
pub struct ModuleEntry {
    /// `None` is the wildcard: the module applies to every requested entry
    /// point not otherwise matched, and then it is the snapshot's only entry.
    pub entry_point: Option<String>,
    /// The module's bytecode, loaded into memory.
    pub binary: Vec<u8>,
    /// Equal identities mean byte-for-byte identical binaries: two names that
    /// were compiled into one file share one identity.
    pub source_identity: usize,
}

/// An immutable snapshot of one build, replaced only as a whole.
#[derive(Debug)]
pub struct ModuleRegistry {
    pub entries: Vec<ModuleEntry>,
}

/// Does `e` carry exactly the name `name`?
pub open spec fn entry_named(e: ModuleEntry, name: Seq<char>) -> bool {
    e.entry_point matches Some(n) && n@ == name
}

/// The index of the first entry named `name`, if any.
pub open spec fn find_named(entries: Seq<ModuleEntry>, name: Seq<char>) -> Option<int>
    decreases entries.len(),
{
    if entries.len() == 0 {
        None
    } else if entry_named(entries[0], name) {
        Some(0)
    } else {
        match find_named(entries.drop_first(), name) {
            Some(i) => Some(i + 1),
            None => None,
        }
    }
}

/// The index of the first wildcard entry, if any.
pub open spec fn find_wildcard(entries: Seq<ModuleEntry>) -> Option<int>
    decreases entries.len(),
{
    if entries.len() == 0 {
        None
    } else if entries[0].entry_point is None {
        Some(0)
    } else {
        match find_wildcard(entries.drop_first()) {
            Some(i) => Some(i + 1),
            None => None,
        }
    }
}

/// The resolution rule: the first entry whose name matches exactly, or, when
/// no exact match exists, the first wildcard entry. First match wins in
/// declaration order.
pub open spec fn resolve_index(entries: Seq<ModuleEntry>, name: Seq<char>) -> Option<int> {
    match find_named(entries, name) {
        Some(i) => Some(i),
        None => find_wildcard(entries),
    }
}

/// A requested entry point that no entry matches and no wildcard covers: a
/// build/config mismatch, treated as fatal by every caller.
#[derive(Debug)]
pub struct EntryPointNotFound {
    pub entry_point: String,
}

/// How to read a `Multi` output from disk without reading any file twice:
/// `paths` holds each distinct path once, and slot `i` says which of them the
/// `i`-th declared entry point was compiled into.
#[derive(Debug)]
pub struct LoadPlan {
    /// The distinct paths, each to be read exactly once.
    pub paths: Vec<String>,
    /// One `(entry_point_name, index into paths)` pair per declared name.
    pub slots: Vec<(String, usize)>,
}

impl LoadPlan {
    pub open spec fn wf(self) -> bool {
        &&& forall|i: int| 0 <= i < self.slots@.len() ==> self.slots@[i].1 < self.paths@.len()
        &&& forall|i: int, j: int|
            0 <= i < j < self.paths@.len() ==> self.paths@[i]@ != self.paths@[j]@
        &&& forall|i: int, j: int|
            0 <= i < j < self.slots@.len() ==> self.slots@[i].0@ != self.slots@[j].0@
    }
}

/// Is `p` the path of some pair in `named`?
pub open spec fn path_in(named: Seq<(String, String)>, p: Seq<char>) -> bool {
    exists|i: int| 0 <= i < named.len() && named[i].1@ == p
}

/// Are the declared entry-point names pairwise distinct? A `Multi` output
/// maps names to paths, so they must be, and `load_plan` requires it; this
/// test says whether a given list of pairs qualifies.
pub fn distinct_names(named: &Vec<(String, String)>) -> (r: bool)
    ensures
        r == (forall|i: int, j: int|
            0 <= i < j < named@.len() ==> named@[i].0@ != named@[j].0@),
{
    let n = named.len();
    let mut i: usize = 0;
    while i < n
        invariant
            n == named@.len(),
            0 <= i <= n,
            forall|a: int, b: int| 0 <= a < b < i ==> named@[a].0@ != named@[b].0@,
        decreases n - i,
    {
        let mut j: usize = 0;
        while j < i
            invariant
                n == named@.len(),
                0 <= j <= i < n,
                forall|a: int, b: int| 0 <= a < b < i ==> named@[a].0@ != named@[b].0@,
                forall|a: int| 0 <= a < j ==> named@[a].0@ != named@[i as int].0@,
            decreases i - j,
        {
            if named[j].0 == named[i].0 {
                return false;
            }
            j = j + 1;
        }
        i = i + 1;
    }
    true
}

/// Deduplicate a `Multi` output's `(entry_point_name, path)` pairs into a
/// load plan: the `i`-th slot keeps the `i`-th name and points into `paths`,
/// where each distinct path appears exactly once. Two names that reference
/// one path therefore share a slot index — the identity the registry uses.
pub fn load_plan(named: &Vec<(String, String)>) -> (plan: LoadPlan)
    requires
        forall|i: int, j: int|
            0 <= i < j < named@.len() ==> named@[i].0@ != named@[j].0@,
    ensures
        plan.wf(),
        plan.slots@.len() == named@.len(),
        forall|i: int| 0 <= i < named@.len() ==> plan.slots@[i].0@ == named@[i].0@,
        forall|i: int|
            0 <= i < named@.len() ==> plan.paths@[plan.slots@[i].1 as int]@ == named@[i].1@,
        forall|k: int|
            0 <= k < plan.paths@.len() ==> path_in(named@, #[trigger] plan.paths@[k]@),
{
    proof {
        assert(named@.take(named@.len() as int) =~= named@);
    }
    let mut paths: Vec<String> = Vec::new();
    let mut slots: Vec<(String, usize)> = Vec::new();
    let n = named.len();
    let mut i: usize = 0;
    while i < n
        invariant
            n == named@.len(),
            0 <= i <= n,
            slots@.len() == i,
            forall|a: int, b: int|
                0 <= a < b < named@.len() ==> named@[a].0@ != named@[b].0@,
            forall|a: int, b: int| 0 <= a < b < paths@.len() ==> paths@[a]@ != paths@[b]@,
            forall|k: int| 0 <= k < i ==> slots@[k].0@ == named@[k].0@,
            forall|k: int| 0 <= k < i ==> slots@[k].1 < paths@.len(),
            forall|k: int| 0 <= k < i ==> paths@[slots@[k].1 as int]@ == named@[k].1@,
            forall|k: int|
                0 <= k < paths@.len() ==> path_in(named@.take(i as int), #[trigger] paths@[k]@),
        decreases n - i,
    {
        let ghost paths_before = paths@;
        let mut slot: usize = 0;
        let mut found = false;
        let m = paths.len();
        let mut j: usize = 0;
        while j < m
            invariant
                m == paths@.len(),
                0 <= j <= m,
                i < n,
                n == named@.len(),
                !found ==> forall|k: int| 0 <= k < j ==> paths@[k]@ != named@[i as int].1@,
                found ==> slot < m && paths@[slot as int]@ == named@[i as int].1@,
            decreases m - j,
        {
            if !found && paths[j] == named[i].1 {
                found = true;
                slot = j;
            }
            j = j + 1;
        }
        if !found {
            slot = paths.len();
            paths.push(named[i].1.clone());
        }
        slots.push((named[i].0.clone(), slot));
        proof {
            let pre = named@.take(i as int);
            let post = named@.take(i + 1);
            assert forall|k: int| 0 <= k < paths@.len() implies path_in(
                post,
                #[trigger] paths@[k]@,
            ) by {
                if k < paths_before.len() {
                    assert(paths@[k] == paths_before[k]);
                    let a = choose|a: int| 0 <= a < pre.len() && pre[a].1@ == paths@[k]@;
                    assert(post[a] == named@[a]);
                    assert(post[a].1@ == paths@[k]@);
                } else {
                    assert(paths@[k]@ == named@[i as int].1@);
                    assert(post[i as int].1@ == paths@[k]@);
                }
            }
        }
        i = i + 1;
    }
    LoadPlan { paths, slots }
}

impl ModuleRegistry {
    /// Identity handles are truthful: equal identities mean identical bytes.
    pub open spec fn identities_consistent(self) -> bool {
        forall|i: int, j: int|
            0 <= i < self.entries@.len() && 0 <= j < self.entries@.len()
                && self.entries@[i].source_identity == self.entries@[j].source_identity
                ==> self.entries@[i].binary@ == self.entries@[j].binary@
    }

    /// The single-module shape: exactly one entry, the wildcard.
    pub open spec fn is_single(self) -> bool {
        self.entries@.len() == 1 && self.entries@[0].entry_point is None
    }

    /// The multi-module shape: every entry named, one entry per distinct name.
    pub open spec fn is_multi(self) -> bool {
        &&& forall|i: int|
            0 <= i < self.entries@.len() ==> self.entries@[i].entry_point is Some
        &&& forall|i: int, j: int|
            0 <= i < j < self.entries@.len()
                ==> self.entries@[i].entry_point->0@ != self.entries@[j].entry_point->0@
    }

    /// What every constructor establishes and nothing ever mutates.
    pub open spec fn wf(self) -> bool {
        self.identities_consistent() && (self.is_single() || self.is_multi())
    }

    /// The snapshot for a `Single` output: one wildcard entry holding the one
    /// loaded binary.
    pub fn from_single(binary: Vec<u8>) -> (reg: ModuleRegistry)
        ensures
            reg.wf(),
            reg.is_single(),
            reg.entries@.len() == 1,
            reg.entries@[0].entry_point is None,
            reg.entries@[0].binary@ == binary@,
            reg.entries@[0].source_identity == 0,
    {
        let mut entries: Vec<ModuleEntry> = Vec::new();
        entries.push(ModuleEntry { entry_point: None, binary, source_identity: 0 });
        ModuleRegistry { entries }
    }

    /// Does this snapshot carry, entry by entry, what `plan` declared and the
    /// binaries its paths were read into? Entry `i` holds the `i`-th declared
    /// name, the slot its path was deduplicated to as its identity, and the
    /// bytes read from that slot's path.
    pub open spec fn loads(self, plan: LoadPlan, binaries: Seq<Vec<u8>>) -> bool {
        &&& self.entries@.len() == plan.slots@.len()
        &&& forall|i: int|
            0 <= i < self.entries@.len() ==> {
                &&& self.entries@[i].entry_point matches Some(n) && n@ == plan.slots@[i].0@
                &&& self.entries@[i].source_identity == plan.slots@[i].1
                &&& self.entries@[i].binary@ == binaries[plan.slots@[i].1 as int]@
            }
    }

    /// The snapshot for a `Multi` output, from the dedup plan for its pairs
    /// and the binaries read once per distinct path, in the plan's order.
    ///
    /// Entry `i` carries the `i`-th declared name; its `source_identity` is
    /// the plan slot its path was deduplicated to, so two names compiled into
    /// one file share an identity, and equal identities mean equal bytes.
    pub fn from_multi(plan: &LoadPlan, binaries: &Vec<Vec<u8>>) -> (reg: ModuleRegistry)
        requires
            plan.wf(),
            binaries@.len() == plan.paths@.len(),
        ensures
            reg.wf(),
            reg.is_multi(),
            reg.loads(*plan, binaries@),
    {
        let mut entries: Vec<ModuleEntry> = Vec::new();
        let n = plan.slots.len();
        let mut i: usize = 0;
        while i < n
            invariant
                plan.wf(),
                binaries@.len() == plan.paths@.len(),
                n == plan.slots@.len(),
                0 <= i <= n,
                entries@.len() == i,
                forall|k: int|
                    0 <= k < i ==> {
                        &&& entries@[k].entry_point matches Some(m) && m@ == plan.slots@[k].0@
                        &&& entries@[k].source_identity == plan.slots@[k].1
                        &&& entries@[k].binary@ == binaries@[plan.slots@[k].1 as int]@
                    },
            decreases n - i,
        {
            let slot = plan.slots[i].1;
            entries.push(
                ModuleEntry {
                    entry_point: Some(plan.slots[i].0.clone()),
                    binary: binaries[slot].clone(),
                    source_identity: slot,
                },
            );
            i = i + 1;
        }
        ModuleRegistry { entries }
    }

    /// Resolve a requested entry point: the first exact name match, else the
    /// first wildcard, else the fatal mismatch error carrying the name.
    pub fn resolve(&self, entry_point: &String) -> (r: Result<&ModuleEntry, EntryPointNotFound>)
        ensures
            match r {
                Ok(e) => {
                    &&& resolve_index(self.entries@, entry_point@) matches Some(i)
                    &&& 0 <= i < self.entries@.len()
                    &&& *e == self.entries@[resolve_index(self.entries@, entry_point@)->0]
                },
                Err(err) => {
                    &&& resolve_index(self.entries@, entry_point@) is None
                    &&& err.entry_point@ == entry_point@
                },
            },
    {
        let n = self.entries.len();
        let mut i: usize = 0;
        while i < n
            invariant
                n == self.entries@.len(),
                0 <= i <= n,
                forall|k: int| 0 <= k < i ==> !entry_named(self.entries@[k], entry_point@),
            decreases n - i,
        {
            match &self.entries[i].entry_point {
                Some(name) => {
                    if *name == *entry_point {
                        proof {
                            lemma_find_named_first(self.entries@, entry_point@, i as int);
                        }
                        return Ok(&self.entries[i]);
                    }
                },
                None => {},
            }
            i = i + 1;
        }
        proof {
            lemma_find_named_none(self.entries@, entry_point@);
        }
        let mut j: usize = 0;
        while j < n
            invariant
                n == self.entries@.len(),
                0 <= j <= n,
                find_named(self.entries@, entry_point@) is None,
                forall|k: int| 0 <= k < j ==> self.entries@[k].entry_point is Some,
            decreases n - j,
        {
            match &self.entries[j].entry_point {
                Some(_) => {},
                None => {
                    proof {
                        lemma_find_wildcard_first(self.entries@, j as int);
                    }
                    return Ok(&self.entries[j]);
                },
            }
            j = j + 1;
        }
        proof {
            lemma_find_wildcard_none(self.entries@);
        }
        Err(EntryPointNotFound { entry_point: entry_point.clone() })
    }
}

/// Law: in a snapshot where every module is named and names are distinct,
/// each declared name resolves to its own entry — never to another's.
pub proof fn lemma_multi_resolves_declared_name(reg: ModuleRegistry, k: int)
    requires
        reg.is_multi(),
        0 <= k < reg.entries@.len(),
    ensures
        resolve_index(reg.entries@, reg.entries@[k].entry_point->0@) == Some(k),
{
    let name = reg.entries@[k].entry_point->0@;
    assert forall|a: int| 0 <= a < k implies !entry_named(reg.entries@[a], name) by {
        assert(reg.entries@[a].entry_point->0@ != reg.entries@[k].entry_point->0@);
    }
    lemma_find_named_first(reg.entries@, name, k);
}

/// Law: a snapshot built from a `Multi` output resolves every declared name
/// to a module whose identity — and hence whose bytes — are those of the file
/// produced for that name: slot `plan.slots[k].1`, read into
/// `binaries[plan.slots[k].1]`.
pub proof fn lemma_multi_resolve_matches_file(
    reg: ModuleRegistry,
    plan: LoadPlan,
    binaries: Seq<Vec<u8>>,
    k: int,
)
    requires
        reg.is_multi(),
        reg.loads(plan, binaries),
        0 <= k < plan.slots@.len(),
    ensures
        resolve_index(reg.entries@, plan.slots@[k].0@) == Some(k),
        reg.entries@[k].source_identity == plan.slots@[k].1,
        reg.entries@[k].binary@ == binaries[plan.slots@[k].1 as int]@,
{
    lemma_multi_resolves_declared_name(reg, k);
}

/// Law: a snapshot built from a `Single` output resolves every requested
/// name to its one module, by the wildcard fallback.
pub proof fn lemma_single_resolves_any_name(reg: ModuleRegistry, name: Seq<char>)
    requires
        reg.is_single(),
    ensures
        resolve_index(reg.entries@, name) == Some(0int),
{
    reveal_with_fuel(find_named, 2);
    reveal_with_fuel(find_wildcard, 2);
    assert(reg.entries@.drop_first().len() == 0);
    assert(!entry_named(reg.entries@[0], name));
}

/// If nothing before `i` matches `name` and `entries[i]` does, then `i` is the
/// first match.
proof fn lemma_find_named_first(entries: Seq<ModuleEntry>, name: Seq<char>, i: int)
    requires
        0 <= i < entries.len(),
        entry_named(entries[i], name),
        forall|k: int| 0 <= k < i ==> !entry_named(entries[k], name),
    ensures
        find_named(entries, name) == Some(i),
    decreases entries.len(),
{
    if i == 0 {
    } else {
        assert(forall|k: int|
            0 <= k < i - 1 ==> entries.drop_first()[k] == entries[k + 1]);
        lemma_find_named_first(entries.drop_first(), name, i - 1);
    }
}

/// If no entry matches `name`, the search comes back empty.
proof fn lemma_find_named_none(entries: Seq<ModuleEntry>, name: Seq<char>)
    requires
        forall|k: int| 0 <= k < entries.len() ==> !entry_named(entries[k], name),
    ensures
        find_named(entries, name) is None,
    decreases entries.len(),
{
    if entries.len() > 0 {
        assert(forall|k: int|
            0 <= k < entries.len() - 1 ==> entries.drop_first()[k] == entries[k + 1]);
        lemma_find_named_none(entries.drop_first(), name);
    }
}

/// If nothing before `i` is a wildcard and `entries[i]` is, then `i` is the
/// first wildcard.
proof fn lemma_find_wildcard_first(entries: Seq<ModuleEntry>, i: int)
    requires
        0 <= i < entries.len(),
        entries[i].entry_point is None,
        forall|k: int| 0 <= k < i ==> entries[k].entry_point is Some,
    ensures
        find_wildcard(entries) == Some(i),
    decreases entries.len(),
{
    if i == 0 {
    } else {
        assert(forall|k: int|
            0 <= k < i - 1 ==> entries.drop_first()[k] == entries[k + 1]);
        lemma_find_wildcard_first(entries.drop_first(), i - 1);
    }
}

/// If every entry is named, there is no wildcard to fall back to.
proof fn lemma_find_wildcard_none(entries: Seq<ModuleEntry>)
    requires
        forall|k: int| 0 <= k < entries.len() ==> entries[k].entry_point is Some,
    ensures
        find_wildcard(entries) is None,
    decreases entries.len(),
{
    if entries.len() > 0 {
        assert(forall|k: int|
            0 <= k < entries.len() - 1 ==> entries.drop_first()[k] == entries[k + 1]);
        lemma_find_wildcard_none(entries.drop_first());
    }
}

} // verus!
