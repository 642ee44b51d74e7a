//! Data-processing components: a filter/map pipeline with a result
//! cache and a bulk small-object store.

use vstd::prelude::*;
use vstd::string::StringExecFns;
use crate::const_features::spec_sum;
use crate::digits::{spec_decimal, u128_to_decimal};
use crate::vecmap::{Keyed, KeyedVec, NamedEntry, sum_by};

verus! {

/// Keeps a value if it is positive and its double is below 100.
pub open spec fn keeps(x: i32) -> bool {
    x > 0 && 2 * x < 100
}

/// The pipeline's output: positives doubled, doubles of 100 and more
/// dropped.
pub open spec fn spec_processed(s: Seq<i32>) -> Seq<i32>
    decreases s.len(),
{
    if s.len() == 0 {
        Seq::empty()
    } else {
        spec_processed(s.drop_last()) + if keeps(s.last()) {
            seq![(2 * s.last()) as i32]
        } else {
            Seq::empty()
        }
    }
}

/// Chained filter/map processing of integer data, with a cache for
/// derived values.
pub struct JITOptimizedProcessor {
    data: Vec<i32>,
    cache: KeyedVec<NamedEntry<i32>>,
}

impl JITOptimizedProcessor {
    /// The data being processed.
    pub closed spec fn spec_data(&self) -> Seq<i32> {
        self.data@
    }

    /// The cached values, by key.
    pub closed spec fn cache_view(&self) -> Map<Seq<char>, NamedEntry<i32>> {
        self.cache.view()
    }

    /// Cache keys are unique.
    pub closed spec fn wf(&self) -> bool {
        self.cache.well_formed()
    }

    /// A processor over `data` with an empty cache.
    pub fn new(data: Vec<i32>) -> (r: Self)
        ensures
            r.wf(),
            r.spec_data() == data@,
            r.cache_view() == Map::<Seq<char>, NamedEntry<i32>>::empty(),
    {
        JITOptimizedProcessor { data, cache: KeyedVec::new() }
    }

    /// Run the pipeline: keep the positive values, double them, and
    /// drop doubles of 100 or more.
    pub fn process_data(&mut self) -> (r: Vec<i32>)
        requires
            old(self).wf(),
            forall|i: int| 0 <= i < old(self).spec_data().len()
                ==> (#[trigger] old(self).spec_data()[i]) <= i32::MAX / 2,
        ensures
            *final(self) == *old(self),
            r@ == spec_processed(old(self).spec_data()),
    {
        let n = self.data.len();
        let mut out: Vec<i32> = Vec::new();
        let mut i: usize = 0;
        proof {
            assert(self.data@.take(0) =~= Seq::<i32>::empty());
            assert(out@ =~= spec_processed(self.data@.take(0)));
        }
        while i < n
            invariant
                n == self.data@.len(),
                i <= n,
                self.data@ == old(self).spec_data(),
                out@ == spec_processed(self.data@.take(i as int)),
                forall|j: int| 0 <= j < old(self).spec_data().len()
                    ==> (#[trigger] old(self).spec_data()[j]) <= i32::MAX / 2,
            decreases n - i,
        {
            proof {
                assert(self.data@.take(i as int + 1).drop_last() =~= self.data@.take(i as int));
                assert(self.data@.take(i as int + 1).last() == self.data@[i as int]);
            }
            let x = self.data[i];
            if x > 0 {
                let y = 2 * x;
                if y < 100 {
                    out.push(y);
                }
            }
            i = i + 1;
        }
        proof {
            assert(self.data@.take(n as int) =~= self.data@);
        }
        out
    }

    /// Twice the data's sum, from the cache when `key` was computed
    /// before.  Every prefix sum, and the double, must stay
    /// representable.
    pub fn process_with_cache(&mut self, key: String) -> (r: i32)
        requires
            old(self).wf(),
            forall|k: int| 0 <= k <= old(self).spec_data().len()
                ==> i32::MIN <= spec_sum(#[trigger] old(self).spec_data().take(k)) <= i32::MAX,
            i32::MIN <= 2 * spec_sum(old(self).spec_data()) <= i32::MAX,
        ensures
            final(self).wf(),
            final(self).spec_data() == old(self).spec_data(),
            r == (if old(self).cache_view().contains_key(key@) {
                old(self).cache_view()[key@].value
            } else {
                (2 * spec_sum(old(self).spec_data())) as i32
            }),
            final(self).cache_view().contains_key(key@),
            final(self).cache_view()[key@].value == r,
            final(self).cache_view().remove(key@) == old(self).cache_view().remove(key@),
    {
        if let Some(entry) = self.cache.get(&key) {
            let v = entry.value;
            proof {
                assert(final(self).cache_view().remove(key@)
                    =~= old(self).cache_view().remove(key@));
            }
            return v;
        }
        let n = self.data.len();
        let mut sum: i32 = 0;
        let mut i: usize = 0;
        proof {
            assert(self.data@.take(0) =~= Seq::<i32>::empty());
        }
        while i < n
            invariant
                n == self.data@.len(),
                i <= n,
                self.data@ == old(self).spec_data(),
                *self == *old(self),
                sum == spec_sum(self.data@.take(i as int)),
                forall|k: int| 0 <= k <= old(self).spec_data().len()
                    ==> i32::MIN <= spec_sum(#[trigger] old(self).spec_data().take(k)) <= i32::MAX,
            decreases n - i,
        {
            proof {
                assert(self.data@.take(i as int + 1).drop_last() =~= self.data@.take(i as int));
                assert(self.data@.take(i as int + 1).last() == self.data@[i as int]);
            }
            sum = sum + self.data[i];
            i = i + 1;
        }
        proof {
            assert(self.data@.take(n as int) =~= self.data@);
        }
        let result = 2 * sum;
        self.cache.insert(&key, NamedEntry { name: key.clone(), value: result });
        proof {
            assert(final(self).cache_view().remove(key@) =~= old(self).cache_view().remove(key@));
        }
        result
    }
}

/// A small fixed-size record.
#[derive(Debug, Clone)]
pub struct SmallObject {
    /// Sequence number within one batch.
    pub id: u32,
    /// Fixed-size payload.
    pub data: [u8; 16],
    /// Rendered label of the form `object_<n>`.
    pub metadata: String,
}

/// Relies on `std::mem::size_of` for the byte size of one record on
/// this platform.
#[verifier::external_body]
fn small_object_size() -> usize {
    std::mem::size_of::<SmallObject>()
}

/// Bulk store of small records.
pub struct SmallObjectManager {
    objects: Vec<SmallObject>,
}

impl SmallObjectManager {
    /// The stored records.
    pub closed spec fn spec_objects(&self) -> Seq<SmallObject> {
        self.objects@
    }

    /// An empty store.
    pub fn new() -> (r: Self)
        ensures
            r.spec_objects().len() == 0,
    {
        SmallObjectManager { objects: Vec::new() }
    }

    /// Append `count` records numbered from 0, each with a payload of
    /// its own number and a `object_<n>` label.
    pub fn create_objects(&mut self, count: usize)
        requires
            count <= u32::MAX,
            old(self).spec_objects().len() + count <= usize::MAX,
        ensures
            final(self).spec_objects().len() == old(self).spec_objects().len() + count,
            final(self).spec_objects().take(old(self).spec_objects().len() as int)
                == old(self).spec_objects(),
            forall|j: int| 0 <= j < count ==> {
                let o = #[trigger] final(self).spec_objects()[old(self).spec_objects().len() + j];
                o.id == j
                    && o.metadata@ == "object_"@ + spec_decimal(j)
                    && forall|b: int| 0 <= b < 16 ==> o.data@[b] == (j % 256)
            },
    {
        let ghost base = self.objects@.len() as int;
        let mut i: usize = 0;
        proof {
            assert(self.objects@.take(base) =~= old(self).spec_objects());
        }
        while i < count
            invariant
                count <= u32::MAX,
                base + count <= usize::MAX,
                i <= count,
                base == old(self).spec_objects().len(),
                self.objects@.len() == base + i,
                self.objects@.take(base) == old(self).spec_objects(),
                forall|j: int| 0 <= j < i ==> {
                    let o = #[trigger] self.objects@[base + j];
                    o.id == j
                        && o.metadata@ == "object_"@ + spec_decimal(j)
                        && forall|b: int| 0 <= b < 16 ==> o.data@[b] == (j % 256)
                },
            decreases count - i,
        {
            let ghost pre = self.objects@;
            let label = ("object_".to_owned()).concat(u128_to_decimal(i as u128).as_str());
            let b: u8 = (i % 256) as u8;
            let obj = SmallObject { id: i as u32, data: [b; 16], metadata: label };
            self.objects.push(obj);
            i = i + 1;
            proof {
                assert(self.objects@.take(base) =~= pre.take(base));
                assert forall|j: int| 0 <= j < i implies {
                    let o = #[trigger] self.objects@[base + j];
                    o.id == j
                        && o.metadata@ == "object_"@ + spec_decimal(j)
                        && forall|b2: int| 0 <= b2 < 16 ==> o.data@[b2] == (j % 256)
                } by {
                    if j < i - 1 {
                        assert(self.objects@[base + j] == pre[base + j]);
                    }
                }
            }
        }
    }

    /// The stored records, in creation order.
    pub fn objects(&self) -> (r: &Vec<SmallObject>)
        ensures
            r@ == self.spec_objects(),
    {
        &self.objects
    }

    /// Counts and sizes of what is stored; the per-record size is the
    /// platform's.
    pub fn get_stats(&self) -> (r: ObjectStats)
        ensures
            r.total_objects == self.spec_objects().len(),
    {
        let size = small_object_size();
        let count = self.objects.len();
        proof {
            assert((count as int) * (size as int) <= (u64::MAX as int) * (u64::MAX as int))
                by (nonlinear_arith)
                requires
                    0 <= count as int <= u64::MAX as int,
                    0 <= size as int <= u64::MAX as int,
            ;
        }
        let total: u128 = (count as u128) * (size as u128);
        let total_memory: usize = if total > usize::MAX as u128 {
            usize::MAX
        } else {
            total as usize
        };
        ObjectStats { total_objects: count, total_memory, average_size: size }
    }
}

/// Counts and sizes of a store's contents.
#[derive(Debug, Clone, Copy, PartialEq, Eq, Structural)]
pub struct ObjectStats {
    /// Records stored.
    pub total_objects: usize,
    /// Bytes they occupy together (saturating).
    pub total_memory: usize,
    /// Bytes one record occupies.
    pub average_size: usize,
}

/// Description of a compiled module, as tracked by build tooling.
#[derive(Debug, Clone)]
pub struct ModuleInfo {
    /// Module name.
    pub name: String,
    /// Names of the modules it depends on.
    pub dependencies: Vec<String>,
    /// Source size in bytes.
    pub size: usize,
    /// A complexity score.
    pub complexity: u32,
}

/// The size sum of a module table.
pub open spec fn modules_total_size(s: Seq<NamedEntry<ModuleInfo>>) -> int {
    sum_by(s, |e: NamedEntry<ModuleInfo>| e.value.size as int)
}

/// The complexity sum of a module table.
pub open spec fn modules_total_complexity(s: Seq<NamedEntry<ModuleInfo>>) -> int {
    sum_by(s, |e: NamedEntry<ModuleInfo>| e.value.complexity as int)
}

/// `v` held to the range of a pointer-sized unsigned integer.
pub open spec fn size_clamp_usize(v: int) -> usize {
    if v > usize::MAX {
        usize::MAX
    } else if v < 0 {
        0
    } else {
        v as usize
    }
}

/// `v` held to the range of a 32-bit unsigned integer.
pub open spec fn complexity_clamp_u32(v: int) -> u32 {
    if v > u32::MAX {
        u32::MAX
    } else if v < 0 {
        0
    } else {
        v as u32
    }
}

/// Aggregate over every module the checker has seen.
#[derive(Debug, Clone, Copy, PartialEq, Eq, Structural)]
pub struct CompilationStats {
    /// Modules tracked.
    pub total_modules: usize,
    /// Their source sizes summed, in bytes (saturating).
    pub total_size: usize,
    /// Their complexity scores summed (saturating).
    pub total_complexity: u32,
    /// Mean complexity in thousandths; 0 when nothing is tracked.
    pub average_complexity_milli: u64,
}

/// Tracks compiled modules and aggregates their build statistics.
pub struct TypeCheckerOptimized {
    modules: KeyedVec<NamedEntry<ModuleInfo>>,
}

impl TypeCheckerOptimized {
    /// The tracked modules, in tracking order.
    pub closed spec fn entries(&self) -> Seq<NamedEntry<ModuleInfo>> {
        self.modules.entries_seq()
    }

    /// The tracked modules, by tracking name.
    pub closed spec fn modules_view(&self) -> Map<Seq<char>, NamedEntry<ModuleInfo>> {
        self.modules.view()
    }

    /// Tracking names are unique.
    pub closed spec fn wf(&self) -> bool {
        self.modules.well_formed()
    }

    /// A checker with nothing tracked.
    pub fn new() -> (r: Self)
        ensures
            r.wf(),
            r.entries().len() == 0,
    {
        TypeCheckerOptimized { modules: KeyedVec::new() }
    }

    /// Track (or replace) the module stored under `name`: a fresh
    /// name appends an entry, a known one replaces its entry in
    /// place.
    pub fn add_module(&mut self, name: String, info: ModuleInfo)
        requires
            old(self).wf(),
        ensures
            final(self).wf(),
            final(self).modules_view().contains_key(name@),
            final(self).modules_view()[name@].value.name@ == info.name@,
            final(self).modules_view()[name@].value.size == info.size,
            final(self).modules_view()[name@].value.complexity == info.complexity,
            final(self).modules_view().remove(name@)
                == old(self).modules_view().remove(name@),
            !old(self).modules_view().contains_key(name@)
                ==> final(self).entries() == old(self).entries().push(
                    NamedEntry { name: name, value: info },
                ),
            old(self).modules_view().contains_key(name@)
                ==> exists|i: int| 0 <= i < old(self).entries().len()
                    && (#[trigger] old(self).entries()[i]).key() == name@
                    && final(self).entries() == old(self).entries().update(
                        i,
                        NamedEntry { name: name, value: info },
                    ),
    {
        let key = name.clone();
        let ghost pre = self.modules.entries_seq();
        let entry = NamedEntry { name, value: info };
        let ghost ge = entry;
        self.modules.insert(&key, entry);
        proof {
            assert(final(self).modules_view().remove(key@)
                =~= old(self).modules_view().remove(key@));
            if old(self).modules_view().contains_key(ge.name@) {
                let i = choose|i: int| 0 <= i < pre.len()
                    && (#[trigger] pre[i]).key() == ge.key()
                    && self.modules.entries_seq() == pre.update(i, ge);
                assert(old(self).entries()[i].key() == ge.name@);
                assert(final(self).entries() == old(self).entries().update(i, ge));
            }
        }
    }

    /// Aggregate sizes and complexity across every tracked module,
    /// with the mean complexity in thousandths.
    pub fn get_compilation_stats(&self) -> (r: CompilationStats)
        requires
            self.wf(),
        ensures
            r.total_modules == self.entries().len(),
            r.total_size == size_clamp_usize(modules_total_size(self.entries())),
            r.total_complexity == complexity_clamp_u32(modules_total_complexity(self.entries())),
            r.average_complexity_milli == (if self.entries().len() > 0 {
                (complexity_clamp_u32(modules_total_complexity(self.entries())) as int * 1000
                    / self.entries().len() as int) as u64
            } else {
                0
            }),
    {
        let entries = self.modules.entries();
        let n = entries.len();
        let mut size: u128 = 0;
        let mut complexity: u128 = 0;
        let mut i: usize = 0;
        proof {
            assert(entries@.take(0) =~= Seq::<NamedEntry<ModuleInfo>>::empty());
        }
        while i < n
            invariant
                n == entries@.len(),
                entries@ == self.entries(),
                i <= n,
                size == modules_total_size(entries@.take(i as int)),
                complexity == modules_total_complexity(entries@.take(i as int)),
                size <= i * (u64::MAX as int),
                complexity <= i * (u64::MAX as int),
            decreases n - i,
        {
            proof {
                assert(entries@.take(i as int + 1).drop_last() =~= entries@.take(i as int));
                assert(entries@.take(i as int + 1).last() == entries@[i as int]);
                assert((i as int) * (u64::MAX as int) + (u64::MAX as int)
                    == (i as int + 1) * (u64::MAX as int)) by (nonlinear_arith);
            }
            let m = &entries[i].value;
            size = size + (m.size as u128);
            complexity = complexity + (m.complexity as u128);
            i = i + 1;
        }
        proof {
            assert(entries@.take(n as int) =~= entries@);
        }
        let total_size: usize = if size > usize::MAX as u128 {
            usize::MAX
        } else {
            size as usize
        };
        let total_complexity: u32 = if complexity > u32::MAX as u128 {
            u32::MAX
        } else {
            complexity as u32
        };
        let average_complexity_milli: u64 = if n > 0 {
            ((total_complexity as u64) * 1000) / (n as u64)
        } else {
            0
        };
        CompilationStats {
            total_modules: n,
            total_size,
            total_complexity,
            average_complexity_milli,
        }
    }
}

/// The outcome of one engine run.
#[derive(Debug)]
pub struct WorkflowResult {
    /// The pipeline's output.
    pub processed_data: Vec<i32>,
    /// The object store's counts afterwards.
    pub object_stats: ObjectStats,
    /// The module tracker's aggregates afterwards.
    pub compilation_stats: CompilationStats,
}

/// Combines the pipeline, the object store and the module tracker
/// into one engine.
pub struct Rust190WorkflowEngine {
    processor: JITOptimizedProcessor,
    object_manager: SmallObjectManager,
    type_checker: TypeCheckerOptimized,
}

impl Rust190WorkflowEngine {
    /// The pipeline's data.
    pub closed spec fn spec_data(&self) -> Seq<i32> {
        self.processor.spec_data()
    }

    /// How many records the object store holds.
    pub closed spec fn spec_object_count(&self) -> int {
        self.object_manager.spec_objects().len() as int
    }

    /// The engine's invariant: the registries are well formed and the
    /// pipeline's data is small enough to double.
    pub closed spec fn wf(&self) -> bool {
        &&& self.processor.wf()
        &&& self.type_checker.wf()
        &&& forall|i: int| 0 <= i < self.processor.spec_data().len()
                ==> (#[trigger] self.processor.spec_data()[i]) <= i32::MAX / 2
    }

    /// An engine over a small sample data set, with an empty store and
    /// nothing tracked.
    pub fn new() -> (r: Self)
        ensures
            r.wf(),
            r.spec_object_count() == 0,
    {
        let mut data: Vec<i32> = Vec::new();
        data.push(1);
        data.push(2);
        data.push(3);
        data.push(4);
        data.push(5);
        Rust190WorkflowEngine {
            processor: JITOptimizedProcessor::new(data),
            object_manager: SmallObjectManager::new(),
            type_checker: TypeCheckerOptimized::new(),
        }
    }

    /// Run the engine once: push the data through the pipeline, create
    /// a batch of 1000 objects, and report the stores' statistics.
    pub fn execute_workflow(&mut self) -> (r: Result<WorkflowResult, String>)
        requires
            old(self).wf(),
            old(self).spec_object_count() + 1000 <= usize::MAX,
        ensures
            final(self).wf(),
            final(self).spec_data() == old(self).spec_data(),
            final(self).spec_object_count() == old(self).spec_object_count() + 1000,
            r matches Ok(v) && ({
                &&& v.processed_data@ == spec_processed(old(self).spec_data())
                &&& v.object_stats.total_objects == old(self).spec_object_count() + 1000
            }),
    {
        let processed_data = self.processor.process_data();
        self.object_manager.create_objects(1000);
        let object_stats = self.object_manager.get_stats();
        let compilation_stats = self.type_checker.get_compilation_stats();
        Ok(WorkflowResult { processed_data, object_stats, compilation_stats })
    }
}

} // verus!
