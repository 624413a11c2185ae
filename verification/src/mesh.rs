//! Memory usage tracking for mesh-like assets: values made of named
//! vertex attribute buffers.
//!
//! A mesh is modelled by what its measurement reads: which named
//! sub-buffers are present, each buffer's element format and its length.
//! The composite estimator sums the sizes of a configurable union of named
//! sub-buffers, counting every name exactly once.

use vstd::prelude::*;
use vstd::string::StringExecFns;

use crate::config::MemoryConfig;
use crate::estimator::DataSize;
use crate::estimator::DataSizeEstimator;
use crate::estimator::FromConfig;
use crate::resource::MemoryUsage;
use crate::resource::TypeIdentity;
use crate::resource::UnregisteredType;
use crate::stats::lemma_sat_usize_absorb;
use crate::stats::sat_usize;
use crate::stats::spec_from_values;
use crate::stats::MemoryStats;

verus! {

/// The element format of one vertex attribute buffer.
///
/// Each format fixes the number of bytes one element occupies.
#[derive(Debug, Clone, Copy, PartialEq, Eq, Structural)]
pub enum VertexFormat {
    Float32,
    Sint32,
    Uint32,
    Float32x2,
    Sint32x2,
    Uint32x2,
    Float32x3,
    Sint32x3,
    Uint32x3,
    Float32x4,
    Sint32x4,
    Uint32x4,
    Sint16x2,
    Snorm16x2,
    Uint16x2,
    Unorm16x2,
    Sint16x4,
    Snorm16x4,
    Uint16x4,
    Unorm16x4,
    Sint8x2,
    Snorm8x2,
    Uint8x2,
    Unorm8x2,
    Sint8x4,
    Snorm8x4,
    Uint8x4,
    Unorm8x4,
}

impl VertexFormat {
    /// The number of bytes one element of this format occupies.
    pub open spec fn spec_element_size(self) -> usize {
        match self {
            VertexFormat::Float32 => 4,
            VertexFormat::Sint32 => 4,
            VertexFormat::Uint32 => 4,
            VertexFormat::Float32x2 => 8,
            VertexFormat::Sint32x2 => 8,
            VertexFormat::Uint32x2 => 8,
            VertexFormat::Float32x3 => 12,
            VertexFormat::Sint32x3 => 12,
            VertexFormat::Uint32x3 => 12,
            VertexFormat::Float32x4 => 16,
            VertexFormat::Sint32x4 => 16,
            VertexFormat::Uint32x4 => 16,
            VertexFormat::Sint16x2 => 4,
            VertexFormat::Snorm16x2 => 4,
            VertexFormat::Uint16x2 => 4,
            VertexFormat::Unorm16x2 => 4,
            VertexFormat::Sint16x4 => 8,
            VertexFormat::Snorm16x4 => 8,
            VertexFormat::Uint16x4 => 8,
            VertexFormat::Unorm16x4 => 8,
            VertexFormat::Sint8x2 => 2,
            VertexFormat::Snorm8x2 => 2,
            VertexFormat::Uint8x2 => 2,
            VertexFormat::Unorm8x2 => 2,
            VertexFormat::Sint8x4 => 4,
            VertexFormat::Snorm8x4 => 4,
            VertexFormat::Uint8x4 => 4,
            VertexFormat::Unorm8x4 => 4,
        }
    }

    /// Returns the number of bytes one element of this format occupies.
    pub fn element_size(&self) -> (r: usize)
        ensures
            r == self.spec_element_size(),
    {
        match self {
            VertexFormat::Float32 => 4,
            VertexFormat::Sint32 => 4,
            VertexFormat::Uint32 => 4,
            VertexFormat::Float32x2 => 8,
            VertexFormat::Sint32x2 => 8,
            VertexFormat::Uint32x2 => 8,
            VertexFormat::Float32x3 => 12,
            VertexFormat::Sint32x3 => 12,
            VertexFormat::Uint32x3 => 12,
            VertexFormat::Float32x4 => 16,
            VertexFormat::Sint32x4 => 16,
            VertexFormat::Uint32x4 => 16,
            VertexFormat::Sint16x2 => 4,
            VertexFormat::Snorm16x2 => 4,
            VertexFormat::Uint16x2 => 4,
            VertexFormat::Unorm16x2 => 4,
            VertexFormat::Sint16x4 => 8,
            VertexFormat::Snorm16x4 => 8,
            VertexFormat::Uint16x4 => 8,
            VertexFormat::Unorm16x4 => 8,
            VertexFormat::Sint8x2 => 2,
            VertexFormat::Snorm8x2 => 2,
            VertexFormat::Uint8x2 => 2,
            VertexFormat::Unorm8x2 => 2,
            VertexFormat::Sint8x4 => 4,
            VertexFormat::Snorm8x4 => 4,
            VertexFormat::Uint8x4 => 4,
            VertexFormat::Unorm8x4 => 4,
        }
    }
}

/// One vertex attribute buffer: an element format and the number of
/// elements, which is all the estimation ever reads of it.
#[derive(Debug, Clone, Copy, PartialEq, Eq, Structural)]
pub struct AttributeBuffer {
    /// The format of every element in the buffer.
    pub format: VertexFormat,
    /// The number of elements the buffer holds.
    pub len: usize,
}

impl DataSize for AttributeBuffer {
    /// Heap bytes of a buffer: element size times element count.
    open spec fn spec_heap_size(&self) -> usize {
        sat_usize(self.format.spec_element_size() * self.len)
    }

    fn estimate_heap_size(&self) -> (r: usize) {
        match self.format.element_size().checked_mul(self.len) {
            Some(total) => total,
            None => usize::MAX,
        }
    }

    fn is_dynamic() -> bool {
        true
    }
}

/// A named vertex attribute: a name and the buffer stored under it.
#[derive(Debug)]
pub struct MeshAttribute {
    /// The attribute's name.
    pub name: String,
    /// The attribute's buffer.
    pub values: AttributeBuffer,
}

/// The buffer stored under `name`, taking the first entry with that name.
pub open spec fn spec_lookup(attrs: Seq<MeshAttribute>, name: Seq<char>) -> Option<AttributeBuffer>
    decreases attrs.len(),
{
    if attrs.len() == 0 {
        None
    } else if attrs[0].name@ == name {
        Some(attrs[0].values)
    } else {
        spec_lookup(attrs.drop_first(), name)
    }
}

/// A mesh reduced to its measurable content: the named vertex attribute
/// buffers it holds. Setting a name that is already present replaces that
/// buffer, so every name occurs at most once.
#[derive(Debug)]
pub struct MeshData {
    attributes: Vec<MeshAttribute>,
}

impl View for MeshData {
    type V = Seq<MeshAttribute>;

    closed spec fn view(&self) -> Seq<MeshAttribute> {
        self.attributes@
    }
}

impl MeshData {
    /// The buffer stored under `name`, if any.
    pub open spec fn spec_attribute(self, name: Seq<char>) -> Option<AttributeBuffer> {
        spec_lookup(self@, name)
    }

    /// Creates a mesh with no attributes.
    pub fn new() -> (r: Self)
        ensures
            r@ == Seq::<MeshAttribute>::empty(),
    {
        MeshData { attributes: Vec::new() }
    }

    /// Stores `values` under `name`, replacing any buffer already stored
    /// under that name and leaving every other attribute unchanged.
    #[verifier::loop_isolation(false)]
    pub fn set_attribute(&mut self, name: String, values: AttributeBuffer)
        ensures
            forall|n: Seq<char>|
                #[trigger] final(self).spec_attribute(n) == if n == name@ {
                    Some(values)
                } else {
                    old(self).spec_attribute(n)
                },
    {
        let new_attr = MeshAttribute { name, values };
        let ghost orig = self.attributes@;
        let mut i: usize = 0;
        while i < self.attributes.len()
            invariant
                i <= orig.len(),
                self.attributes@ == orig,
                forall|k: int| 0 <= k < i ==> orig[k].name@ != new_attr.name@,
            decreases orig.len() - i,
        {
            if self.attributes[i].name == new_attr.name {
                let ghost replacement = new_attr;
                self.attributes[i] = new_attr;
                proof {
                    assert forall|n: Seq<char>|
                        #[trigger] self.spec_attribute(n) == if n == replacement.name@ {
                            Some(replacement.values)
                        } else {
                            spec_lookup(orig, n)
                        } by {
                        lemma_lookup_update(orig, i as int, replacement, n);
                    }
                }
                return ;
            }
            i = i + 1;
        }
        let ghost appended = new_attr;
        self.attributes.push(new_attr);
        proof {
            assert forall|n: Seq<char>|
                #[trigger] self.spec_attribute(n) == if n == appended.name@ {
                    Some(appended.values)
                } else {
                    spec_lookup(orig, n)
                } by {
                lemma_lookup_push(orig, appended, n);
            }
        }
    }

    /// Returns the buffer stored under `name`, or `None` if the mesh has
    /// no attribute of that name. An absent attribute is not an error.
    pub fn attribute(&self, name: &String) -> (r: Option<&AttributeBuffer>)
        ensures
            match r {
                Some(v) => self.spec_attribute(name@) == Some(*v),
                None => self.spec_attribute(name@) is None,
            },
    {
        let mut i: usize = 0;
        while i < self.attributes.len()
            invariant
                i <= self@.len(),
                forall|k: int| 0 <= k < i ==> self@[k].name@ != name@,
            decreases self@.len() - i,
        {
            if self.attributes[i].name == *name {
                proof {
                    lemma_lookup_at_first_match(self@, i as int, name@);
                }
                return Some(&self.attributes[i].values);
            }
            i = i + 1;
        }
        proof {
            lemma_lookup_absent(self@, name@);
        }
        None
    }
}

/// If the first entry named like `a` is at `i`, replacing it there changes
/// exactly the lookup of that name.
proof fn lemma_lookup_update(attrs: Seq<MeshAttribute>, i: int, a: MeshAttribute, n: Seq<char>)
    requires
        0 <= i < attrs.len(),
        attrs[i].name@ == a.name@,
        forall|k: int| 0 <= k < i ==> attrs[k].name@ != a.name@,
    ensures
        spec_lookup(attrs.update(i, a), n) == if n == a.name@ {
            Some(a.values)
        } else {
            spec_lookup(attrs, n)
        },
    decreases i,
{
    let updated = attrs.update(i, a);
    if i == 0 {
        assert(updated.drop_first() =~= attrs.drop_first());
    } else {
        lemma_lookup_update(attrs.drop_first(), i - 1, a, n);
        assert(updated.drop_first() =~= attrs.drop_first().update(i - 1, a));
        assert(updated[0] == attrs[0]);
    }
}

/// Appending an attribute whose name is absent changes exactly the lookup
/// of that name.
proof fn lemma_lookup_push(attrs: Seq<MeshAttribute>, a: MeshAttribute, n: Seq<char>)
    requires
        forall|k: int| 0 <= k < attrs.len() ==> attrs[k].name@ != a.name@,
    ensures
        spec_lookup(attrs.push(a), n) == if n == a.name@ {
            Some(a.values)
        } else {
            spec_lookup(attrs, n)
        },
    decreases attrs.len(),
{
    let extended = attrs.push(a);
    if attrs.len() == 0 {
        assert(extended[0] == a);
        assert(extended.drop_first() =~= Seq::<MeshAttribute>::empty());
    } else {
        lemma_lookup_push(attrs.drop_first(), a, n);
        assert(extended.drop_first() =~= attrs.drop_first().push(a));
        assert(extended[0] == attrs[0]);
        assert(spec_lookup(extended, n) == if extended[0].name@ == n {
            Some(extended[0].values)
        } else {
            spec_lookup(extended.drop_first(), n)
        });
    }
}

/// A match at `i`, with no earlier match, is what lookup returns.
proof fn lemma_lookup_at_first_match(attrs: Seq<MeshAttribute>, i: int, n: Seq<char>)
    requires
        0 <= i < attrs.len(),
        attrs[i].name@ == n,
        forall|k: int| 0 <= k < i ==> attrs[k].name@ != n,
    ensures
        spec_lookup(attrs, n) == Some(attrs[i].values),
    decreases i,
{
    if i > 0 {
        lemma_lookup_at_first_match(attrs.drop_first(), i - 1, n);
    }
}

/// With no match anywhere, lookup returns nothing.
proof fn lemma_lookup_absent(attrs: Seq<MeshAttribute>, n: Seq<char>)
    requires
        forall|k: int| 0 <= k < attrs.len() ==> attrs[k].name@ != n,
    ensures
        spec_lookup(attrs, n) is None,
    decreases attrs.len(),
{
    if attrs.len() > 0 {
        lemma_lookup_absent(attrs.drop_first(), n);
    }
}


/// The names of the vertex attributes a mesh estimator accounts for by
/// default.
pub open spec fn spec_default_attribute_names() -> Seq<Seq<char>> {
    seq![
        "Vertex_Color"@,
        "Vertex_Normal"@,
        "Vertex_Tangent"@,
        "Vertex_Position"@,
        "Vertex_Uv"@,
        "Vertex_JointWeight"@,
        "Vertex_JointIndex"@,
    ]
}

/// Builds the default attribute names as owned strings.
fn default_attribute_names() -> (r: Vec<String>)
    ensures
        r.deep_view() == spec_default_attribute_names(),
{
    let mut names: Vec<String> = Vec::new();
    names.push(String::from_str("Vertex_Color"));
    names.push(String::from_str("Vertex_Normal"));
    names.push(String::from_str("Vertex_Tangent"));
    names.push(String::from_str("Vertex_Position"));
    names.push(String::from_str("Vertex_Uv"));
    names.push(String::from_str("Vertex_JointWeight"));
    names.push(String::from_str("Vertex_JointIndex"));
    proof {
        assert(names.deep_view() =~= spec_default_attribute_names());
    }
    names
}

/// What one candidate name contributes to a mesh's estimate: the stack
/// and heap size of the buffer stored under it, or nothing if the mesh
/// has no attribute of that name.
pub open spec fn spec_attribute_cost(attrs: Seq<MeshAttribute>, name: Seq<char>) -> int {
    match spec_lookup(attrs, name) {
        Some(buffer) => sat_usize(
            vstd::layout::size_of::<AttributeBuffer>() + buffer.spec_heap_size(),
        ) as int,
        None => 0,
    }
}

/// The estimate over a list of candidate names: each name not in `seen`
/// contributes its attribute cost exactly once, however often it recurs.
pub open spec fn spec_mesh_heap_size(
    attrs: Seq<MeshAttribute>,
    names: Seq<Seq<char>>,
    seen: Set<Seq<char>>,
) -> usize
    decreases names.len(),
{
    if names.len() == 0 {
        0
    } else {
        let rest = spec_mesh_heap_size(attrs, names.drop_first(), seen.insert(names[0]));
        if seen.contains(names[0]) {
            rest
        } else {
            sat_usize(spec_attribute_cost(attrs, names[0]) + rest)
        }
    }
}

/// The composite mesh estimator: sums the total sizes of the buffers
/// stored under the union of the default attribute names and the
/// configured additional names, counting a name present in both sets
/// exactly once. Absent attributes contribute nothing.
#[derive(Debug)]
pub struct MeshSizeEstimator {
    /// Additional vertex attribute names to account for, beyond the
    /// default set.
    pub additional_vertex_attributes: Vec<String>,
}

impl Default for MeshSizeEstimator {
    /// An estimator that accounts for the default attributes only.
    fn default() -> (r: Self)
        ensures
            r.additional_vertex_attributes@ == Seq::<String>::empty(),
    {
        MeshSizeEstimator { additional_vertex_attributes: Vec::new() }
    }
}

impl FromConfig for MeshSizeEstimator {
    /// The estimator tracks exactly the additional attribute names the
    /// configuration lists.
    open spec fn from_config_spec(config: MemoryConfig, r: Self) -> bool {
        r.additional_vertex_attributes.deep_view()
            == config.additional_mesh_vertex_attributes.deep_view()
    }

    fn from_config(config: &MemoryConfig) -> (r: Self) {
        let extra = config.additional_mesh_vertex_attributes.clone();
        proof {
            assert forall|i: int| 0 <= i < extra@.len() implies extra.deep_view()[i]
                == config.additional_mesh_vertex_attributes.deep_view()[i] by {
                assert(cloned::<String>(
                    config.additional_mesh_vertex_attributes@[i],
                    extra@[i],
                ));
            }
            assert(extra.deep_view()
                =~= config.additional_mesh_vertex_attributes.deep_view());
        }
        MeshSizeEstimator { additional_vertex_attributes: extra }
    }
}

/// Returns whether `names` holds a string equal to `name`.
fn contains_name(names: &Vec<String>, name: &String) -> (r: bool)
    ensures
        r == names.deep_view().contains(name@),
{
    let mut i: usize = 0;
    while i < names.len()
        invariant
            i <= names@.len(),
            forall|k: int| 0 <= k < i ==> names.deep_view()[k] != name@,
        decreases names@.len() - i,
    {
        if names[i] == *name {
            assert(names.deep_view()[i as int] == name@);
            return true;
        }
        i = i + 1;
    }
    assert(forall|k: int| 0 <= k < names.deep_view().len() ==> names.deep_view()[k] != name@);
    false
}

impl DataSizeEstimator<MeshData> for MeshSizeEstimator {
    /// Sums up the sizes of the mesh's vertex attribute buffers, over the
    /// union of the default and the additional attribute names.
    open spec fn spec_heap_size_of(&self, mesh: MeshData) -> usize {
        spec_mesh_heap_size(
            mesh@,
            spec_default_attribute_names() + self.additional_vertex_attributes.deep_view(),
            Set::empty(),
        )
    }

    #[verifier::loop_isolation(false)]
    fn estimate_heap_size(&self, mesh: &MeshData) -> (r: usize) {
        let ghost all_names = spec_default_attribute_names()
            + self.additional_vertex_attributes.deep_view();

        let mut candidates = default_attribute_names();
        let mut j: usize = 0;
        while j < self.additional_vertex_attributes.len()
            invariant
                j <= self.additional_vertex_attributes@.len(),
                candidates.deep_view() == spec_default_attribute_names()
                    + self.additional_vertex_attributes.deep_view().take(j as int),
            decreases self.additional_vertex_attributes@.len() - j,
        {
            let ghost candidates_before = candidates.deep_view();
            let item = self.additional_vertex_attributes[j].clone();
            candidates.push(item);
            proof {
                assert(candidates.deep_view() =~= candidates_before.push(
                    self.additional_vertex_attributes.deep_view()[j as int],
                ));
                assert(candidates.deep_view() =~= spec_default_attribute_names()
                    + self.additional_vertex_attributes.deep_view().take(j + 1));
            }
            j = j + 1;
        }
        proof {
            assert(self.additional_vertex_attributes.deep_view().take(
                self.additional_vertex_attributes@.len() as int,
            ) =~= self.additional_vertex_attributes.deep_view());
            assert(candidates.deep_view() == all_names);
        }

        let mut total: usize = 0;
        let mut seen: Vec<String> = Vec::new();
        let mut i: usize = 0;
        proof {
            assert(all_names.skip(0) =~= all_names);
            assert(seen.deep_view().to_set() =~= Set::<Seq<char>>::empty());
        }
        while i < candidates.len()
            invariant
                i <= candidates@.len(),
                sat_usize(
                    total + spec_mesh_heap_size(
                        mesh@,
                        all_names.skip(i as int),
                        seen.deep_view().to_set(),
                    ),
                ) == spec_mesh_heap_size(mesh@, all_names, Set::empty()),
            decreases candidates@.len() - i,
        {
            let name = &candidates[i];
            let ghost prev_seen = seen.deep_view().to_set();
            let ghost rest_after = spec_mesh_heap_size(
                mesh@,
                all_names.skip(i + 1),
                prev_seen.insert(name@),
            );
            proof {
                assert(all_names.skip(i as int).drop_first() =~= all_names.skip(i + 1));
                assert(all_names.skip(i as int)[0] == name@);
            }
            if contains_name(&seen, name) {
                proof {
                    assert(prev_seen.insert(name@) =~= prev_seen);
                }
            } else {
                let mut cost: usize = 0;
                match mesh.attribute(name) {
                    Some(buffer) => {
                        cost = MemoryStats::stack_size_of(buffer).saturating_add(
                            buffer.estimate_heap_size(),
                        );
                    },
                    None => {},
                }
                let ghost seen_before = seen.deep_view();
                seen.push(name.clone());
                proof {
                    assert(cost == spec_attribute_cost(mesh@, name@));
                    assert(seen.deep_view() =~= seen_before.push(name@));
                    assert forall|a: Seq<char>|
                        seen.deep_view().to_set().contains(a) <==> prev_seen.insert(
                            name@,
                        ).contains(a) by {
                        if seen.deep_view().contains(a) {
                            let k = choose|k: int|
                                0 <= k < seen.deep_view().len() && seen.deep_view()[k] == a;
                            if k < seen_before.len() {
                                assert(seen_before[k] == a);
                            } else {
                                assert(a == name@);
                            }
                        }
                        if seen_before.contains(a) {
                            let k = choose|k: int|
                                0 <= k < seen_before.len() && seen_before[k] == a;
                            assert(seen.deep_view()[k] == a);
                        }
                        if a == name@ {
                            assert(seen.deep_view()[seen_before.len() as int] == a);
                        }
                    }
                    assert(seen.deep_view().to_set() =~= prev_seen.insert(name@));
                }
                proof {
                    lemma_sat_usize_absorb(
                        total as int,
                        spec_attribute_cost(mesh@, name@) + rest_after,
                    );
                    lemma_sat_usize_absorb(
                        total + spec_attribute_cost(mesh@, name@),
                        rest_after as int,
                    );
                }
                total = total.saturating_add(cost);
            }
            i = i + 1;
        }
        proof {
            assert(all_names.skip(all_names.len() as int) =~= Seq::<Seq<char>>::empty());
        }
        total
    }

    fn is_dynamic() -> bool {
        true
    }
}

/// The same estimator, bound to a single attribute buffer: it forwards to
/// the buffer's own size description.
impl DataSizeEstimator<AttributeBuffer> for MeshSizeEstimator {
    open spec fn spec_heap_size_of(&self, value: AttributeBuffer) -> usize {
        value.spec_heap_size()
    }

    fn estimate_heap_size(&self, value: &AttributeBuffer) -> (r: usize) {
        value.estimate_heap_size()
    }

    fn is_dynamic() -> bool {
        true
    }
}

/// A candidate name that occurs among the earlier candidates, or was
/// already seen, contributes nothing when it occurs again: duplicates are
/// counted exactly once.
pub proof fn lemma_duplicate_name_counted_once(
    attrs: Seq<MeshAttribute>,
    names: Seq<Seq<char>>,
    seen: Set<Seq<char>>,
    n: Seq<char>,
)
    requires
        names.contains(n) || seen.contains(n),
    ensures
        spec_mesh_heap_size(attrs, names.push(n), seen) == spec_mesh_heap_size(
            attrs,
            names,
            seen,
        ),
    decreases names.len(),
{
    if names.len() == 0 {
        assert(seen.contains(n));
        assert(names.push(n)[0] == n);
        assert(names.push(n).drop_first() =~= Seq::<Seq<char>>::empty());
        assert(spec_mesh_heap_size(attrs, names.push(n).drop_first(), seen.insert(n)) == 0);
        assert(spec_mesh_heap_size(attrs, names.push(n), seen) == 0);
        assert(spec_mesh_heap_size(attrs, names, seen) == 0);
    } else {
        let pushed = names.push(n);
        assert(pushed.drop_first() =~= names.drop_first().push(n));
        assert(pushed[0] == names[0]);
        assert(spec_mesh_heap_size(attrs, pushed, seen) == if seen.contains(names[0]) {
            spec_mesh_heap_size(attrs, pushed.drop_first(), seen.insert(names[0]))
        } else {
            sat_usize(
                spec_attribute_cost(attrs, names[0]) + spec_mesh_heap_size(
                    attrs,
                    pushed.drop_first(),
                    seen.insert(names[0]),
                ),
            )
        });
        assert(spec_mesh_heap_size(attrs, names, seen) == if seen.contains(names[0]) {
            spec_mesh_heap_size(attrs, names.drop_first(), seen.insert(names[0]))
        } else {
            sat_usize(
                spec_attribute_cost(attrs, names[0]) + spec_mesh_heap_size(
                    attrs,
                    names.drop_first(),
                    seen.insert(names[0]),
                ),
            )
        });
        if names[0] == n {
            assert(seen.insert(names[0]).contains(n));
        } else if names.contains(n) {
            let idx = choose|idx: int| 0 <= idx < names.len() && names[idx] == n;
            assert(names.drop_first()[idx - 1] == n);
            assert(names.drop_first().contains(n));
        }
        lemma_duplicate_name_counted_once(attrs, names.drop_first(), seen.insert(names[0]), n);
    }
}

/// Listing a name among the additional attributes when it is already a
/// default attribute name, or already listed, leaves the estimate
/// unchanged: the union of the two name sets is deduplicated.
pub proof fn lemma_mesh_estimate_dedup(
    attrs: Seq<MeshAttribute>,
    extra: Seq<Seq<char>>,
    n: Seq<char>,
)
    requires
        spec_default_attribute_names().contains(n) || extra.contains(n),
    ensures
        spec_mesh_heap_size(attrs, spec_default_attribute_names() + extra.push(n), Set::empty())
            == spec_mesh_heap_size(attrs, spec_default_attribute_names() + extra, Set::empty()),
{
    let defaults = spec_default_attribute_names();
    assert(defaults + extra.push(n) =~= (defaults + extra).push(n));
    if defaults.contains(n) {
        let idx = choose|idx: int| 0 <= idx < defaults.len() && defaults[idx] == n;
        assert((defaults + extra)[idx] == n);
        assert((defaults + extra).contains(n));
    } else {
        let idx = choose|idx: int| 0 <= idx < extra.len() && extra[idx] == n;
        assert((defaults + extra)[defaults.len() + idx] == n);
        assert((defaults + extra).contains(n));
    }
    lemma_duplicate_name_counted_once(attrs, defaults + extra, Set::empty(), n);
}

/// This driver updates the statistics for mesh assets, with the composite
/// estimator built from the configuration's additional attribute names.
pub fn update_stats_for_meshes(
    meshes: &[MeshData],
    memory_config: &MemoryConfig,
    memory_usage: &mut MemoryUsage,
    id: TypeIdentity,
) -> (r: Result<(), UnregisteredType>)
    ensures
        !memory_config.global ==> r is Ok && final(memory_usage)@ == old(memory_usage)@,
        memory_config.global ==> match r {
            Ok(_) => exists|e: MeshSizeEstimator|
                #[trigger] MeshSizeEstimator::from_config_spec(*memory_config, e) && old(
                    memory_usage,
                )@.contains_key(id@) && final(memory_usage)@ == old(memory_usage)@.insert(
                    id@,
                    spec_from_values(meshes@, e),
                ),
            Err(_) => !old(memory_usage)@.contains_key(id@) && final(memory_usage)@ == old(
                memory_usage,
            )@,
        },
{
    crate::systems::update_stats_for_asset::<MeshData, MeshSizeEstimator>(
        meshes,
        memory_config,
        memory_usage,
        id,
    )
}

} // verus!
