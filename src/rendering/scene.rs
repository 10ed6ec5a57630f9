//! The scene graph: a tree of nodes that each carry an offset.
//!
//! The tree is held as an arena in pre-order: the root first, then each
//! attached subtree in the order in which it was attached. Every node but the
//! root names its parent by index, and a parent always comes before its
//! children, so one forward pass over the arena visits each parent before the
//! nodes below it.
use vstd::prelude::*;

verus! {

/// An offset in whole scene units.
#[derive(Debug, Clone, Copy, PartialEq, Eq, Structural)]
pub struct Transform {
    pub x: i64,
    pub y: i64,
    pub z: i64,
}

/// A point or offset with unbounded coordinates.
pub open spec fn vec3(x: int, y: int, z: int) -> (int, int, int) {
    (x, y, z)
}

/// The sum of two offsets.
pub open spec fn vec3_add(a: (int, int, int), b: (int, int, int)) -> (int, int, int) {
    (a.0 + b.0, a.1 + b.1, a.2 + b.2)
}

/// Whether each coordinate fits in an `i64`.
pub open spec fn fits_i64(p: (int, int, int)) -> bool {
    i64::MIN <= p.0 <= i64::MAX && i64::MIN <= p.1 <= i64::MAX && i64::MIN <= p.2 <= i64::MAX
}

impl Transform {
    /// The offset as a triple of integers.
    pub open spec fn spec_vec(self) -> (int, int, int) {
        vec3(self.x as int, self.y as int, self.z as int)
    }

    /// Builds a offset from its three components.
    pub fn from(x: i64, y: i64, z: i64) -> (t: Transform)
        ensures
            t == (Transform { x, y, z }),
    {
        Transform { x, y, z }
    }

    /// The identity offset.
    pub fn zero() -> (t: Transform)
        ensures
            t.spec_vec() == vec3(0, 0, 0),
    {
        Transform { x: 0, y: 0, z: 0 }
    }

    /// Composes two offsets; `None` when a component leaves the range
    /// of an `i64`.
    pub fn checked_add(self, other: Transform) -> (t: Option<Transform>)
        ensures
            t is Some <==> fits_i64(vec3_add(self.spec_vec(), other.spec_vec())),
            t matches Some(t) ==> t.spec_vec() == vec3_add(self.spec_vec(), other.spec_vec()),
    {
        let x = self.x.checked_add(other.x);
        let y = self.y.checked_add(other.y);
        let z = self.z.checked_add(other.z);
        match (x, y, z) {
            (Some(x), Some(y), Some(z)) => Some(Transform { x, y, z }),
            _ => None,
        }
    }
}

/// One node of the arena: its identifier, its own offset, and the index
/// of its parent (the root names itself).
#[derive(Debug, Clone, Copy, PartialEq, Eq, Structural)]
pub struct SceneEntry {
    pub id: u64,
    pub transform: Transform,
    pub parent: usize,
}

/// A node as the traversal reaches it: its identifier and absolute position.
#[derive(Debug, Clone, Copy, PartialEq, Eq, Structural)]
pub struct RenderedNode {
    pub id: u64,
    pub position: Transform,
}

/// Whether the entries form an arena: a root that names itself, and every
/// other node naming a parent that comes before it.
pub open spec fn arena_wf(nodes: Seq<SceneEntry>) -> bool {
    &&& nodes.len() >= 1
    &&& nodes[0].parent == 0
    &&& forall|i: int| 0 < i < nodes.len() ==> #[trigger] nodes[i].parent < i
}

/// The number of direct children of the root.
pub open spec fn root_children(nodes: Seq<SceneEntry>) -> nat
    decreases nodes.len(),
{
    if nodes.len() <= 1 {
        0
    } else {
        root_children(nodes.drop_last()) + (if nodes.last().parent == 0 {
            1nat
        } else {
            0nat
        })
    }
}

/// The absolute position of node `i`: the sum of the offsets of all its
/// ancestors and its own.
pub open spec fn absolute(nodes: Seq<SceneEntry>, i: int) -> (int, int, int)
    decreases i,
{
    if 0 < i < nodes.len() && nodes[i].parent < i {
        vec3_add(absolute(nodes, nodes[i].parent as int), nodes[i].transform.spec_vec())
    } else {
        nodes[i].transform.spec_vec()
    }
}

/// Node `j` of an attached subtree `b`, once `b` stands after `base` nodes
/// under the root, with `id` as the identifier of its own root.
pub open spec fn attached_entry(b: Seq<SceneEntry>, j: int, base: int, id: u64) -> SceneEntry {
    if j == 0 {
        SceneEntry { id, transform: b[0].transform, parent: 0 }
    } else {
        SceneEntry { id: b[j].id, transform: b[j].transform, parent: (b[j].parent + base) as usize }
    }
}

/// The arena `a` with the tree `b` attached as the root's last child.
pub open spec fn attach(a: Seq<SceneEntry>, b: Seq<SceneEntry>, id: u64) -> Seq<SceneEntry> {
    a + Seq::new(b.len(), |j: int| attached_entry(b, j, a.len() as int, id))
}

/// A node of a scene graph, together with all the nodes below it.
#[derive(Debug)]
pub struct SceneNode2D {
    nodes: Vec<SceneEntry>,
    child_count: usize,
}

impl View for SceneNode2D {
    type V = Seq<SceneEntry>;

    closed spec fn view(&self) -> Seq<SceneEntry> {
        self.nodes@
    }
}

impl SceneNode2D {
    #[verifier::type_invariant]
    spec fn wf(self) -> bool {
        &&& arena_wf(self.nodes@)
        &&& self.child_count == root_children(self.nodes@)
    }

    /// The identifier that the next child attached to this node receives:
    /// this node's identifier plus its number of children plus one.
    pub open spec fn next_child_id(&self) -> int {
        self@[0].id + root_children(self@) + 1
    }

    /// Whether every absolute position, moved by `offset`, fits in an `i64`.
    pub open spec fn positions_fit(&self, offset: Transform) -> bool {
        forall|i: int|
            0 <= i < self@.len() ==> fits_i64(
                #[trigger] vec3_add(absolute(self@, i), offset.spec_vec()),
            )
    }

    /// A root with no children, identifier 0 and no offset.
    pub fn new() -> (n: SceneNode2D)
        ensures
            arena_wf(n@),
            n@ == seq![SceneEntry { id: 0, transform: Transform { x: 0, y: 0, z: 0 }, parent: 0 }],
    {
        let mut nodes: Vec<SceneEntry> = Vec::new();
        nodes.push(SceneEntry { id: 0, transform: Transform { x: 0, y: 0, z: 0 }, parent: 0 });
        SceneNode2D { nodes, child_count: 0 }
    }

    /// The identifier of this node.
    pub fn id(&self) -> (id: u64)
        ensures
            id == self@[0].id,
    {
        proof {
            use_type_invariant(self);
        }
        self.nodes[0].id
    }

    /// The number of direct children of this node.
    pub fn child_count(&self) -> (n: usize)
        ensures
            n == root_children(self@),
    {
        proof {
            use_type_invariant(self);
        }
        self.child_count
    }

    /// The number of nodes in this tree, this one included.
    pub fn len(&self) -> (n: usize)
        ensures
            n == self@.len(),
    {
        self.nodes.len()
    }

    /// Replaces this node's own offset.
    pub fn with_transform(self, transform: Transform) -> (n: SceneNode2D)
        ensures
            arena_wf(n@),
            n@ == self@.update(
                0,
                SceneEntry { id: self@[0].id, transform, parent: self@[0].parent },
            ),
    {
        proof {
            use_type_invariant(&self);
        }
        let SceneNode2D { nodes, child_count } = self;
        let mut nodes = nodes;
        let root = nodes[0];
        nodes.set(0, SceneEntry { id: root.id, transform, parent: root.parent });
        proof {
            lemma_root_children_update_root(self.nodes@, nodes@);
        }
        SceneNode2D { nodes, child_count }
    }

    /// Attaches `node`, with everything below it, as this node's last child.
    /// The attached node's identifier becomes this node's identifier plus
    /// the number of children this node had plus one; the nodes below it
    /// keep theirs.
    pub fn add_node(self, node: SceneNode2D) -> (n: SceneNode2D)
        requires
            self.next_child_id() <= u64::MAX,
            self@.len() + node@.len() <= usize::MAX,
        ensures
            arena_wf(n@),
            n@ == attach(self@, node@, self.next_child_id() as u64),
    {
        proof {
            use_type_invariant(&self);
            use_type_invariant(&node);
        }
        let id: u64 = self.nodes[0].id + self.child_count as u64 + 1;
        let ghost a = self.nodes@;
        let ghost b = node.nodes@;
        let SceneNode2D { nodes, child_count } = self;
        let mut nodes = nodes;
        let base: usize = nodes.len();
        let mut j: usize = 0;
        while j < node.nodes.len()
            invariant
                a == self.nodes@,
                b == node.nodes@,
                arena_wf(b),
                base == a.len(),
                base + b.len() <= usize::MAX,
                0 <= j <= b.len(),
                nodes@.len() == base + j,
                forall|k: int| 0 <= k < base ==> nodes@[k] == a[k],
                forall|k: int| 0 <= k < j ==> nodes@[base + k] == attached_entry(b, k, base as int, id),
            decreases b.len() - j,
        {
            let e = node.nodes[j];
            if j == 0 {
                nodes.push(SceneEntry { id, transform: e.transform, parent: 0 });
            } else {
                nodes.push(SceneEntry { id: e.id, transform: e.transform, parent: e.parent + base });
            }
            j = j + 1;
        }
        proof {
            let s = Seq::new(b.len(), |k: int| attached_entry(b, k, base as int, id));
            assert(nodes@ =~= a + s);
            lemma_root_children_attach(a, s);
            lemma_root_children_bound(a);
            assert forall|i: int| 0 < i < nodes@.len() implies #[trigger] nodes@[i].parent < i by {
                if i >= base {
                    assert(nodes@[i] == attached_entry(b, i - base, base as int, id));
                }
            }
        }
        SceneNode2D { nodes, child_count: child_count + 1 }
    }

    /// Lists every node of this tree with its absolute position moved by
    /// `offset`, parents before their children, in the order of the arena;
    /// `None` when a position leaves the range of an `i64`.
    pub fn render_with_offset(&self, offset: Transform) -> (r: Option<Vec<RenderedNode>>)
        ensures
            r is Some <==> self.positions_fit(offset),
            r matches Some(r) ==> {
                &&& r@.len() == self@.len()
                &&& forall|i: int|
                    0 <= i < r@.len() ==> (#[trigger] r@[i]).id == self@[i].id
                        && r@[i].position.spec_vec() == vec3_add(absolute(self@, i), offset.spec_vec())
            },
    {
        proof {
            use_type_invariant(self);
        }
        let mut out: Vec<RenderedNode> = Vec::new();
        let mut i: usize = 0;
        while i < self.nodes.len()
            invariant
                arena_wf(self@),
                self@ == self.nodes@,
                0 <= i <= self@.len(),
                out@.len() == i,
                forall|k: int|
                    0 <= k < i ==> (#[trigger] out@[k]).id == self@[k].id
                        && out@[k].position.spec_vec() == vec3_add(absolute(self@, k), offset.spec_vec()),
                forall|k: int|
                    0 <= k < i ==> fits_i64(#[trigger] vec3_add(absolute(self@, k), offset.spec_vec())),
            decreases self@.len() - i,
        {
            let e = self.nodes[i];
            let base = if i == 0 {
                offset
            } else {
                out[e.parent].position
            };
            proof {
                assert(vec3_add(absolute(self@, i as int), offset.spec_vec()) == vec3_add(
                    base.spec_vec(),
                    e.transform.spec_vec(),
                ));
            }
            match base.checked_add(e.transform) {
                Some(position) => {
                    out.push(RenderedNode { id: e.id, position });
                },
                None => {
                    assert(!fits_i64(vec3_add(absolute(self@, i as int), offset.spec_vec())));
                    return None;
                },
            }
            i = i + 1;
        }
        Some(out)
    }

    /// Lists every node of this tree with its absolute position, this node
    /// being placed at its own offset; `None` when a position leaves the
    /// range of an `i64`.
    pub fn render(&self) -> (r: Option<Vec<RenderedNode>>)
        ensures
            r is Some <==> self.positions_fit(Transform { x: 0, y: 0, z: 0 }),
            r matches Some(r) ==> {
                &&& r@.len() == self@.len()
                &&& forall|i: int|
                    0 <= i < r@.len() ==> (#[trigger] r@[i]).id == self@[i].id
                        && r@[i].position.spec_vec() == absolute(self@, i)
            },
    {
        let r = self.render_with_offset(Transform { x: 0, y: 0, z: 0 });
        proof {
            if r is Some {
                let v = r->Some_0;
                assert forall|i: int| 0 <= i < v@.len() implies #[trigger] v@[i].position.spec_vec()
                    == absolute(self@, i) by {
                    assert(v@[i].position.spec_vec() == vec3_add(absolute(self@, i), vec3(0, 0, 0)));
                }
            }
        }
        r
    }
}

/// Attaching a tree places each of its nodes at the position it had in its
/// own tree, moved by the position of the root it is attached to; the nodes
/// that were already there keep their positions. Absolute positions are thus
/// the sum of all ancestor offsets, whatever the depth.
pub proof fn lemma_attach_positions(a: Seq<SceneEntry>, b: Seq<SceneEntry>, id: u64)
    requires
        arena_wf(a),
        arena_wf(b),
        a.len() + b.len() <= usize::MAX,
    ensures
        arena_wf(attach(a, b, id)),
        forall|k: int| 0 <= k < a.len() ==> #[trigger] absolute(attach(a, b, id), k) == absolute(a, k),
        forall|j: int|
            0 <= j < b.len() ==> #[trigger] absolute(attach(a, b, id), a.len() + j) == vec3_add(
                absolute(a, 0),
                absolute(b, j),
            ),
{
    let t = attach(a, b, id);
    assert forall|i: int| 0 < i < t.len() implies #[trigger] t[i].parent < i by {
        if i >= a.len() {
            assert(t[i] == attached_entry(b, i - a.len(), a.len() as int, id));
        }
    }
    assert forall|k: int| 0 <= k < a.len() implies #[trigger] absolute(t, k) == absolute(a, k) by {
        lemma_prefix_position(a, b, id, k);
    }
    assert forall|j: int| 0 <= j < b.len() implies #[trigger] absolute(t, a.len() + j) == vec3_add(
        absolute(a, 0),
        absolute(b, j),
    ) by {
        lemma_attached_position(a, b, id, j);
    }
}

proof fn lemma_prefix_position(a: Seq<SceneEntry>, b: Seq<SceneEntry>, id: u64, k: int)
    requires
        arena_wf(a),
        0 <= k < a.len(),
    ensures
        absolute(attach(a, b, id), k) == absolute(a, k),
    decreases k,
{
    let t = attach(a, b, id);
    assert(t[k] == a[k]);
    if k > 0 {
        lemma_prefix_position(a, b, id, a[k].parent as int);
    }
}

proof fn lemma_attached_position(a: Seq<SceneEntry>, b: Seq<SceneEntry>, id: u64, j: int)
    requires
        arena_wf(a),
        arena_wf(b),
        a.len() + b.len() <= usize::MAX,
        0 <= j < b.len(),
    ensures
        absolute(attach(a, b, id), a.len() + j) == vec3_add(absolute(a, 0), absolute(b, j)),
    decreases j,
{
    let t = attach(a, b, id);
    let base = a.len() as int;
    assert(t[base + j] == attached_entry(b, j, base, id));
    assert(t[0] == a[0]);
    assert(absolute(t, 0) == absolute(a, 0));
    if j > 0 {
        let p = b[j].parent as int;
        assert(p < j);
        lemma_attached_position(a, b, id, p);
        assert(t[base + j].parent == base + p);
        assert(absolute(t, base + j) == vec3_add(absolute(t, base + p), b[j].transform.spec_vec()));
        assert(absolute(b, j) == vec3_add(absolute(b, p), b[j].transform.spec_vec()));
    } else {
        assert(absolute(t, base) == vec3_add(absolute(t, 0), b[0].transform.spec_vec()));
    }
}

/// Attaching a tree whose root alone names the arena's root adds one child.
proof fn lemma_root_children_attach(a: Seq<SceneEntry>, s: Seq<SceneEntry>)
    requires
        a.len() >= 1,
        s.len() >= 1,
        s[0].parent == 0,
        forall|k: int| 0 < k < s.len() ==> #[trigger] s[k].parent != 0,
    ensures
        root_children(a + s) == root_children(a) + 1,
    decreases s.len(),
{
    if s.len() == 1 {
        assert((a + s).drop_last() =~= a);
    } else {
        assert((a + s).drop_last() =~= a + s.drop_last());
        assert(s.drop_last()[0] == s[0]);
        assert forall|k: int| 0 < k < s.drop_last().len() implies #[trigger] s.drop_last()[k].parent != 0 by {
            assert(s.drop_last()[k] == s[k]);
        }
        lemma_root_children_attach(a, s.drop_last());
        assert(s.last().parent != 0);
    }
}


/// The root has fewer children than the arena has nodes.
proof fn lemma_root_children_bound(a: Seq<SceneEntry>)
    requires
        a.len() >= 1,
    ensures
        root_children(a) < a.len(),
    decreases a.len(),
{
    if a.len() > 1 {
        lemma_root_children_bound(a.drop_last());
    }
}

/// Changing the root entry alone leaves the number of its children as it was.
proof fn lemma_root_children_update_root(a: Seq<SceneEntry>, b: Seq<SceneEntry>)
    requires
        a.len() == b.len(),
        forall|i: int| 0 < i < a.len() ==> a[i] == b[i],
    ensures
        root_children(a) == root_children(b),
    decreases a.len(),
{
    if a.len() > 1 {
        lemma_root_children_update_root(a.drop_last(), b.drop_last());
    }
}

} // verus!
