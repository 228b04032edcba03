//! Collider synthesis from naming conventions and child-mesh geometry.
use vstd::prelude::*;

use crate::geometry::{contains_box, union_aabb, union_spec, Aabb, Vec3i};
use crate::names::{chars_of, contains_chars, contains_seq};

verus! {

/// Marks a node whose single child mesh is collision geometry only.
pub open spec fn colonly_tag() -> Seq<char> {
    seq!['-', 'c', 'o', 'l', 'o', 'n', 'l', 'y']
}

/// Marks a node that becomes a dynamic body shaped by its child meshes.
pub open spec fn rigid_tag() -> Seq<char> {
    seq!['-', 'r', 'i', 'g', 'i', 'd']
}

/// Marks a rigid node whose collider is a cylinder rather than a box.
pub open spec fn barrel_tag() -> Seq<char> {
    seq!['B', 'a', 'r', 'r', 'e', 'l']
}

/// How a node is treated, decided by the tags in its name. The collision-only
/// tag wins over the rigid one, so at most one applies.
#[derive(Clone, Copy, Debug, PartialEq, Eq, Structural)]
pub enum NodeClass {
    CollisionOnly,
    Rigid,
    Other,
}

pub open spec fn class_of(name: Seq<char>) -> NodeClass {
    if contains_seq(name, colonly_tag()) {
        NodeClass::CollisionOnly
    } else if contains_seq(name, rigid_tag()) {
        NodeClass::Rigid
    } else {
        NodeClass::Other
    }
}

/// The class of a node with the given name.
pub fn classify(name: &str) -> (r: NodeClass)
    ensures
        r == class_of(name@),
{
    let chars = chars_of(name);
    let colonly: Vec<char> = vec!['-', 'c', 'o', 'l', 'o', 'n', 'l', 'y'];
    let rigid: Vec<char> = vec!['-', 'r', 'i', 'g', 'i', 'd'];
    assert(colonly@ =~= colonly_tag());
    assert(rigid@ =~= rigid_tag());
    if contains_chars(&chars, &colonly) {
        NodeClass::CollisionOnly
    } else if contains_chars(&chars, &rigid) {
        NodeClass::Rigid
    } else {
        NodeClass::Other
    }
}

/// Whether a rigid node with this name gets a cylinder collider.
pub fn is_barrel(name: &str) -> (r: bool)
    ensures
        r == contains_seq(name@, barrel_tag()),
{
    let chars = chars_of(name);
    let barrel: Vec<char> = vec!['B', 'a', 'r', 'r', 'e', 'l'];
    assert(barrel@ =~= barrel_tag());
    contains_chars(&chars, &barrel)
}

/// A child of a node, as far as its mesh goes.
#[derive(Clone, Copy, Debug, PartialEq, Eq, Structural)]
pub enum ChildMesh {
    /// The child carries no mesh.
    Missing,
    /// The child refers to a mesh that has not resolved.
    NotLoaded,
    /// The mesh resolved; its local-space bounds, if it has any vertices.
    Loaded(Option<Aabb>),
}

/// A scene node: its name and its children, in order.
#[derive(Debug)]
pub struct SceneNode {
    pub name: String,
    pub children: Vec<ChildMesh>,
}

pub open spec fn child_wf(c: ChildMesh) -> bool {
    match c {
        ChildMesh::Loaded(Some(b)) => b.wf(),
        _ => true,
    }
}

pub open spec fn children_wf(children: Seq<ChildMesh>) -> bool {
    forall|i: int| 0 <= i < children.len() ==> child_wf(#[trigger] children[i])
}

impl SceneNode {
    /// Every bounding box among the children is well formed.
    pub open spec fn wf(&self) -> bool {
        children_wf(self.children@)
    }
}

/// Why a node, or one of its children, was skipped.
#[derive(Clone, Copy, Debug, PartialEq, Eq, Structural)]
pub enum SceneWarning {
    /// A collision-only node has no children.
    NoChildren,
    /// A collision-only node has this many children instead of one.
    TooManyChildren(usize),
    /// The child at this index carries no mesh.
    ChildWithoutMesh(usize),
    /// The mesh of the child at this index has not resolved.
    MeshNotLoaded(usize),
    /// The mesh of the child at this index has no bounds.
    MeshWithoutBounds(usize),
}

/// A collider to attach to a node, sizes in micrometres.
#[derive(Clone, Copy, Debug, PartialEq, Eq, Structural)]
pub enum ColliderShape {
    /// A triangle mesh built from the mesh of the child at this index.
    TriMesh { child: usize },
    /// An upright cylinder.
    Cylinder { radius: i64, half_height: i64 },
    /// A box with these half-extents.
    Cuboid { half_extents: Vec3i },
}

/// The kind of rigid body attached to a node.
#[derive(Clone, Copy, Debug, PartialEq, Eq, Structural)]
pub enum BodyKind {
    Fixed,
    Dynamic,
    KinematicPositionBased,
}

/// What to do with one node.
#[derive(Debug)]
pub enum NodeFix {
    /// Leave the node as it is.
    Untouched,
    /// Hide the node. On `Ok`, attach a fixed body with that collider, unless
    /// the triangle mesh cannot be built from the geometry.
    CollisionOnly(Result<ColliderShape, SceneWarning>),
    /// Attach a dynamic body with this collider; the warnings name the
    /// children that did not contribute to its shape.
    Rigid(ColliderShape, Vec<SceneWarning>),
}

/// The mathematical content of a [`NodeFix`].
pub enum NodeFixModel {
    Untouched,
    CollisionOnly(Result<ColliderShape, SceneWarning>),
    Rigid(ColliderShape, Seq<SceneWarning>),
}

impl View for NodeFix {
    type V = NodeFixModel;

    open spec fn view(&self) -> NodeFixModel {
        match self {
            NodeFix::Untouched => NodeFixModel::Untouched,
            NodeFix::CollisionOnly(r) => NodeFixModel::CollisionOnly(*r),
            NodeFix::Rigid(c, w) => NodeFixModel::Rigid(*c, w@),
        }
    }
}

pub open spec fn fix_hides(f: NodeFixModel) -> bool {
    f is CollisionOnly
}

pub open spec fn fix_body(f: NodeFixModel) -> Option<BodyKind> {
    match f {
        NodeFixModel::Untouched => None,
        NodeFixModel::CollisionOnly(Ok(_)) => Some(BodyKind::Fixed),
        NodeFixModel::CollisionOnly(Err(_)) => None,
        NodeFixModel::Rigid(_, _) => Some(BodyKind::Dynamic),
    }
}

pub open spec fn fix_collider(f: NodeFixModel) -> Option<ColliderShape> {
    match f {
        NodeFixModel::Untouched => None,
        NodeFixModel::CollisionOnly(Ok(c)) => Some(c),
        NodeFixModel::CollisionOnly(Err(_)) => None,
        NodeFixModel::Rigid(c, _) => Some(c),
    }
}

impl NodeFix {
    /// Whether the node is to be hidden.
    pub fn hides(&self) -> (r: bool)
        ensures
            r == fix_hides(self@),
    {
        match self {
            NodeFix::CollisionOnly(_) => true,
            _ => false,
        }
    }

    /// The body to attach, if any.
    pub fn body(&self) -> (r: Option<BodyKind>)
        ensures
            r == fix_body(self@),
    {
        match self {
            NodeFix::Untouched => None,
            NodeFix::CollisionOnly(Ok(_)) => Some(BodyKind::Fixed),
            NodeFix::CollisionOnly(Err(_)) => None,
            NodeFix::Rigid(_, _) => Some(BodyKind::Dynamic),
        }
    }

    /// The collider to attach, if any.
    pub fn collider(&self) -> (r: Option<ColliderShape>)
        ensures
            r == fix_collider(self@),
    {
        match self {
            NodeFix::Untouched => None,
            NodeFix::CollisionOnly(Ok(c)) => Some(*c),
            NodeFix::CollisionOnly(Err(_)) => None,
            NodeFix::Rigid(c, _) => Some(*c),
        }
    }
}

/// The plan for a collision-only node: it needs exactly one child, and that
/// child's mesh must have resolved.
pub open spec fn colonly_spec(children: Seq<ChildMesh>) -> Result<ColliderShape, SceneWarning> {
    if children.len() == 0 {
        Err(SceneWarning::NoChildren)
    } else if children.len() > 1 {
        Err(SceneWarning::TooManyChildren(children.len() as usize))
    } else {
        match children[0] {
            ChildMesh::Missing => Err(SceneWarning::ChildWithoutMesh(0)),
            ChildMesh::NotLoaded => Err(SceneWarning::MeshNotLoaded(0)),
            ChildMesh::Loaded(_) => Ok(ColliderShape::TriMesh { child: 0 }),
        }
    }
}

/// The union of the bounds of the children's resolved meshes, `None` when no
/// child contributes any.
pub open spec fn rigid_bounds(children: Seq<ChildMesh>) -> Option<Aabb>
    decreases children.len(),
{
    if children.len() == 0 {
        None
    } else {
        let prev = rigid_bounds(children.drop_last());
        match children.last() {
            ChildMesh::Loaded(Some(b)) => match prev {
                Some(p) => Some(union_spec(p, b)),
                None => Some(b),
            },
            _ => prev,
        }
    }
}

/// The warning for the child at index `i` of a rigid node, if it does not
/// contribute to the node's shape.
pub open spec fn rigid_child_warning(c: ChildMesh, i: int) -> Option<SceneWarning> {
    match c {
        ChildMesh::Missing => Some(SceneWarning::ChildWithoutMesh(i as usize)),
        ChildMesh::NotLoaded => Some(SceneWarning::MeshNotLoaded(i as usize)),
        ChildMesh::Loaded(None) => Some(SceneWarning::MeshWithoutBounds(i as usize)),
        ChildMesh::Loaded(Some(_)) => None,
    }
}

/// The warnings for the children of a rigid node, in child order.
pub open spec fn rigid_warnings(children: Seq<ChildMesh>) -> Seq<SceneWarning>
    decreases children.len(),
{
    if children.len() == 0 {
        Seq::empty()
    } else {
        let prev = rigid_warnings(children.drop_last());
        match rigid_child_warning(children.last(), children.len() - 1) {
            Some(w) => prev.push(w),
            None => prev,
        }
    }
}

/// The box that shapes a rigid node: the union of its children's bounds, or
/// the box that holds only the origin when no child has any.
pub open spec fn rigid_box(children: Seq<ChildMesh>) -> Aabb {
    match rigid_bounds(children) {
        Some(b) => b,
        None => Aabb { min: Vec3i { x: 0, y: 0, z: 0 }, max: Vec3i { x: 0, y: 0, z: 0 } },
    }
}

/// The collider of a rigid node shaped by box `b`: a cylinder for barrels,
/// with the X half-extent as radius and the Y half-extent as half-height;
/// otherwise a cuboid with the box's half-extents.
pub open spec fn rigid_collider(name: Seq<char>, b: Aabb) -> ColliderShape {
    let h = b.half_extents_spec();
    if contains_seq(name, barrel_tag()) {
        ColliderShape::Cylinder { radius: h.0 as i64, half_height: h.1 as i64 }
    } else {
        ColliderShape::Cuboid { half_extents: Vec3i { x: h.0 as i64, y: h.1 as i64, z: h.2 as i64 } }
    }
}

/// What the synthesizer does with a node of this name and these children.
pub open spec fn fix_node_spec(name: Seq<char>, children: Seq<ChildMesh>) -> NodeFixModel {
    match class_of(name) {
        NodeClass::CollisionOnly => NodeFixModel::CollisionOnly(colonly_spec(children)),
        NodeClass::Rigid => NodeFixModel::Rigid(
            rigid_collider(name, rigid_box(children)),
            rigid_warnings(children),
        ),
        NodeClass::Other => NodeFixModel::Untouched,
    }
}

fn plan_collision_only(children: &Vec<ChildMesh>) -> (r: Result<ColliderShape, SceneWarning>)
    ensures
        r == colonly_spec(children@),
{
    if children.len() == 0 {
        Err(SceneWarning::NoChildren)
    } else if children.len() > 1 {
        Err(SceneWarning::TooManyChildren(children.len()))
    } else {
        match children[0] {
            ChildMesh::Missing => Err(SceneWarning::ChildWithoutMesh(0)),
            ChildMesh::NotLoaded => Err(SceneWarning::MeshNotLoaded(0)),
            ChildMesh::Loaded(_) => Ok(ColliderShape::TriMesh { child: 0 }),
        }
    }
}

fn gather_rigid(children: &Vec<ChildMesh>) -> (r: (Aabb, Vec<SceneWarning>))
    requires
        children_wf(children@),
    ensures
        r.0 == rigid_box(children@),
        r.0.wf(),
        r.1@ == rigid_warnings(children@),
{
    let n = children.len();
    let mut bounds: Option<Aabb> = None;
    let mut warnings: Vec<SceneWarning> = Vec::new();
    let mut i: usize = 0;
    while i < n
        invariant
            n == children@.len(),
            i <= n,
            children_wf(children@),
            bounds == rigid_bounds(children@.subrange(0, i as int)),
            warnings@ == rigid_warnings(children@.subrange(0, i as int)),
            match bounds {
                Some(b) => b.wf(),
                None => true,
            },
        decreases n - i,
    {
        let ghost before = children@.subrange(0, i as int);
        let ghost after = children@.subrange(0, i + 1);
        assert(after.drop_last() =~= before);
        assert(after.last() == children@[i as int]);
        assert(child_wf(children@[i as int]));
        match children[i] {
            ChildMesh::Missing => {
                warnings.push(SceneWarning::ChildWithoutMesh(i));
            },
            ChildMesh::NotLoaded => {
                warnings.push(SceneWarning::MeshNotLoaded(i));
            },
            ChildMesh::Loaded(None) => {
                warnings.push(SceneWarning::MeshWithoutBounds(i));
            },
            ChildMesh::Loaded(Some(b)) => {
                bounds = match bounds {
                    Some(p) => Some(union_aabb(&p, &b)),
                    None => Some(b),
                };
            },
        }
        i += 1;
    }
    assert(children@.subrange(0, n as int) =~= children@);
    let shape = match bounds {
        Some(b) => b,
        None => Aabb::zero(),
    };
    (shape, warnings)
}

fn rigid_collider_exec(name: &str, b: &Aabb) -> (r: ColliderShape)
    requires
        b.wf(),
    ensures
        r == rigid_collider(name@, *b),
{
    let h = b.half_extents();
    if is_barrel(name) {
        ColliderShape::Cylinder { radius: h.x, half_height: h.y }
    } else {
        ColliderShape::Cuboid { half_extents: h }
    }
}

/// Decides what to do with one node: a collision-only node is hidden and gets
/// a fixed tri-mesh collider from its single child; a rigid node gets a
/// dynamic body whose collider is sized by the union of its child meshes'
/// bounds; any other node is left alone.
pub fn fix_node(node: &SceneNode) -> (r: NodeFix)
    requires
        node.wf(),
    ensures
        r@ == fix_node_spec(node.name@, node.children@),
{
    match classify(node.name.as_str()) {
        NodeClass::CollisionOnly => NodeFix::CollisionOnly(plan_collision_only(&node.children)),
        NodeClass::Rigid => {
            let (b, warnings) = gather_rigid(&node.children);
            NodeFix::Rigid(rigid_collider_exec(node.name.as_str(), &b), warnings)
        },
        NodeClass::Other => NodeFix::Untouched,
    }
}

/// The number of nodes in `nodes` of class `c`.
pub open spec fn count_class(nodes: Seq<SceneNode>, c: NodeClass) -> nat
    decreases nodes.len(),
{
    if nodes.len() == 0 {
        0
    } else {
        count_class(nodes.drop_last(), c) + if class_of(nodes.last().name@) == c {
            1nat
        } else {
            0nat
        }
    }
}

/// The outcome of the synthesis pass over a scene.
#[derive(Debug)]
pub struct PhysicsReport {
    /// What to do with each node, in the order of the input.
    pub fixes: Vec<NodeFix>,
    /// How many collision-only nodes were processed.
    pub collision_only: usize,
    /// How many rigid nodes were processed.
    pub rigid: usize,
}

/// Runs the synthesizer over every node of a scene. Each node's outcome
/// depends on that node alone, so the order in which the scene is walked does
/// not change what any node gets.
pub fn fix_scene_physics(nodes: &Vec<SceneNode>) -> (r: PhysicsReport)
    requires
        forall|i: int| 0 <= i < nodes@.len() ==> (#[trigger] nodes@[i]).wf(),
    ensures
        r.fixes@.len() == nodes@.len(),
        forall|i: int|
            0 <= i < nodes@.len() ==> (#[trigger] r.fixes@[i])@ == fix_node_spec(
                nodes@[i].name@,
                nodes@[i].children@,
            ),
        r.collision_only == count_class(nodes@, NodeClass::CollisionOnly),
        r.rigid == count_class(nodes@, NodeClass::Rigid),
{
    let n = nodes.len();
    let mut fixes: Vec<NodeFix> = Vec::new();
    let mut collision_only: usize = 0;
    let mut rigid: usize = 0;
    let mut i: usize = 0;
    while i < n
        invariant
            n == nodes@.len(),
            i <= n,
            forall|k: int| 0 <= k < nodes@.len() ==> (#[trigger] nodes@[k]).wf(),
            fixes@.len() == i,
            forall|k: int|
                0 <= k < i ==> (#[trigger] fixes@[k])@ == fix_node_spec(
                    nodes@[k].name@,
                    nodes@[k].children@,
                ),
            collision_only == count_class(nodes@.subrange(0, i as int), NodeClass::CollisionOnly),
            rigid == count_class(nodes@.subrange(0, i as int), NodeClass::Rigid),
            collision_only + rigid <= i,
        decreases n - i,
    {
        let ghost before = nodes@.subrange(0, i as int);
        let ghost after = nodes@.subrange(0, i + 1);
        assert(after.drop_last() =~= before);
        assert(after.last() == nodes@[i as int]);
        let node = &nodes[i];
        match classify(node.name.as_str()) {
            NodeClass::CollisionOnly => {
                collision_only += 1;
            },
            NodeClass::Rigid => {
                rigid += 1;
            },
            NodeClass::Other => {},
        }
        fixes.push(fix_node(node));
        i += 1;
    }
    assert(nodes@.subrange(0, n as int) =~= nodes@);
    PhysicsReport { fixes, collision_only, rigid }
}

/// A collision-only node with exactly one child whose mesh resolved is hidden
/// and gets a fixed body with a tri-mesh collider built from that child; with
/// no children, or with more than one, it is still hidden, gets neither body
/// nor collider, and carries a warning.
pub proof fn lemma_collision_only_outcome(name: Seq<char>, children: Seq<ChildMesh>)
    requires
        contains_seq(name, colonly_tag()),
    ensures
        fix_hides(fix_node_spec(name, children)),
        children.len() == 1 && children[0] is Loaded ==> {
            &&& fix_body(fix_node_spec(name, children)) == Some(BodyKind::Fixed)
            &&& fix_collider(fix_node_spec(name, children)) == Some(
                ColliderShape::TriMesh { child: 0 },
            )
        },
        children.len() != 1 ==> {
            &&& fix_body(fix_node_spec(name, children)) == None::<BodyKind>
            &&& fix_collider(fix_node_spec(name, children)) == None::<ColliderShape>
            &&& fix_node_spec(name, children) matches NodeFixModel::CollisionOnly(Err(_))
        },
{
}

/// Box `b` is the bounds of one of the children.
pub open spec fn has_bounds(children: Seq<ChildMesh>, b: Aabb) -> bool {
    children.contains(ChildMesh::Loaded(Some(b)))
}

/// `r` holds each child box, and each of its six faces lies on the matching
/// face of some child box: it is the smallest box that holds them all.
pub open spec fn tight_bounds(children: Seq<ChildMesh>, r: Aabb) -> bool {
    &&& forall|b: Aabb| #[trigger] has_bounds(children, b) ==> contains_box(r, b)
    &&& exists|b: Aabb| #[trigger] has_bounds(children, b) && b.min.x == r.min.x
    &&& exists|b: Aabb| #[trigger] has_bounds(children, b) && b.min.y == r.min.y
    &&& exists|b: Aabb| #[trigger] has_bounds(children, b) && b.min.z == r.min.z
    &&& exists|b: Aabb| #[trigger] has_bounds(children, b) && b.max.x == r.max.x
    &&& exists|b: Aabb| #[trigger] has_bounds(children, b) && b.max.y == r.max.y
    &&& exists|b: Aabb| #[trigger] has_bounds(children, b) && b.max.z == r.max.z
}

proof fn lemma_has_bounds_push(prev: Seq<ChildMesh>, last: ChildMesh, b: Aabb)
    ensures
        has_bounds(prev.push(last), b) <==> (has_bounds(prev, b) || last == ChildMesh::Loaded(
            Some(b),
        )),
{
    let s = prev.push(last);
    let x = ChildMesh::Loaded(Some(b));
    if has_bounds(s, b) {
        let i = choose|i: int| 0 <= i < s.len() && s[i] == x;
        if i < prev.len() {
            assert(prev[i] == x);
        }
    }
    if has_bounds(prev, b) {
        let i = choose|i: int| 0 <= i < prev.len() && prev[i] == x;
        assert(s[i] == x);
    }
    if last == x {
        assert(s[prev.len() as int] == x);
    }
}

proof fn lemma_rigid_bounds_tight(children: Seq<ChildMesh>)
    ensures
        rigid_bounds(children) is None <==> forall|b: Aabb| !has_bounds(children, b),
        rigid_bounds(children) matches Some(r) ==> tight_bounds(children, r),
    decreases children.len(),
{
    if children.len() == 0 {
        assert forall|b: Aabb| !has_bounds(children, b) by {}
    } else {
        let prev = children.drop_last();
        let last = children.last();
        assert(children =~= prev.push(last));
        lemma_rigid_bounds_tight(prev);
        assert forall|b: Aabb|
            has_bounds(children, b) <==> (has_bounds(prev, b) || last == ChildMesh::Loaded(
                Some(b),
            )) by {
            lemma_has_bounds_push(prev, last, b);
        }
        match last {
            ChildMesh::Loaded(Some(nb)) => {
                assert(has_bounds(children, nb));
                match rigid_bounds(prev) {
                    Some(p) => {
                        let r = union_spec(p, nb);
                        assert(tight_bounds(children, r)) by {
                            let w = choose|b: Aabb| has_bounds(prev, b) && b.min.x == p.min.x;
                            assert(has_bounds(children, w));
                            let w = choose|b: Aabb| has_bounds(prev, b) && b.min.y == p.min.y;
                            assert(has_bounds(children, w));
                            let w = choose|b: Aabb| has_bounds(prev, b) && b.min.z == p.min.z;
                            assert(has_bounds(children, w));
                            let w = choose|b: Aabb| has_bounds(prev, b) && b.max.x == p.max.x;
                            assert(has_bounds(children, w));
                            let w = choose|b: Aabb| has_bounds(prev, b) && b.max.y == p.max.y;
                            assert(has_bounds(children, w));
                            let w = choose|b: Aabb| has_bounds(prev, b) && b.max.z == p.max.z;
                            assert(has_bounds(children, w));
                        }
                    },
                    None => {
                        assert forall|b: Aabb| has_bounds(children, b) implies b == nb by {}
                    },
                }
            },
            _ => {
                assert forall|b: Aabb| has_bounds(children, b) <==> has_bounds(prev, b) by {}
                match rigid_bounds(prev) {
                    Some(p) => {
                        assert(tight_bounds(children, p));
                    },
                    None => {},
                }
            },
        }
    }
}

/// The union of the children's bounds depends only on which boxes occur among
/// them: reordering or repeating children does not change it.
pub proof fn lemma_rigid_bounds_order_independent(a: Seq<ChildMesh>, b: Seq<ChildMesh>)
    requires
        forall|c: ChildMesh| a.contains(c) <==> b.contains(c),
    ensures
        rigid_bounds(a) == rigid_bounds(b),
{
    lemma_rigid_bounds_tight(a);
    lemma_rigid_bounds_tight(b);
    assert forall|x: Aabb| has_bounds(a, x) <==> has_bounds(b, x) by {}
    if let (Some(ra), Some(rb)) = (rigid_bounds(a), rigid_bounds(b)) {
        let w = choose|x: Aabb| has_bounds(a, x) && x.min.x == ra.min.x;
        assert(has_bounds(b, w));
        let w = choose|x: Aabb| has_bounds(b, x) && x.min.x == rb.min.x;
        assert(has_bounds(a, w));
        let w = choose|x: Aabb| has_bounds(a, x) && x.min.y == ra.min.y;
        assert(has_bounds(b, w));
        let w = choose|x: Aabb| has_bounds(b, x) && x.min.y == rb.min.y;
        assert(has_bounds(a, w));
        let w = choose|x: Aabb| has_bounds(a, x) && x.min.z == ra.min.z;
        assert(has_bounds(b, w));
        let w = choose|x: Aabb| has_bounds(b, x) && x.min.z == rb.min.z;
        assert(has_bounds(a, w));
        let w = choose|x: Aabb| has_bounds(a, x) && x.max.x == ra.max.x;
        assert(has_bounds(b, w));
        let w = choose|x: Aabb| has_bounds(b, x) && x.max.x == rb.max.x;
        assert(has_bounds(a, w));
        let w = choose|x: Aabb| has_bounds(a, x) && x.max.y == ra.max.y;
        assert(has_bounds(b, w));
        let w = choose|x: Aabb| has_bounds(b, x) && x.max.y == rb.max.y;
        assert(has_bounds(a, w));
        let w = choose|x: Aabb| has_bounds(a, x) && x.max.z == ra.max.z;
        assert(has_bounds(b, w));
        let w = choose|x: Aabb| has_bounds(b, x) && x.max.z == rb.max.z;
        assert(has_bounds(a, w));
    }
}

/// A rigid node's collider does not depend on the order of its children.
pub proof fn lemma_rigid_collider_order_independent(
    name: Seq<char>,
    a: Seq<ChildMesh>,
    b: Seq<ChildMesh>,
)
    requires
        class_of(name) == NodeClass::Rigid,
        forall|c: ChildMesh| a.contains(c) <==> b.contains(c),
    ensures
        fix_collider(fix_node_spec(name, a)) == fix_collider(fix_node_spec(name, b)),
{
    lemma_rigid_bounds_order_independent(a, b);
}

} // verus!
