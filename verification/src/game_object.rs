//! The scene graph: transforms, components and game objects.
//!
//! A `GameObject` owns a name, an ordered list of components, one embedded
//! `Transform`, an active flag, and an ordered list of child objects. A
//! `Transform` caches its model matrix behind a dirty flag; the cache is
//! valid whenever the flag is clear, and every mutation sets the flag.

use vstd::prelude::*;
use crate::math::Vec3;
use crate::math::Quat;
use crate::math::Mat4;
use crate::math::POS_MAX;
use crate::math::QUAT_MAX;
use crate::math::SCALE_MAX;
use crate::math::vec3_bounded;
use crate::math::quat_bounded;
use crate::math::spec_model_matrix;
use crate::math::model_matrix;
use crate::fixed::FX_ONE;
use crate::model::Model;

verus! {

/// Position, rotation and scale, with a lazily recomputed model matrix.
#[derive(Clone, Debug)]
pub struct Transform {
    pub position: Vec3,
    pub rotation: Quat,
    pub scale: Vec3,
    /// The cached model matrix; read it through `get_model_matrix`.
    pub model_matrix: Mat4,
    /// Whether the cache is stale; set by every mutation.
    pub dirty: bool,
}

impl Transform {
    /// The components stay within the fixed-point range the matrix
    /// arithmetic accepts.
    pub open spec fn bounded(&self) -> bool {
        vec3_bounded(self.position, POS_MAX as int) && quat_bounded(self.rotation, QUAT_MAX as int)
            && vec3_bounded(self.scale, SCALE_MAX as int)
    }

    /// Well-formedness: bounded components, and a clear dirty flag means
    /// the cache equals the matrix computed from the current components.
    pub open spec fn wf(&self) -> bool {
        self.bounded() && (!self.dirty ==> self.model_matrix == spec_model_matrix(
            self.position,
            self.rotation,
            self.scale,
        ))
    }

    /// A new transform: identity components, identity matrix cached, and
    /// the dirty flag set so the first use recomputes.
    pub fn new() -> (r: Transform)
        ensures
            r.wf(),
            r.position == (Vec3 { x: 0, y: 0, z: 0 }),
            r.rotation == (Quat { x: 0, y: 0, z: 0, w: FX_ONE }),
            r.scale == (Vec3 { x: FX_ONE, y: FX_ONE, z: FX_ONE }),
            r.dirty,
    {
        Transform {
            position: Vec3 { x: 0, y: 0, z: 0 },
            rotation: Quat { x: 0, y: 0, z: 0, w: FX_ONE },
            scale: Vec3 { x: FX_ONE, y: FX_ONE, z: FX_ONE },
            model_matrix: Mat4::identity(),
            dirty: true,
        }
    }

    /// A new transform at `position`, otherwise as [`Transform::new`].
    pub fn with_position(position: Vec3) -> (r: Transform)
        requires
            vec3_bounded(position, POS_MAX as int),
        ensures
            r.wf(),
            r.position == position,
            r.rotation == (Quat { x: 0, y: 0, z: 0, w: FX_ONE }),
            r.scale == (Vec3 { x: FX_ONE, y: FX_ONE, z: FX_ONE }),
            r.dirty,
    {
        let mut t = Transform::new();
        t.position = position;
        t.dirty = true;
        t
    }

    /// Move the transform and mark the cache stale.
    pub fn set_position(&mut self, position: Vec3)
        requires
            old(self).wf(),
            vec3_bounded(position, POS_MAX as int),
        ensures
            final(self).wf(),
            final(self).position == position,
            final(self).rotation == old(self).rotation,
            final(self).scale == old(self).scale,
            final(self).dirty,
    {
        self.position = position;
        self.dirty = true;
    }

    /// Rotate the transform and mark the cache stale.
    pub fn set_rotation(&mut self, rotation: Quat)
        requires
            old(self).wf(),
            quat_bounded(rotation, QUAT_MAX as int),
        ensures
            final(self).wf(),
            final(self).rotation == rotation,
            final(self).position == old(self).position,
            final(self).scale == old(self).scale,
            final(self).dirty,
    {
        self.rotation = rotation;
        self.dirty = true;
    }

    /// Rescale the transform and mark the cache stale.
    pub fn set_scale(&mut self, scale: Vec3)
        requires
            old(self).wf(),
            vec3_bounded(scale, SCALE_MAX as int),
        ensures
            final(self).wf(),
            final(self).scale == scale,
            final(self).position == old(self).position,
            final(self).rotation == old(self).rotation,
            final(self).dirty,
    {
        self.scale = scale;
        self.dirty = true;
    }

    /// The up-to-date model matrix: recomputed if and only if the cache is
    /// stale, then served from the cache. No stale value can leak through:
    /// the result always equals the matrix of the current components.
    pub fn model_matrix(&mut self) -> (r: Mat4)
        requires
            old(self).wf(),
        ensures
            final(self).wf(),
            r == spec_model_matrix(old(self).position, old(self).rotation, old(self).scale),
            final(self).position == old(self).position,
            final(self).rotation == old(self).rotation,
            final(self).scale == old(self).scale,
            !final(self).dirty,
            final(self).model_matrix == r,
    {
        if self.dirty {
            self.recalculate_matrix();
        }
        self.model_matrix
    }

    /// The cached matrix, served as-is even when stale; call
    /// [`Transform::model_matrix`] first when an up-to-date value is needed.
    pub fn get_model_matrix(&self) -> (r: Mat4)
        ensures
            r == self.model_matrix,
    {
        self.model_matrix
    }

    /// Recompute the cache from the current components and clear the flag.
    fn recalculate_matrix(&mut self)
        requires
            old(self).bounded(),
        ensures
            final(self).wf(),
            final(self).position == old(self).position,
            final(self).rotation == old(self).rotation,
            final(self).scale == old(self).scale,
            !final(self).dirty,
            final(self).model_matrix == spec_model_matrix(
                old(self).position,
                old(self).rotation,
                old(self).scale,
            ),
    {
        self.model_matrix = model_matrix(self.position, self.rotation, self.scale);
        self.dirty = false;
    }

    /// The model matrix computed fresh from the current components,
    /// bypassing the cache.
    pub fn to_matrix(&self) -> (r: Mat4)
        requires
            self.bounded(),
        ensures
            r == spec_model_matrix(self.position, self.rotation, self.scale),
    {
        model_matrix(self.position, self.rotation, self.scale)
    }
}

/// The per-object uniform block: the view-projection matrix, then the
/// model matrix — the CPU image of the 128-byte GPU buffer.
#[derive(Clone, Copy, Debug, PartialEq, Eq, Structural)]
pub struct UniformBlock {
    pub view_proj: Mat4,
    pub model: Mat4,
}

/// A component that renders a loaded model: the model, the path it was
/// loaded from, and the per-object uniform block backing its draws.
#[derive(Clone, Debug)]
pub struct ModelComponent {
    pub model: Option<Model>,
    pub model_path: Option<String>,
    pub uniform: Option<UniformBlock>,
}

impl ModelComponent {
    /// If a model is present, its uniform block is present: the block was
    /// supplied when the model was installed.
    pub open spec fn wf(&self) -> bool {
        self.model is Some ==> self.uniform is Some
    }

    /// A new, empty model component.
    pub fn new() -> (r: ModelComponent)
        ensures
            r.wf(),
            r.model is None,
            r.model_path is None,
            r.uniform is None,
    {
        ModelComponent { model: None, model_path: None, uniform: None }
    }

    /// A model component that will load from `path`.
    pub fn with_path(path: &str) -> (r: ModelComponent)
        ensures
            r.wf(),
            r.model is None,
            r.model_path matches Some(p) && p@ == path@,
            r.uniform is None,
    {
        ModelComponent { model: None, model_path: Some(path.to_owned()), uniform: None }
    }

    /// Install a model that the loader built for this component's path,
    /// together with its uniform block. Without a path the component stays
    /// empty, as nothing was asked to load.
    pub fn load_model(&mut self, model: Model, uniform: UniformBlock)
        requires
            old(self).wf(),
        ensures
            final(self).wf(),
            final(self).model_path == old(self).model_path,
            old(self).model_path is Some ==> (final(self).model matches Some(m) && m == model),
            old(self).model_path is Some ==> final(self).uniform == Some(uniform),
            old(self).model_path is None ==> *final(self) == *old(self),
    {
        if self.model_path.is_some() {
            self.model = Some(model);
            self.uniform = Some(uniform);
        }
    }

    /// Refresh the uniform block with the latest view-projection and model
    /// matrices, so the buffer reflects the current camera and transform
    /// state before the object is drawn. Without a block (no model loaded)
    /// nothing changes.
    pub fn update_transform(&mut self, view_proj: Mat4, model_matrix: Mat4)
        ensures
            old(self).uniform is Some ==> *final(self) == (ModelComponent {
                uniform: Some(UniformBlock { view_proj, model: model_matrix }),
                ..*old(self)
            }),
            old(self).uniform is None ==> *final(self) == *old(self),
            final(self).model == old(self).model,
            final(self).model_path == old(self).model_path,
    {
        if self.uniform.is_some() {
            self.uniform = Some(UniformBlock { view_proj, model: model_matrix });
        }
    }
}

/// The kinds of component a game object can carry.
#[derive(Clone, Copy, Debug, PartialEq, Eq, Structural)]
pub enum ComponentKind {
    Transform,
    Model,
}

/// A component: one closed set of capabilities, matched exhaustively.
#[derive(Clone, Debug)]
pub enum Component {
    Transform(Transform),
    Model(ModelComponent),
}

impl Component {
    /// The kind tag used for lookup.
    pub open spec fn spec_kind(&self) -> ComponentKind {
        match self {
            Component::Transform(_) => ComponentKind::Transform,
            Component::Model(_) => ComponentKind::Model,
        }
    }

    /// The kind tag used for lookup.
    pub fn kind(&self) -> (r: ComponentKind)
        ensures
            r == self.spec_kind(),
    {
        match self {
            Component::Transform(_) => ComponentKind::Transform,
            Component::Model(_) => ComponentKind::Model,
        }
    }

    /// Advance the component by `dt` fixed-point seconds. Every current
    /// component kind reacts to other events instead, so the component is
    /// unchanged.
    pub fn update(&mut self, dt: i64)
        ensures
            *final(self) == *old(self),
    {
        match self {
            Component::Transform(_) => {},
            Component::Model(_) => {},
        }
    }
}

/// The index of the first component of the requested kind, if any.
pub open spec fn spec_find_component(s: Seq<Component>, kind: ComponentKind) -> Option<int>
    decreases s.len(),
{
    if s.len() == 0 {
        None
    } else if s.first().spec_kind() == kind {
        Some(0)
    } else {
        match spec_find_component(s.drop_first(), kind) {
            Some(i) => Some(i + 1),
            None => None,
        }
    }
}

/// What the first matching index satisfies: it holds the kind, and nothing
/// before it does.
pub proof fn lemma_find_component_first(s: Seq<Component>, kind: ComponentKind)
    ensures
        match spec_find_component(s, kind) {
            Some(i) => 0 <= i < s.len() && s[i].spec_kind() == kind && forall|j: int|
                0 <= j < i ==> (#[trigger] s[j]).spec_kind() != kind,
            None => forall|j: int| 0 <= j < s.len() ==> (#[trigger] s[j]).spec_kind() != kind,
        },
    decreases s.len(),
{
    if s.len() == 0 {
    } else if s.first().spec_kind() == kind {
    } else {
        lemma_find_component_first(s.drop_first(), kind);
        assert forall|j: int| 1 <= j < s.len() implies s.drop_first()[j - 1] == s[j] by {}
    }
}

/// Two scene trees hold the same state: equal names, transforms,
/// activity flags and component lists, and pairwise-same children. This is
/// structural equality read through the views of the owned containers.
pub open spec fn go_same(a: GameObject, b: GameObject) -> bool
    decreases a,
{
    a.name == b.name && a.transform == b.transform && a.active == b.active
        && a.components@ == b.components@ && a.children@.len() == b.children@.len()
        && (forall|k: int|
        0 <= k < a.children@.len() ==> go_same(
            #[trigger] a.children@[k],
            b.children@[k],
        ))
}

/// Every tree is the same as itself.
pub proof fn lemma_go_same_reflexive(a: GameObject)
    ensures
        go_same(a, a),
    decreases a,
{
    assert forall|k: int| 0 <= k < a.children@.len() implies go_same(
        #[trigger] a.children@[k],
        a.children@[k],
    ) by {
        lemma_go_same_reflexive(a.children@[k]);
    }
}

/// A game object: a named node of the scene tree.
pub struct GameObject {
    pub name: String,
    pub components: Vec<Component>,
    pub transform: Transform,
    pub active: bool,
    pub children: Vec<GameObject>,
}

impl GameObject {
    /// A new, active, childless object with an identity transform.
    pub fn new(name: &str) -> (r: GameObject)
        ensures
            r.name@ == name@,
            r.components@.len() == 0,
            r.transform.wf(),
            r.active,
            r.children@.len() == 0,
    {
        GameObject {
            name: name.to_owned(),
            components: Vec::new(),
            transform: Transform::new(),
            active: true,
            children: Vec::new(),
        }
    }

    /// Append a component to the object's list.
    pub fn add_component(&mut self, component: Component)
        ensures
            final(self).components@ == old(self).components@.push(component),
            final(self).name == old(self).name,
            final(self).transform == old(self).transform,
            final(self).active == old(self).active,
            final(self).children@ == old(self).children@,
    {
        self.components.push(component);
    }

    /// Append a child object.
    pub fn add_child(&mut self, child: GameObject)
        ensures
            final(self).children@ == old(self).children@.push(child),
            final(self).components@ == old(self).components@,
            final(self).name == old(self).name,
            final(self).transform == old(self).transform,
            final(self).active == old(self).active,
    {
        self.children.push(child);
    }

    /// The first component of the requested kind, found by a linear scan;
    /// absence is a valid outcome, not an error.
    pub fn get_component(&self, kind: ComponentKind) -> (r: Option<&Component>)
        ensures
            match spec_find_component(self.components@, kind) {
                Some(i) => r matches Some(c) && *c == self.components@[i],
                None => r is None,
            },
    {
        proof {
            lemma_find_component_first(self.components@, kind);
        }
        let n = self.components.len();
        for i in 0..n
            invariant
                n == self.components@.len(),
                forall|j: int| 0 <= j < i ==> (#[trigger] self.components@[j]).spec_kind() != kind,
        {
            if self.components[i].kind() == kind {
                proof {
                    lemma_find_component_prefix(self.components@, kind, i as int);
                }
                return Some(&self.components[i]);
            }
        }
        None
    }

    /// Build a game object that renders a loaded model: a fresh object at
    /// `position` carrying one model component for `model_path`, with the
    /// model the loader assembled for that path and its per-object uniform
    /// block installed. When loading failed the caller has no model to
    /// pass, and no object is constructed.
    pub fn with_model(
        name: &str,
        model_path: &str,
        position: Vec3,
        model: Model,
        uniform: UniformBlock,
    ) -> (r: GameObject)
        requires
            vec3_bounded(position, POS_MAX as int),
        ensures
            r.name@ == name@,
            r.transform.wf(),
            r.transform.position == position,
            r.active,
            r.children@.len() == 0,
            r.components@.len() == 1,
            r.components@[0] matches Component::Model(mc) && mc.model == Some(model)
                && (mc.model_path matches Some(p) && p@ == model_path@) && mc.uniform == Some(
                uniform,
            ),
    {
        let mut game_object = GameObject::new(name);
        game_object.transform = Transform::with_position(position);
        let mut model_component = ModelComponent::with_path(model_path);
        model_component.load_model(model, uniform);
        game_object.add_component(Component::Model(model_component));
        game_object
    }

    /// Advance the object and its subtree by `dt` fixed-point seconds.
    /// An inactive object is left entirely untouched — the walk neither
    /// updates its components nor descends into its children. An active
    /// object updates each component in insertion order, then each child
    /// in insertion order; since every current component kind leaves its
    /// state unchanged on update, the whole tree reads back unchanged.
    pub fn update(&mut self, dt: i64)
        ensures
            go_same(*old(self), *final(self)),
            !old(self).active ==> *final(self) == *old(self),
        decreases *old(self),
    {
        if !self.active {
            proof {
                lemma_go_same_reflexive(*self);
            }
            return ;
        }
        let ncomp = self.components.len();
        let mut i: usize = 0;
        while i < ncomp
            invariant
                self.components@ == old(self).components@,
                self.name == old(self).name,
                self.transform == old(self).transform,
                self.active == old(self).active,
                self.children@ == old(self).children@,
                ncomp == self.components@.len(),
                i <= ncomp,
            decreases ncomp - i,
        {
            let mut c = self.components.remove(i);
            c.update(dt);
            self.components.insert(i, c);
            proof {
                assert(self.components@ =~= old(self).components@);
            }
            i = i + 1;
        }
        let nchild = self.children.len();
        let mut j: usize = 0;
        while j < nchild
            invariant
                self.components@ == old(self).components@,
                self.name == old(self).name,
                self.transform == old(self).transform,
                self.active == old(self).active,
                nchild == self.children@.len(),
                self.children@.len() == old(self).children@.len(),
                j <= nchild,
                forall|k: int| j <= k < nchild ==> self.children@[k] == old(self).children@[k],
                forall|k: int|
                    0 <= k < j ==> go_same(old(self).children@[k], #[trigger] self.children@[k]),
            decreases nchild - j,
        {
            let mut child = self.children.remove(j);
            proof {
                assert(child == old(self).children@[j as int]);
                assert(decreases_to!(*old(self) => old(self).children));
                assert(decreases_to!(old(self).children => old(self).children@));
                assert(decreases_to!(old(self).children@ => old(self).children@[j as int]));
                assert(decreases_to!(*old(self) => child));
            }
            child.update(dt);
            self.children.insert(j, child);
            j = j + 1;
        }
    }
}

/// If no index before `i` matches and `s[i]` matches, then `i` is the
/// first matching index.
proof fn lemma_find_component_prefix(s: Seq<Component>, kind: ComponentKind, i: int)
    requires
        0 <= i < s.len(),
        s[i].spec_kind() == kind,
        forall|j: int| 0 <= j < i ==> (#[trigger] s[j]).spec_kind() != kind,
    ensures
        spec_find_component(s, kind) == Some(i),
    decreases s.len(),
{
    if i == 0 {
    } else {
        assert forall|j: int| 0 <= j < i - 1 implies (#[trigger] s.drop_first()[j]).spec_kind()
            != kind by {
            assert(s.drop_first()[j] == s[j + 1]);
        }
        assert(s.drop_first()[i - 1] == s[i]);
        lemma_find_component_prefix(s.drop_first(), kind, i - 1);
    }
}

} // verus!
