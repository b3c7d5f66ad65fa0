//! The scene: a keyed collection of drawables and the camera that views
//! them, with the per-frame render pass.
//!
//! Identifiers come from freshly generated version-4 UUIDs, carried as
//! their 128-bit values. Insertion checks the draw against every live
//! identifier, so a returned identifier is never one that is still in use,
//! whatever the generator produced. Drawables are kept in insertion order
//! and the render pass walks them in that order.

use vstd::prelude::*;

use crate::camera::FirstPerson;
use crate::commands::PolygonModeKind;
use crate::commands::RenderCommand;
use crate::light::spec_light_commands;
use crate::light::Light;
use crate::mesh::spec_model_commands;
use crate::mesh::Model;
use crate::polygon::spec_polygon_commands;
use crate::polygon::Polygon;
use crate::scalar::Mat4;
use crate::scalar::Scalar;
use crate::scalar::Vec3;
use crate::scalar::Vec4;

verus! {

/// The kinds of object a scene can hold.
#[allow(non_camel_case_types)]
#[derive(Clone, Copy, PartialEq, Eq, Structural, Debug)]
pub enum ObjectTypes {
    POLYGON,
    LIGHT,
    MODEL,
}

/// A drawable: anything that can stand in the scene. The capability set —
/// place, scale, tint, classify, render — is dispatched over this sealed
/// set of variants.
#[derive(Clone, PartialEq, Debug)]
pub enum SceneObject {
    Polygon(Polygon),
    Light(Light),
    Model(Model),
}

/// The kind of a drawable.
pub open spec fn spec_object_type(obj: SceneObject) -> ObjectTypes {
    match obj {
        SceneObject::Polygon(_) => ObjectTypes::POLYGON,
        SceneObject::Light(_) => ObjectTypes::LIGHT,
        SceneObject::Model(_) => ObjectTypes::MODEL,
    }
}

/// The render commands of a drawable.
pub open spec fn spec_object_commands(obj: SceneObject, proj: Mat4, view_matrix: Mat4) -> Seq<
    RenderCommand,
> {
    match obj {
        SceneObject::Polygon(p) => spec_polygon_commands(p, proj, view_matrix),
        SceneObject::Light(l) => spec_light_commands(l, proj, view_matrix),
        SceneObject::Model(m) => spec_model_commands(m, proj, view_matrix),
    }
}

/// The same drawable moved to the given position.
pub open spec fn spec_object_with_position(
    obj: SceneObject,
    x: Scalar,
    y: Scalar,
    z: Scalar,
) -> SceneObject {
    let p = crate::transform::Position { x, y, z };
    match obj {
        SceneObject::Polygon(g) => SceneObject::Polygon(
            Polygon {
                transform: crate::transform::Transform { position: p, ..g.transform },
                ..g
            },
        ),
        SceneObject::Light(l) => SceneObject::Light(
            Light { transform: crate::transform::Transform { position: p, ..l.transform }, ..l },
        ),
        SceneObject::Model(m) => SceneObject::Model(
            Model { transform: crate::transform::Transform { position: p, ..m.transform }, ..m },
        ),
    }
}

/// The same drawable rescaled; imported models ignore scaling by design.
pub open spec fn spec_object_with_scale(obj: SceneObject, scale: Scalar) -> SceneObject {
    let s = crate::transform::Scale { scale };
    match obj {
        SceneObject::Polygon(g) => SceneObject::Polygon(
            Polygon { transform: crate::transform::Transform { scale: s, ..g.transform }, ..g },
        ),
        SceneObject::Light(l) => SceneObject::Light(
            Light { transform: crate::transform::Transform { scale: s, ..l.transform }, ..l },
        ),
        SceneObject::Model(m) => SceneObject::Model(m),
    }
}

impl SceneObject {
    /// Moves the drawable.
    pub fn set_position(&mut self, x: Scalar, y: Scalar, z: Scalar)
        ensures
            *final(self) == spec_object_with_position(*old(self), x, y, z),
    {
        match self {
            SceneObject::Polygon(g) => g.set_position(x, y, z),
            SceneObject::Light(l) => l.set_position(x, y, z),
            SceneObject::Model(m) => m.set_position(x, y, z),
        }
    }

    /// Rescales the drawable; a no-op for imported models, by design.
    pub fn set_scale(&mut self, scale: Scalar)
        ensures
            *final(self) == spec_object_with_scale(*old(self), scale),
    {
        match self {
            SceneObject::Polygon(g) => g.set_scale(scale),
            SceneObject::Light(l) => l.set_scale(scale),
            SceneObject::Model(m) => m.set_scale(scale),
        }
    }

    /// The commands that tint the drawable: bind its shader and set the
    /// named colour uniform with full alpha. Imported models produce no
    /// commands, by design.
    pub fn set_color(&self, var_name: &str, rgb: Vec3) -> (r: Vec<RenderCommand>)
        ensures
            self matches SceneObject::Model(_) ==> r@ == Seq::<RenderCommand>::empty(),
            self matches SceneObject::Polygon(p) ==> {
                &&& r@.len() == 2
                &&& r@[0] == (RenderCommand::UseProgram { program: p.shader.id })
                &&& (r@[1] matches RenderCommand::SetVec4 { program, name, value } && program
                    == p.shader.id && name@ == var_name@ && value == (Vec4 {
                    x: rgb.x,
                    y: rgb.y,
                    z: rgb.z,
                    w: Scalar { bits: crate::scalar::BITS_ONE },
                }))
            },
            self matches SceneObject::Light(l) ==> {
                &&& r@.len() == 2
                &&& r@[0] == (RenderCommand::UseProgram { program: l.shader.id })
                &&& (r@[1] matches RenderCommand::SetVec4 { program, name, value } && program
                    == l.shader.id && name@ == var_name@ && value == (Vec4 {
                    x: rgb.x,
                    y: rgb.y,
                    z: rgb.z,
                    w: Scalar { bits: crate::scalar::BITS_ONE },
                }))
            },
    {
        match self {
            SceneObject::Polygon(g) => g.set_color(var_name, rgb),
            SceneObject::Light(l) => l.set_color(var_name, rgb),
            SceneObject::Model(m) => m.set_color(var_name, rgb),
        }
    }

    /// The kind of the drawable.
    pub fn get_type(&self) -> (r: ObjectTypes)
        ensures
            r == spec_object_type(*self),
    {
        match self {
            SceneObject::Polygon(g) => g.get_type(),
            SceneObject::Light(l) => l.get_type(),
            SceneObject::Model(m) => m.get_type(),
        }
    }

    /// The render commands of the drawable.
    pub fn render(&self, proj: Mat4, view_matrix: Mat4) -> (r: Vec<RenderCommand>)
        ensures
            r@ == spec_object_commands(*self, proj, view_matrix),
    {
        match self {
            SceneObject::Polygon(g) => g.render(proj, view_matrix),
            SceneObject::Light(l) => l.render(proj, view_matrix),
            SceneObject::Model(m) => m.render(proj, view_matrix),
        }
    }
}

/// Whether some live entry carries the given identifier.
pub open spec fn spec_contains_id(s: Seq<(u128, SceneObject)>, key: u128) -> bool {
    exists|i: int| 0 <= i < s.len() && s[i].0 == key
}

/// The position of the entry that carries the given identifier. Meaningful
/// only when some entry does; with unique identifiers it is that entry's
/// position.
pub open spec fn spec_index_of_key(s: Seq<(u128, SceneObject)>, key: u128) -> int {
    choose|i: int| 0 <= i < s.len() && s[i].0 == key
}

/// The drawable stored under an identifier, if any; later entries shadow
/// earlier ones, which cannot happen while identifiers are unique.
pub open spec fn spec_lookup(s: Seq<(u128, SceneObject)>, key: u128) -> Option<SceneObject>
    decreases s.len(),
{
    if s.len() == 0 {
        Option::None
    } else if s.last().0 == key {
        Option::Some(s.last().1)
    } else {
        spec_lookup(s.drop_last(), key)
    }
}

/// Whether every entry carries a distinct identifier.
pub open spec fn spec_unique_ids(s: Seq<(u128, SceneObject)>) -> bool {
    forall|i: int, j: int| 0 <= i < j < s.len() ==> s[i].0 != s[j].0
}

/// Inserting under a fresh identifier makes that identifier resolve to the
/// inserted drawable.
pub proof fn lemma_add_then_lookup(s: Seq<(u128, SceneObject)>, key: u128, element: SceneObject)
    ensures
        spec_lookup(s.push((key, element)), key) == Option::Some(element),
{
    assert(s.push((key, element)).last() == (key, element));
}

/// Inserting under a fresh identifier leaves every other identifier
/// resolving exactly as before.
pub proof fn lemma_add_preserves_lookup(
    s: Seq<(u128, SceneObject)>,
    key: u128,
    element: SceneObject,
    other: u128,
)
    requires
        other != key,
    ensures
        spec_lookup(s.push((key, element)), other) == spec_lookup(s, other),
{
    assert(s.push((key, element)).drop_last() =~= s);
}

/// An identifier that is stored resolves to some drawable, and one that is
/// not stored resolves to nothing.
pub proof fn lemma_lookup_contains(s: Seq<(u128, SceneObject)>, key: u128)
    ensures
        spec_contains_id(s, key) <==> spec_lookup(s, key) is Some,
    decreases s.len(),
{
    if s.len() > 0 {
        lemma_lookup_contains(s.drop_last(), key);
        if s.last().0 == key {
        } else {
            assert forall|i: int| 0 <= i < s.len() && s[i].0 == key implies spec_contains_id(
                s.drop_last(),
                key,
            ) by {
                assert(s.drop_last()[i] == s[i]);
            }
        }
    }
}

/// The set of all live identifiers.
pub open spec fn spec_id_set(s: Seq<(u128, SceneObject)>) -> Set<u128> {
    Set::new(|k: u128| spec_contains_id(s, k))
}

/// A scene of `n` entries holds at most `n` distinct identifiers.
proof fn lemma_id_set_len(s: Seq<(u128, SceneObject)>)
    ensures
        spec_id_set(s).finite(),
        spec_id_set(s).len() <= s.len(),
    decreases s.len(),
{
    let ks = spec_id_set(s);
    if s.len() == 0 {
        assert(ks =~= Set::<u128>::empty());
    } else {
        let s0 = s.drop_last();
        lemma_id_set_len(s0);
        let ks0 = spec_id_set(s0);
        assert forall|k: u128| ks.contains(k) implies ks0.insert(s.last().0).contains(k) by {
            let i = choose|i: int| 0 <= i < s.len() && s[i].0 == k;
            if i < s.len() - 1 {
                assert(s0[i] == s[i]);
                assert(spec_contains_id(s0, k));
            }
        }
        assert forall|k: u128| ks0.insert(s.last().0).contains(k) implies ks.contains(k) by {
            if ks0.contains(k) {
                let i = choose|i: int| 0 <= i < s0.len() && s0[i].0 == k;
                assert(s[i] == s0[i]);
                assert(spec_contains_id(s, k));
            } else {
                assert(s[s.len() - 1].0 == k);
            }
        }
        assert(ks =~= ks0.insert(s.last().0));
    }
}

/// The identifiers below a bound form a set of exactly that many values.
proof fn lemma_range_len(b: u128)
    ensures
        Set::new(|c: u128| c < b).finite(),
        Set::new(|c: u128| c < b).len() == b,
    decreases b as int,
{
    if b == 0 {
        assert(Set::new(|c: u128| c < 0u128) =~= Set::<u128>::empty());
    } else {
        lemma_range_len((b - 1) as u128);
        assert(Set::new(|c: u128| c < b) =~= Set::new(|c: u128| c < (b - 1) as u128).insert(
            (b - 1) as u128,
        ));
    }
}

/// Among the identifiers up to the number of entries, one is always free:
/// there are more of those identifiers than entries.
proof fn lemma_fresh_key_exists(s: Seq<(u128, SceneObject)>)
    requires
        s.len() < u128::MAX,
    ensures
        exists|c: u128| c <= s.len() && !spec_contains_id(s, c),
{
    if !(exists|c: u128| c <= s.len() && !spec_contains_id(s, c)) {
        let bound = (s.len() + 1) as u128;
        let candidates = Set::new(|c: u128| c < bound);
        lemma_range_len(bound);
        lemma_id_set_len(s);
        assert forall|c: u128| candidates.contains(c) implies spec_id_set(s).contains(c) by {
            assert(c <= s.len());
        }
        assert(candidates.subset_of(spec_id_set(s)));
        vstd::set_lib::lemma_len_subset(candidates, spec_id_set(s));
        assert(false);
    }
}

/// The render commands of a list of scene entries, in order.
pub open spec fn spec_entries_commands(
    s: Seq<(u128, SceneObject)>,
    proj: Mat4,
    view_matrix: Mat4,
) -> Seq<RenderCommand>
    decreases s.len(),
{
    if s.len() == 0 {
        Seq::empty()
    } else {
        spec_entries_commands(s.drop_last(), proj, view_matrix)
            + spec_object_commands(s.last().1, proj, view_matrix)
    }
}

/// A frame drawn after an insertion is the frame drawn before it followed
/// by the commands of the inserted drawable: insertion order is draw
/// order.
pub proof fn lemma_render_after_add(
    s: Seq<(u128, SceneObject)>,
    key: u128,
    element: SceneObject,
    proj: Mat4,
    view_matrix: Mat4,
)
    ensures
        spec_entries_commands(s.push((key, element)), proj, view_matrix) == spec_entries_commands(
            s,
            proj,
            view_matrix,
        ) + spec_object_commands(element, proj, view_matrix),
{
    assert(s.push((key, element)).drop_last() =~= s);
    assert(s.push((key, element)).last() == (key, element));
}

/// One frame: clear the colour and depth buffers to the given colour, then
/// run the commands in order.
#[derive(Clone, PartialEq, Debug)]
pub struct FramePlan {
    pub clear_color: Vec4,
    pub clear_depth: bool,
    pub commands: Vec<RenderCommand>,
}

/// The scene.
pub struct Scene {
    /// The drawables, each under the identifier issued for it, in
    /// insertion order.
    pub objects: Vec<(u128, SceneObject)>,
    pub camera: FirstPerson,
}

/// Relies on `uuid::Uuid::new_v4`, which draws a random version-4
/// identifier, returned here as its 128-bit value. The value is random, so
/// nothing is promised of it; the scene itself checks it against the live
/// identifiers.
#[verifier::external_body]
fn fresh_key() -> u128 {
    uuid::Uuid::new_v4().as_u128()
}

impl Scene {
    /// The scene's invariant: all identifiers are distinct.
    pub open spec fn wf(&self) -> bool {
        spec_unique_ids(self.objects@)
    }

    /// An empty scene viewed by a fresh camera with the given window
    /// dimensions and perspective parameters.
    pub fn new(width: Scalar, height: Scalar, fov: Scalar, near: Scalar, far: Scalar) -> (r:
        Scene)
        ensures
            r.objects@ == Seq::<(u128, SceneObject)>::empty(),
            r.camera == crate::camera::spec_camera_new((width, height), fov, near, far),
            r.wf(),
    {
        let camera = FirstPerson::new((width, height), fov, near, far);
        Scene { objects: Vec::new(), camera }
    }

    /// Whether an identifier is live.
    pub fn has_object(&self, key: u128) -> (r: bool)
        ensures
            r == spec_contains_id(self.objects@, key),
    {
        let mut i: usize = 0;
        while i < self.objects.len()
            invariant
                i <= self.objects@.len(),
                forall|j: int| 0 <= j < i ==> self.objects@[j].0 != key,
            decreases self.objects@.len() - i,
        {
            if self.objects[i].0 == key {
                return true;
            }
            i = i + 1;
        }
        false
    }

    /// Takes ownership of a drawable and stores it under a fresh
    /// identifier, which is returned. The identifier is distinct from
    /// every identifier already live in the scene.
    pub fn add(&mut self, element: SceneObject) -> (r: u128)
        requires
            old(self).wf(),
        ensures
            !spec_contains_id(old(self).objects@, r),
            final(self).objects@ == old(self).objects@.push((r, element)),
            final(self).camera == old(self).camera,
            final(self).wf(),
    {
        let ghost s = old(self).objects@;
        let n = self.objects.len();
        let mut key = fresh_key();
        if self.has_object(key) {
            // The generator very rarely repeats a live identifier; when it
            // does, fall back to the smallest free small identifier, which
            // exists because there are more candidates than entries.
            proof {
                lemma_fresh_key_exists(s);
            }
            let mut c: u128 = 0;
            let mut c_taken = self.has_object(c);
            while c_taken
                invariant
                    self.objects@ == s,
                    self.camera == old(self).camera,
                    n == s.len(),
                    n < u128::MAX,
                    c <= n as u128,
                    forall|d: u128| d < c ==> spec_contains_id(s, d),
                    c_taken == spec_contains_id(s, c),
                    exists|d: u128| d <= s.len() && !spec_contains_id(s, d),
                decreases n as int - c as int,
            {
                proof {
                    if c == n as u128 {
                        let d = choose|d: u128| d <= s.len() && !spec_contains_id(s, d);
                        assert(d < c || d == c);
                        assert(false);
                    }
                }
                c = c + 1;
                c_taken = self.has_object(c);
            }
            key = c;
        }
        self.objects.push((key, element));
        proof {
            let s = old(self).objects@;
            let t = self.objects@;
            assert forall|i: int, j: int| 0 <= i < j < t.len() implies t[i].0 != t[j].0 by {
                if j < s.len() {
                } else {
                    assert(t[j] == (key, element));
                    assert(!spec_contains_id(s, key));
                    assert(t[i] == s[i]);
                }
            }
        }
        key
    }

    /// The drawable stored under an identifier, for mutation in place;
    /// nothing if the identifier is unknown, which the caller decides how
    /// to treat.
    pub fn get_object(&mut self, key: u128) -> (r: Option<&mut SceneObject>)
        requires
            old(self).wf(),
        ensures
            r is Some <==> spec_contains_id(old(self).objects@, key),
            r matches Some(obj) ==> ({
                let at = spec_index_of_key(old(self).objects@, key);
                &&& 0 <= at < old(self).objects@.len()
                &&& old(self).objects@[at].0 == key
                &&& *obj == old(self).objects@[at].1
                &&& final(self).objects@ == old(self).objects@.update(at, (key, *final(obj)))
                &&& final(self).camera == old(self).camera
            }),
            r is None ==> *final(self) == *old(self),
            final(self).wf(),
    {
        let n = self.objects.len();
        let mut i: usize = 0;
        while i < n
            invariant
                n == self.objects@.len(),
                i <= n,
                self.objects == old(self).objects,
                self.camera == old(self).camera,
                spec_unique_ids(self.objects@),
                forall|j: int| 0 <= j < i ==> self.objects@[j].0 != key,
            decreases n - i,
        {
            if self.objects[i].0 == key {
                proof {
                    let s = self.objects@;
                    assert(spec_contains_id(s, key));
                    let at = spec_index_of_key(s, key);
                    assert(0 <= at < s.len() && s[at].0 == key);
                    assert(at == i as int);
                }
                let r = &mut self.objects[i].1;
                return Option::Some(r);
            }
            i = i + 1;
        }
        Option::None
    }

    /// The frame plan of the current scene: clear to black, then every
    /// drawable's render commands in insertion order, all against the
    /// given projection and view matrices.
    pub fn render(&self, proj: Mat4, view_matrix: Mat4) -> (r: FramePlan)
        ensures
            r.clear_color == (Vec4 {
                x: Scalar { bits: 0 },
                y: Scalar { bits: 0 },
                z: Scalar { bits: 0 },
                w: Scalar { bits: 0 },
            }),
            r.clear_depth,
            r.commands@ == spec_entries_commands(self.objects@, proj, view_matrix),
    {
        let mut commands: Vec<RenderCommand> = Vec::new();
        let mut i: usize = 0;
        while i < self.objects.len()
            invariant
                i <= self.objects@.len(),
                commands@ == spec_entries_commands(
                    self.objects@.take(i as int),
                    proj,
                    view_matrix,
                ),
            decreases self.objects@.len() - i,
        {
            let mut cmds = self.objects[i].1.render(proj, view_matrix);
            commands.append(&mut cmds);
            proof {
                let taken = self.objects@.take(i + 1);
                assert(taken.drop_last() =~= self.objects@.take(i as int));
                assert(taken.last() == self.objects@[i as int]);
            }
            i = i + 1;
        }
        proof {
            assert(self.objects@.take(self.objects@.len() as int) =~= self.objects@);
        }
        FramePlan {
            clear_color: Vec4 {
                x: Scalar::zero(),
                y: Scalar::zero(),
                z: Scalar::zero(),
                w: Scalar::zero(),
            },
            clear_depth: true,
            commands,
        }
    }

    /// Rasterise filled polygons.
    pub fn set_fill_mode(&self) -> (r: PolygonModeKind)
        ensures
            r == PolygonModeKind::Fill,
    {
        PolygonModeKind::Fill
    }

    /// Rasterise polygon outlines: wireframe.
    pub fn set_line_mode(&self) -> (r: PolygonModeKind)
        ensures
            r == PolygonModeKind::Line,
    {
        PolygonModeKind::Line
    }

    /// Rasterise polygon vertices as points.
    pub fn set_point_mode(&self) -> (r: PolygonModeKind)
        ensures
            r == PolygonModeKind::Point,
    {
        PolygonModeKind::Point
    }
}

/// While identifiers are unique, the entry that carries an identifier is
/// what looking that identifier up yields: the position-wise reading of
/// `get_object` and the recursive reading of `spec_lookup` agree.
pub proof fn lemma_lookup_at(s: Seq<(u128, SceneObject)>, key: u128, at: int)
    requires
        0 <= at < s.len(),
        s[at].0 == key,
        spec_unique_ids(s),
    ensures
        spec_lookup(s, key) == Option::Some(s[at].1),
    decreases s.len(),
{
    if s.len() > 0 {
        if s.last().0 == key {
            assert(at == s.len() - 1);
        } else {
            assert(at < s.len() - 1);
            assert(s.drop_last()[at] == s[at]);
            lemma_lookup_at(s.drop_last(), key, at);
        }
    }
}

} // verus!
