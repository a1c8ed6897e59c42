//! Per-frame pass orchestration.
//!
//! A frame is strictly sequential: six shadow-face iterations, then the
//! main pass (light marker, then the models), then present.  This module
//! turns the scene and the caller-computed per-face matrices into a
//! [`FramePlan`] — the complete, ordered description of the frame's
//! writes and draws, with every uniform payload spelled out in bytes —
//! and proves the sequence sound: the flattened command list puts every
//! shadow command before every main-pass command, and all six faces are
//! begun, in face order, inside the shadow prefix.

use vstd::prelude::*;
use crate::bytes::words_le_bytes;
use crate::camera::CameraRaw;
use crate::instance::Instance;
use crate::light::Light;
use crate::model::Model;
use crate::shadow::SHADOW_FACE_COUNT;

verus! {

/// A scene entry: a model and the transforms of its instances.
pub struct SceneEntry {
    pub model: Model,
    pub instances: Vec<Instance>,
}

impl SceneEntry {
    pub open spec fn wf(self) -> bool {
        &&& self.model.wf()
        &&& forall|i: int| 0 <= i < self.instances@.len() ==> (#[trigger] self.instances@[i]).wf()
    }
}

/// The drawable scene: read-only during a frame.
pub struct Scene {
    pub entries: Vec<SceneEntry>,
}

impl Scene {
    pub open spec fn wf(self) -> bool {
        forall|e: int| 0 <= e < self.entries@.len() ==> (#[trigger] self.entries@[e]).wf()
    }
}

/// One indexed, instanced draw of the shadow pass: which entry's buffers
/// to bind and how much to draw.
#[derive(Clone, Copy, PartialEq, Eq, Structural, Debug)]
pub struct ShadowDraw {
    pub entry: usize,
    pub mesh: usize,
    pub index_count: usize,
    pub instance_count: usize,
}

/// One indexed, instanced draw of the main pass, with the material whose
/// texture is bound at slot 1 and whose parameter block overwrites the
/// shared material binding at slot 2.
#[derive(Clone, Copy, PartialEq, Eq, Structural, Debug)]
pub struct MainDraw {
    pub entry: usize,
    pub mesh: usize,
    pub index_count: usize,
    pub instance_count: usize,
    pub material_id: usize,
}

/// The shadow draws of one scene entry: one per mesh, in mesh order.
pub open spec fn spec_entry_shadow_draws(e: SceneEntry, idx: int) -> Seq<ShadowDraw> {
    Seq::new(
        e.model.meshes@.len(),
        |m: int|
            ShadowDraw {
                entry: idx as usize,
                mesh: m as usize,
                index_count: e.model.meshes@[m].len_indicies,
                instance_count: e.instances@.len() as usize,
            },
    )
}

/// The shadow draws of the first `n` scene entries, in entry order.
pub open spec fn spec_shadow_draws_upto(s: Scene, n: int) -> Seq<ShadowDraw>
    decreases n,
{
    if n <= 0 {
        Seq::empty()
    } else {
        spec_shadow_draws_upto(s, n - 1) + spec_entry_shadow_draws(s.entries@[n - 1], n - 1)
    }
}

/// All shadow draws of a frame: every mesh of every entry, in order.
pub open spec fn spec_shadow_draws(s: Scene) -> Seq<ShadowDraw> {
    spec_shadow_draws_upto(s, s.entries@.len() as int)
}

/// The main-pass draws of one scene entry: one per mesh, each with the
/// mesh's material.
pub open spec fn spec_entry_main_draws(e: SceneEntry, idx: int) -> Seq<MainDraw> {
    Seq::new(
        e.model.meshes@.len(),
        |m: int|
            MainDraw {
                entry: idx as usize,
                mesh: m as usize,
                index_count: e.model.meshes@[m].len_indicies,
                instance_count: e.instances@.len() as usize,
                material_id: e.model.meshes@[m].spec_material_id() as usize,
            },
    )
}

/// The main-pass draws of the first `n` scene entries, in entry order.
pub open spec fn spec_main_draws_upto(s: Scene, n: int) -> Seq<MainDraw>
    decreases n,
{
    if n <= 0 {
        Seq::empty()
    } else {
        spec_main_draws_upto(s, n - 1) + spec_entry_main_draws(s.entries@[n - 1], n - 1)
    }
}

/// All main-pass draws of a frame.
pub open spec fn spec_main_draws(s: Scene) -> Seq<MainDraw> {
    spec_main_draws_upto(s, s.entries@.len() as int)
}

/// Computes the shadow draw list of the scene.
pub fn shadow_draws(scene: &Scene) -> (r: Vec<ShadowDraw>)
    ensures
        r@ == spec_shadow_draws(*scene),
{
    let mut out: Vec<ShadowDraw> = Vec::new();
    let mut e: usize = 0;
    while e < scene.entries.len()
        invariant
            e <= scene.entries@.len(),
            out@ == spec_shadow_draws_upto(*scene, e as int),
        decreases scene.entries@.len() - e,
    {
        let entry = &scene.entries[e];
        let instance_count = entry.instances.len();
        let mut m: usize = 0;
        while m < entry.model.meshes.len()
            invariant
                m <= entry.model.meshes@.len(),
                e < scene.entries@.len(),
                *entry == scene.entries@[e as int],
                instance_count == entry.instances@.len(),
                out@ == spec_shadow_draws_upto(*scene, e as int) + spec_entry_shadow_draws(
                    scene.entries@[e as int],
                    e as int,
                ).take(m as int),
            decreases entry.model.meshes@.len() - m,
        {
            out.push(ShadowDraw {
                entry: e,
                mesh: m,
                index_count: entry.model.meshes[m].len_indicies,
                instance_count,
            });
            proof {
                let seg = spec_entry_shadow_draws(scene.entries@[e as int], e as int);
                assert(seg.take(m + 1 as int) =~= seg.take(m as int).push(seg[m as int]));
                assert(out@ =~= spec_shadow_draws_upto(*scene, e as int) + seg.take(m + 1 as int));
            }
            m = m + 1;
        }
        proof {
            let seg = spec_entry_shadow_draws(scene.entries@[e as int], e as int);
            assert(seg.take(seg.len() as int) =~= seg);
        }
        e = e + 1;
    }
    out
}

/// Computes the main-pass draw list of the scene.
pub fn main_draws(scene: &Scene) -> (r: Vec<MainDraw>)
    ensures
        r@ == spec_main_draws(*scene),
{
    let mut out: Vec<MainDraw> = Vec::new();
    let mut e: usize = 0;
    while e < scene.entries.len()
        invariant
            e <= scene.entries@.len(),
            out@ == spec_main_draws_upto(*scene, e as int),
        decreases scene.entries@.len() - e,
    {
        let entry = &scene.entries[e];
        let instance_count = entry.instances.len();
        let mut m: usize = 0;
        while m < entry.model.meshes.len()
            invariant
                m <= entry.model.meshes@.len(),
                e < scene.entries@.len(),
                *entry == scene.entries@[e as int],
                instance_count == entry.instances@.len(),
                out@ == spec_main_draws_upto(*scene, e as int) + spec_entry_main_draws(
                    scene.entries@[e as int],
                    e as int,
                ).take(m as int),
            decreases entry.model.meshes@.len() - m,
        {
            let mesh = &entry.model.meshes[m];
            out.push(MainDraw {
                entry: e,
                mesh: m,
                index_count: mesh.len_indicies,
                instance_count,
                material_id: mesh.effective_material_id(),
            });
            proof {
                let seg = spec_entry_main_draws(scene.entries@[e as int], e as int);
                assert(seg.take(m + 1 as int) =~= seg.take(m as int).push(seg[m as int]));
                assert(out@ =~= spec_main_draws_upto(*scene, e as int) + seg.take(m + 1 as int));
            }
            m = m + 1;
        }
        proof {
            let seg = spec_entry_main_draws(scene.entries@[e as int], e as int);
            assert(seg.take(seg.len() as int) =~= seg);
        }
        e = e + 1;
    }
    out
}

/// Builds one instance buffer per scene entry, in entry order.
pub fn entry_instance_buffers(scene: &Scene) -> (r: Vec<Vec<u8>>)
    requires
        scene.wf(),
    ensures
        r@.len() == scene.entries@.len(),
        forall|e: int|
            0 <= e < r@.len() ==> #[trigger] r@[e]@ == words_le_bytes(
                Instance::spec_instances_words(scene.entries@[e].instances@),
            ),
        forall|e: int|
            0 <= e < r@.len() ==> #[trigger] r@[e]@.len() == 64 * scene.entries@[e].instances@.len(),
{
    let mut out: Vec<Vec<u8>> = Vec::new();
    let mut e: usize = 0;
    while e < scene.entries.len()
        invariant
            e <= scene.entries@.len(),
            scene.wf(),
            out@.len() == e,
            forall|k: int|
                0 <= k < e ==> #[trigger] out@[k]@ == words_le_bytes(
                    Instance::spec_instances_words(scene.entries@[k].instances@),
                ),
            forall|k: int|
                0 <= k < e ==> #[trigger] out@[k]@.len() == 64 * scene.entries@[k].instances@.len(),
        decreases scene.entries@.len() - e,
    {
        let buf = Instance::make_buffer(&scene.entries[e].instances);
        out.push(buf);
        e = e + 1;
    }
    out
}

/// One shadow-face iteration: the light block with this face's
/// view-projection, fresh instance buffers, and the scene's shadow draws.
pub struct ShadowFacePlan {
    pub face: usize,
    /// The 96-byte light block holding this face's view-projection.
    pub light_bytes: Vec<u8>,
    /// One instance buffer per scene entry, rebuilt for this face.
    pub instance_buffers: Vec<Vec<u8>>,
    pub draws: Vec<ShadowDraw>,
}

/// The main pass: the globals update, the light-marker draw, and the
/// model draws.
pub struct MainPassPlan {
    /// The 80-byte camera block written into the globals binding.
    pub camera_bytes: Vec<u8>,
    /// The 96-byte light block written into the globals binding.
    pub light_bytes: Vec<u8>,
    /// Index count of the light-marker cube draw.
    pub marker_index_count: usize,
    /// One instance buffer per scene entry.
    pub instance_buffers: Vec<Vec<u8>>,
    pub draws: Vec<MainDraw>,
}

/// A complete frame: the six shadow-face iterations, then the main pass.
pub struct FramePlan {
    pub shadow_faces: Vec<ShadowFacePlan>,
    pub main: MainPassPlan,
}

impl FramePlan {
    /// Six faces, numbered in pass order.
    pub open spec fn wf(self) -> bool {
        &&& self.shadow_faces@.len() == SHADOW_FACE_COUNT
        &&& forall|f: int|
            0 <= f < self.shadow_faces@.len() ==> (#[trigger] self.shadow_faces@[f]).face == f
    }
}

/// Builds the plan of one frame.
///
/// `face_mats` are the six per-face view-projection matrices, in face
/// order, each sixteen 32-bit words.  The light's transient view-projection
/// field is overwritten once per face, so it leaves holding the last
/// face's matrix — and the main pass's globals update uploads exactly that
/// block, as the camera block and the light block current at that point.
pub fn plan_frame(scene: &Scene, camera_raw: &CameraRaw, light: &mut Light, face_mats: &Vec<
    Vec<u32>,
>) -> (p: FramePlan)
    requires
        scene.wf(),
        camera_raw.wf(),
        old(light).wf(),
        face_mats@.len() == SHADOW_FACE_COUNT,
        forall|f: int| 0 <= f < face_mats@.len() ==> (#[trigger] face_mats@[f])@.len() == 16,
    ensures
        p.wf(),
        forall|f: int|
            0 <= f < SHADOW_FACE_COUNT ==> (#[trigger] p.shadow_faces@[f]).light_bytes@ == old(
                light,
            ).spec_bytes_with_view(face_mats@[f]@),
        forall|f: int|
            0 <= f < SHADOW_FACE_COUNT ==> (#[trigger] p.shadow_faces@[f]).draws@
                == spec_shadow_draws(*scene),
        forall|f: int|
            0 <= f < SHADOW_FACE_COUNT ==> (#[trigger] p.shadow_faces@[f]).instance_buffers@.len()
                == scene.entries@.len(),
        forall|f: int, e: int|
            0 <= f < SHADOW_FACE_COUNT && 0 <= e < scene.entries@.len()
                ==> (#[trigger] p.shadow_faces@[f].instance_buffers@[e])@ == words_le_bytes(
                Instance::spec_instances_words(scene.entries@[e].instances@),
            ),
        forall|f: int, e: int|
            0 <= f < SHADOW_FACE_COUNT && 0 <= e < scene.entries@.len()
                ==> (#[trigger] p.shadow_faces@[f].instance_buffers@[e])@.len() == 64
                * scene.entries@[e].instances@.len(),
        p.main.camera_bytes@ == camera_raw.spec_bytes(),
        p.main.light_bytes@ == old(light).spec_bytes_with_view(face_mats@[5]@),
        p.main.marker_index_count == 36,
        p.main.draws@ == spec_main_draws(*scene),
        p.main.instance_buffers@.len() == scene.entries@.len(),
        forall|e: int|
            0 <= e < scene.entries@.len() ==> (#[trigger] p.main.instance_buffers@[e])@
                == words_le_bytes(Instance::spec_instances_words(scene.entries@[e].instances@)),
        forall|e: int|
            0 <= e < scene.entries@.len() ==> (#[trigger] p.main.instance_buffers@[e])@.len() == 64
                * scene.entries@[e].instances@.len(),
        final(light).view_proj@ == face_mats@[5]@,
        final(light).position == old(light).position,
        final(light).pos_words@ == old(light).pos_words@,
        final(light).color_words@ == old(light).color_words@,
        final(light).wf(),
{
    let mut shadow_faces: Vec<ShadowFacePlan> = Vec::new();
    let mut f: usize = 0;
    while f < SHADOW_FACE_COUNT
        invariant
            f <= SHADOW_FACE_COUNT,
            scene.wf(),
            light.wf(),
            light.position == old(light).position,
            light.pos_words@ == old(light).pos_words@,
            light.color_words@ == old(light).color_words@,
            f > 0 ==> light.view_proj@ == face_mats@[f - 1]@,
            face_mats@.len() == SHADOW_FACE_COUNT,
            forall|k: int| 0 <= k < face_mats@.len() ==> (#[trigger] face_mats@[k])@.len() == 16,
            shadow_faces@.len() == f,
            forall|k: int| 0 <= k < f ==> (#[trigger] shadow_faces@[k]).face == k,
            forall|k: int|
                0 <= k < f ==> (#[trigger] shadow_faces@[k]).light_bytes@ == old(
                    light,
                ).spec_bytes_with_view(face_mats@[k]@),
            forall|k: int|
                0 <= k < f ==> (#[trigger] shadow_faces@[k]).draws@ == spec_shadow_draws(*scene),
            forall|k: int|
                0 <= k < f ==> (#[trigger] shadow_faces@[k]).instance_buffers@.len()
                    == scene.entries@.len(),
            forall|k: int, e: int|
                0 <= k < f && 0 <= e < scene.entries@.len()
                    ==> (#[trigger] shadow_faces@[k].instance_buffers@[e])@ == words_le_bytes(
                    Instance::spec_instances_words(scene.entries@[e].instances@),
                ),
            forall|k: int, e: int|
                0 <= k < f && 0 <= e < scene.entries@.len()
                    ==> (#[trigger] shadow_faces@[k].instance_buffers@[e])@.len() == 64
                    * scene.entries@[e].instances@.len(),
        decreases SHADOW_FACE_COUNT - f,
    {
        let mut m: Vec<u32> = Vec::new();
        crate::light::extend_words(&mut m, &face_mats[f]);
        proof {
            assert(m@ =~= face_mats@[f as int]@);
        }
        light.set_view_proj(m);
        let light_bytes = light.to_bytes();
        let instance_buffers = entry_instance_buffers(scene);
        let draws = shadow_draws(scene);
        shadow_faces.push(ShadowFacePlan { face: f, light_bytes, instance_buffers, draws });
        f = f + 1;
    }
    let camera_bytes = camera_raw.to_bytes();
    let light_bytes = light.to_bytes();
    let instance_buffers = entry_instance_buffers(scene);
    let draws = main_draws(scene);
    let main = MainPassPlan {
        camera_bytes,
        light_bytes,
        marker_index_count: 36,
        instance_buffers,
        draws,
    };
    FramePlan { shadow_faces, main }
}

/// Six distinct face matrices give six distinct shadow iterations: in a
/// plan whose per-face light blocks were built from pairwise distinct
/// view-projection matrices (as [`plan_frame`] builds them), any two
/// faces upload different light blocks.
pub proof fn lemma_plan_shadow_blocks_distinct(
    p: FramePlan,
    l: Light,
    face_mats: Seq<Seq<u32>>,
    i: int,
    j: int,
)
    requires
        p.wf(),
        l.wf(),
        face_mats.len() == SHADOW_FACE_COUNT,
        forall|f: int| 0 <= f < face_mats.len() ==> (#[trigger] face_mats[f]).len() == 16,
        forall|f: int|
            0 <= f < SHADOW_FACE_COUNT ==> (#[trigger] p.shadow_faces@[f]).light_bytes@
                == l.spec_bytes_with_view(face_mats[f]),
        0 <= i < SHADOW_FACE_COUNT,
        0 <= j < SHADOW_FACE_COUNT,
        face_mats[i] != face_mats[j],
    ensures
        p.shadow_faces@[i].light_bytes@ != p.shadow_faces@[j].light_bytes@,
{
    crate::light::lemma_distinct_views_give_distinct_blocks(l, face_mats[i], face_mats[j]);
}

/// One step of the recorded command sequence of a frame.  A command
/// refers to its payload by index into the plan it came from.
#[derive(Clone, Copy, PartialEq, Eq, Structural, Debug)]
pub enum FrameCmd {
    /// Upload a face's 96-byte light block before its render pass.
    WriteLightBlock { face: usize },
    /// Begin the depth-only render pass into the face's cube layer.
    BeginShadowFace { face: usize },
    /// One shadow draw, indexing the face's draw list.
    ShadowDrawCmd { face: usize, draw: usize },
    /// Upload the camera and light blocks of the globals binding.
    UpdateGlobals,
    /// Begin the color-and-depth main render pass.
    BeginMainPass,
    /// Draw the unit cube at the light's position.
    DrawLightMarker,
    /// One model draw, indexing the main pass's draw list.
    MainDrawCmd { draw: usize },
    /// Submit and present the frame.
    Present,
}

/// Whether a command belongs to the shadow phase.
pub open spec fn spec_is_shadow_cmd(c: FrameCmd) -> bool {
    ||| c matches FrameCmd::WriteLightBlock { .. }
    ||| c matches FrameCmd::BeginShadowFace { .. }
    ||| c matches FrameCmd::ShadowDrawCmd { .. }
}

/// Whether a command belongs to the main phase (present included).
pub open spec fn spec_is_main_cmd(c: FrameCmd) -> bool {
    ||| c == FrameCmd::UpdateGlobals
    ||| c == FrameCmd::BeginMainPass
    ||| c == FrameCmd::DrawLightMarker
    ||| c matches FrameCmd::MainDrawCmd { .. }
    ||| c == FrameCmd::Present
}

/// The commands of one shadow face: write the light block, begin the
/// pass, then the face's draws in order.
pub open spec fn spec_face_cmds(fp: ShadowFacePlan, f: int) -> Seq<FrameCmd> {
    seq![
        FrameCmd::WriteLightBlock { face: f as usize },
        FrameCmd::BeginShadowFace { face: f as usize },
    ] + Seq::new(fp.draws@.len(), |d: int| FrameCmd::ShadowDrawCmd { face: f as usize, draw: d as usize })
}

/// The commands of the first `n` shadow faces, in face order.
pub open spec fn spec_shadow_cmds_upto(p: FramePlan, n: int) -> Seq<FrameCmd>
    decreases n,
{
    if n <= 0 {
        Seq::empty()
    } else {
        spec_shadow_cmds_upto(p, n - 1) + spec_face_cmds(p.shadow_faces@[n - 1], n - 1)
    }
}

/// The whole shadow phase.
pub open spec fn spec_shadow_cmds(p: FramePlan) -> Seq<FrameCmd> {
    spec_shadow_cmds_upto(p, p.shadow_faces@.len() as int)
}

/// The main phase: globals update, pass begin, light marker, the model
/// draws in order, then present.
pub open spec fn spec_main_cmds(p: FramePlan) -> Seq<FrameCmd> {
    seq![FrameCmd::UpdateGlobals, FrameCmd::BeginMainPass, FrameCmd::DrawLightMarker]
        + Seq::new(p.main.draws@.len(), |d: int| FrameCmd::MainDrawCmd { draw: d as usize })
        + seq![FrameCmd::Present]
}

/// The full command sequence of a frame: the shadow phase, then the main
/// phase.
pub open spec fn spec_commands(p: FramePlan) -> Seq<FrameCmd> {
    spec_shadow_cmds(p) + spec_main_cmds(p)
}

/// Every command of the shadow prefix is a shadow command.
pub proof fn lemma_shadow_cmds_upto_all_shadow(p: FramePlan, n: int)
    requires
        0 <= n <= p.shadow_faces@.len(),
    ensures
        forall|k: int|
            0 <= k < spec_shadow_cmds_upto(p, n).len() ==> spec_is_shadow_cmd(
                #[trigger] spec_shadow_cmds_upto(p, n)[k],
            ),
    decreases n,
{
    if n > 0 {
        lemma_shadow_cmds_upto_all_shadow(p, n - 1);
        let pre = spec_shadow_cmds_upto(p, n - 1);
        let seg = spec_face_cmds(p.shadow_faces@[n - 1], n - 1);
        assert(spec_shadow_cmds_upto(p, n) == pre + seg);
        assert forall|k: int| 0 <= k < spec_shadow_cmds_upto(p, n).len() implies spec_is_shadow_cmd(
            #[trigger] spec_shadow_cmds_upto(p, n)[k],
        ) by {
            if k < pre.len() {
                assert(spec_shadow_cmds_upto(p, n)[k] == pre[k]);
            } else {
                let j = k - pre.len();
                assert(spec_shadow_cmds_upto(p, n)[k] == seg[j]);
                if j >= 2 {
                    assert(seg[j] == (FrameCmd::ShadowDrawCmd {
                        face: (n - 1) as usize,
                        draw: (j - 2) as usize,
                    }));
                }
            }
        }
    }
}

/// The shadow prefixes are nested: a shorter prefix is an initial segment
/// of a longer one.
pub proof fn lemma_shadow_cmds_upto_prefix(p: FramePlan, n: int, n2: int)
    requires
        0 <= n <= n2 <= p.shadow_faces@.len(),
    ensures
        spec_shadow_cmds_upto(p, n).len() <= spec_shadow_cmds_upto(p, n2).len(),
        forall|k: int|
            0 <= k < spec_shadow_cmds_upto(p, n).len() ==> #[trigger] spec_shadow_cmds_upto(
                p,
                n2,
            )[k] == spec_shadow_cmds_upto(p, n)[k],
    decreases n2 - n,
{
    if n < n2 {
        lemma_shadow_cmds_upto_prefix(p, n + 1, n2);
    }
}

/// Where face `f` begins inside the command sequence.
pub open spec fn spec_face_begin_index(p: FramePlan, f: int) -> int {
    spec_shadow_cmds_upto(p, f).len() as int + 1
}

/// The six shadow-face iterations all stand inside the shadow prefix of
/// the command sequence, in face order: face `f`'s light block is
/// written at the command just before `spec_face_begin_index(p, f)`,
/// the face's pass begins at that index, these indices increase with
/// `f`, and every one lies before the main phase.
pub proof fn lemma_all_faces_begin_in_order(p: FramePlan)
    requires
        p.wf(),
    ensures
        forall|f: int|
            0 <= f < SHADOW_FACE_COUNT ==> 0 < #[trigger] spec_face_begin_index(p, f)
                < spec_shadow_cmds(p).len() && spec_commands(p)[spec_face_begin_index(p, f)]
                == (FrameCmd::BeginShadowFace { face: f as usize }) && spec_commands(p)[
                spec_face_begin_index(p, f) - 1
            ] == (FrameCmd::WriteLightBlock { face: f as usize }),
        forall|f1: int, f2: int|
            0 <= f1 < f2 < SHADOW_FACE_COUNT ==> spec_face_begin_index(p, f1)
                < spec_face_begin_index(p, f2),
{
    assert forall|f: int| 0 <= f < SHADOW_FACE_COUNT implies 0 < #[trigger] spec_face_begin_index(
        p,
        f,
    ) < spec_shadow_cmds(p).len() && spec_commands(p)[spec_face_begin_index(p, f)]
        == (FrameCmd::BeginShadowFace { face: f as usize }) && spec_commands(p)[
        spec_face_begin_index(p, f) - 1
    ] == (FrameCmd::WriteLightBlock { face: f as usize }) by {
        let pre = spec_shadow_cmds_upto(p, f);
        let seg = spec_face_cmds(p.shadow_faces@[f], f);
        let step = spec_shadow_cmds_upto(p, f + 1);
        assert(step == pre + seg);
        assert(step[pre.len() as int] == seg[0]);
        assert(step[pre.len() as int + 1] == seg[1]);
        lemma_shadow_cmds_upto_prefix(p, f + 1, p.shadow_faces@.len() as int);
        assert(spec_shadow_cmds(p)[pre.len() as int] == seg[0]);
        assert(spec_shadow_cmds(p)[pre.len() as int + 1] == seg[1]);
    }
    assert forall|f1: int, f2: int| 0 <= f1 < f2 < SHADOW_FACE_COUNT implies spec_face_begin_index(
        p,
        f1,
    ) < spec_face_begin_index(p, f2) by {
        lemma_shadow_cmds_upto_prefix(p, f1 + 1, f2);
        assert(spec_shadow_cmds_upto(p, f1 + 1).len() == spec_shadow_cmds_upto(p, f1).len()
            + spec_face_cmds(p.shadow_faces@[f1], f1).len());
    }
}

/// No main-pass command is recorded before the shadow phase completes:
/// in the command sequence of a well-formed plan, every shadow command
/// (all six face begins among them) stands strictly before every
/// main-phase command (every model draw among them).
pub proof fn lemma_shadow_completes_before_main(p: FramePlan)
    requires
        p.wf(),
    ensures
        forall|i: int, j: int|
            0 <= i < spec_commands(p).len() && 0 <= j < spec_commands(p).len()
                && spec_is_shadow_cmd(#[trigger] spec_commands(p)[i]) && spec_is_main_cmd(
                #[trigger] spec_commands(p)[j],
            ) ==> i < j,
{
    let s = spec_shadow_cmds(p);
    let m = spec_main_cmds(p);
    lemma_shadow_cmds_upto_all_shadow(p, p.shadow_faces@.len() as int);
    assert forall|k: int| 0 <= k < m.len() implies !spec_is_shadow_cmd(#[trigger] m[k]) by {}
    assert forall|i: int, j: int|
        0 <= i < spec_commands(p).len() && 0 <= j < spec_commands(p).len() && spec_is_shadow_cmd(
            #[trigger] spec_commands(p)[i],
        ) && spec_is_main_cmd(#[trigger] spec_commands(p)[j]) implies i < j by {
        if i >= s.len() {
            assert(spec_commands(p)[i] == m[i - s.len()]);
            assert(false);
        }
        if j < s.len() {
            assert(spec_commands(p)[j] == s[j]);
            assert(spec_is_shadow_cmd(s[j]));
            assert(false);
        }
    }
}

/// Flattens the plan into its recorded command sequence: the six shadow
/// faces in order, then the main phase.
pub fn commands(plan: &FramePlan) -> (r: Vec<FrameCmd>)
    ensures
        r@ == spec_commands(*plan),
{
    let mut out: Vec<FrameCmd> = Vec::new();
    let mut f: usize = 0;
    while f < plan.shadow_faces.len()
        invariant
            f <= plan.shadow_faces@.len(),
            out@ == spec_shadow_cmds_upto(*plan, f as int),
        decreases plan.shadow_faces@.len() - f,
    {
        let fp = &plan.shadow_faces[f];
        out.push(FrameCmd::WriteLightBlock { face: f });
        out.push(FrameCmd::BeginShadowFace { face: f });
        let mut d: usize = 0;
        while d < fp.draws.len()
            invariant
                d <= fp.draws@.len(),
                f < plan.shadow_faces@.len(),
                *fp == plan.shadow_faces@[f as int],
                out@ == spec_shadow_cmds_upto(*plan, f as int) + seq![
                    FrameCmd::WriteLightBlock { face: f },
                    FrameCmd::BeginShadowFace { face: f },
                ] + Seq::new(d as nat, |k: int| FrameCmd::ShadowDrawCmd { face: f, draw: k as usize }),
            decreases fp.draws@.len() - d,
        {
            out.push(FrameCmd::ShadowDrawCmd { face: f, draw: d });
            proof {
                assert(Seq::new(
                    (d + 1) as nat,
                    |k: int| FrameCmd::ShadowDrawCmd { face: f, draw: k as usize },
                ) =~= Seq::new(
                    d as nat,
                    |k: int| FrameCmd::ShadowDrawCmd { face: f, draw: k as usize },
                ).push(FrameCmd::ShadowDrawCmd { face: f, draw: d }));
                assert(out@ =~= spec_shadow_cmds_upto(*plan, f as int) + seq![
                    FrameCmd::WriteLightBlock { face: f },
                    FrameCmd::BeginShadowFace { face: f },
                ] + Seq::new(
                    (d + 1) as nat,
                    |k: int| FrameCmd::ShadowDrawCmd { face: f, draw: k as usize },
                ));
            }
            d = d + 1;
        }
        proof {
            assert(out@ =~= spec_shadow_cmds_upto(*plan, f as int) + spec_face_cmds(
                plan.shadow_faces@[f as int],
                f as int,
            ));
        }
        f = f + 1;
    }
    out.push(FrameCmd::UpdateGlobals);
    out.push(FrameCmd::BeginMainPass);
    out.push(FrameCmd::DrawLightMarker);
    let ghost mid = out@;
    let mut d: usize = 0;
    while d < plan.main.draws.len()
        invariant
            d <= plan.main.draws@.len(),
            out@ == mid + Seq::new(d as nat, |k: int| FrameCmd::MainDrawCmd { draw: k as usize }),
        decreases plan.main.draws@.len() - d,
    {
        out.push(FrameCmd::MainDrawCmd { draw: d });
        proof {
            assert(Seq::new((d + 1) as nat, |k: int| FrameCmd::MainDrawCmd { draw: k as usize })
                =~= Seq::new(d as nat, |k: int| FrameCmd::MainDrawCmd { draw: k as usize }).push(
                FrameCmd::MainDrawCmd { draw: d },
            ));
            assert(out@ =~= mid + Seq::new(
                (d + 1) as nat,
                |k: int| FrameCmd::MainDrawCmd { draw: k as usize },
            ));
        }
        d = d + 1;
    }
    out.push(FrameCmd::Present);
    proof {
        assert(out@ =~= spec_commands(*plan));
    }
    out
}

} // verus!
