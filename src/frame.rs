use vstd::prelude::*;

verus! {

/// The draw that the scene issues into the frame's render pass.
#[derive(Clone, Copy, Debug, PartialEq, Eq, Structural)]
pub enum SceneDraw {
    /// One indexed draw over the static index buffer.
    Indexed { index_count: u32 },
    /// One draw of the static vertices, for targets without indexed draws.
    Direct { vertex_count: u32 },
}

/// One step of rendering a frame, in the order the caller performs them.
#[derive(Clone, Copy, Debug, PartialEq, Eq, Structural)]
pub enum FrameStep {
    /// Upload the overlay texture at this position of the frame's `set` list.
    UploadTexture(usize),
    /// Upload the overlay's vertex, index and uniform buffers.
    UpdateOverlayBuffers,
    /// Open the render pass on the acquired frame.
    BeginPass,
    DrawScene(SceneDraw),
    /// Draw the overlay's tessellated shapes into the same pass.
    DrawOverlay,
    EndPass,
    /// Submit the frame's single command buffer.
    Submit,
    /// Present the acquired frame.
    Present,
    /// Release the overlay texture at this position of the frame's `free` list.
    FreeTexture(usize),
}

/// Number of vertices, and of indices, of the scene's primitive.
pub const SCENE_VERTEX_COUNT: u32 = 3;

pub open spec fn scene_draw_spec(indexed: bool) -> SceneDraw {
    if indexed {
        SceneDraw::Indexed { index_count: 3 }
    } else {
        SceneDraw::Direct { vertex_count: 3 }
    }
}

/// The scene's draw: all three indices where indexed draws are supported,
/// else the same three vertices directly.
pub fn scene_draw(indexed: bool) -> (r: SceneDraw)
    ensures
        r == scene_draw_spec(indexed),
{
    if indexed {
        SceneDraw::Indexed { index_count: SCENE_VERTEX_COUNT }
    } else {
        SceneDraw::Direct { vertex_count: SCENE_VERTEX_COUNT }
    }
}

/// The steps between the uploads of textures and their release.
pub open spec fn pass_steps(indexed: bool) -> Seq<FrameStep> {
    seq![
        FrameStep::UpdateOverlayBuffers,
        FrameStep::BeginPass,
        FrameStep::DrawScene(scene_draw_spec(indexed)),
        FrameStep::DrawOverlay,
        FrameStep::EndPass,
        FrameStep::Submit,
        FrameStep::Present,
    ]
}

/// A frame with `n_set` textures to upload and `n_free` to release: all
/// uploads, then one pass holding the scene and the overlay, one submission,
/// one presentation, and then all releases.
pub open spec fn frame_plan(n_set: nat, n_free: nat, indexed: bool) -> Seq<FrameStep> {
    Seq::new(n_set, |i: int| FrameStep::UploadTexture(i as usize)) + pass_steps(indexed) + Seq::new(
        n_free,
        |i: int| FrameStep::FreeTexture(i as usize),
    )
}

/// The steps of one frame whose overlay output sets `n_set` textures and frees
/// `n_free`.
pub fn plan_frame(n_set: usize, n_free: usize, indexed: bool) -> (r: Vec<FrameStep>)
    ensures
        r@ == frame_plan(n_set as nat, n_free as nat, indexed),
{
    let mut r: Vec<FrameStep> = Vec::new();
    let mut i: usize = 0;
    while i < n_set
        invariant
            i <= n_set,
            r@ == Seq::new(i as nat, |j: int| FrameStep::UploadTexture(j as usize)),
        decreases n_set - i,
    {
        r.push(FrameStep::UploadTexture(i));
        i = i + 1;
        assert(r@ =~= Seq::new(i as nat, |j: int| FrameStep::UploadTexture(j as usize)));
    }
    r.push(FrameStep::UpdateOverlayBuffers);
    r.push(FrameStep::BeginPass);
    r.push(FrameStep::DrawScene(scene_draw(indexed)));
    r.push(FrameStep::DrawOverlay);
    r.push(FrameStep::EndPass);
    r.push(FrameStep::Submit);
    r.push(FrameStep::Present);
    let ghost head = Seq::new(n_set as nat, |j: int| FrameStep::UploadTexture(j as usize)) + pass_steps(
        indexed,
    );
    assert(r@ =~= head);
    let mut k: usize = 0;
    while k < n_free
        invariant
            k <= n_free,
            r@ == head + Seq::new(k as nat, |j: int| FrameStep::FreeTexture(j as usize)),
        decreases n_free - k,
    {
        r.push(FrameStep::FreeTexture(k));
        k = k + 1;
        assert(r@ =~= head + Seq::new(k as nat, |j: int| FrameStep::FreeTexture(j as usize)));
    }
    r
}

/// `step` stands at exactly one position of `p`.
pub open spec fn occurs_once(p: Seq<FrameStep>, step: FrameStep) -> bool {
    exists|j: int|
        0 <= j < p.len() && p[j] == step && forall|k: int| 0 <= k < p.len() && p[k] == step ==> k == j
}

/// Wherever `a` and `b` stand in `p`, `a` comes first.
pub open spec fn precedes(p: Seq<FrameStep>, a: FrameStep, b: FrameStep) -> bool {
    forall|j: int, k: int| 0 <= j < p.len() && 0 <= k < p.len() && p[j] == a && p[k] == b ==> j < k
}

/// Every texture upload comes before every opening of the pass.
pub open spec fn uploads_precede_pass(p: Seq<FrameStep>) -> bool {
    forall|j: int, k: int|
        0 <= j < p.len() && 0 <= k < p.len() && p[j] is UploadTexture && p[k] == FrameStep::BeginPass
            ==> j < k
}

/// Every texture release comes after every submission.
pub open spec fn frees_follow_submit(p: Seq<FrameStep>) -> bool {
    forall|j: int, k: int|
        0 <= j < p.len() && 0 <= k < p.len() && p[j] is FreeTexture && p[k] == FrameStep::Submit
            ==> k < j
}

proof fn lemma_plan_positions(n_set: nat, n_free: nat, indexed: bool)
    ensures
        ({
            let p = frame_plan(n_set, n_free, indexed);
            &&& p.len() == n_set + 7 + n_free
            &&& forall|j: int| 0 <= j < n_set ==> p[j] == FrameStep::UploadTexture(j as usize)
            &&& forall|m: int| 0 <= m < 7 ==> p[n_set as int + m] == pass_steps(indexed)[m]
            &&& forall|j: int|
                n_set + 7 <= j < p.len() ==> p[j] == FrameStep::FreeTexture((j - n_set - 7) as usize)
        }),
{
}

/// In every frame, each texture that the overlay sets is uploaded before the
/// render pass is opened, and each texture that it frees is released after
/// the frame's command buffer is submitted; no texture is left out of either.
pub proof fn lemma_texture_ordering(n_set: nat, n_free: nat, indexed: bool)
    ensures
        uploads_precede_pass(frame_plan(n_set, n_free, indexed)),
        frees_follow_submit(frame_plan(n_set, n_free, indexed)),
        forall|i: usize|
            i < n_set ==> #[trigger] frame_plan(n_set, n_free, indexed).contains(FrameStep::UploadTexture(i)),
        forall|i: usize|
            i < n_free ==> #[trigger] frame_plan(n_set, n_free, indexed).contains(FrameStep::FreeTexture(i)),
{
    lemma_plan_positions(n_set, n_free, indexed);
    let p = frame_plan(n_set, n_free, indexed);
    assert forall|i: usize| i < n_set implies #[trigger] p.contains(FrameStep::UploadTexture(i)) by {
        assert(p[i as int] == FrameStep::UploadTexture(i));
    }
    assert forall|i: usize| i < n_free implies #[trigger] p.contains(FrameStep::FreeTexture(i)) by {
        assert(p[n_set as int + 7 + i] == FrameStep::FreeTexture(i));
    }
}

/// Each step of the pass stands only at its own position after the uploads.
proof fn lemma_pass_step_positions(n_set: nat, n_free: nat, indexed: bool)
    ensures
        ({
            let p = frame_plan(n_set, n_free, indexed);
            forall|k: int, m: int|
                0 <= k < p.len() && 0 <= m < 7 && #[trigger] p[k] == #[trigger] pass_steps(indexed)[m]
                    ==> k == n_set + m
        }),
{
    lemma_plan_positions(n_set, n_free, indexed);
    let p = frame_plan(n_set, n_free, indexed);
    let q = pass_steps(indexed);
    assert forall|k: int, m: int|
        0 <= k < p.len() && 0 <= m < 7 && #[trigger] p[k] == #[trigger] q[m] implies k == n_set + m by {
        if k < n_set {
            assert(p[k] is UploadTexture);
        } else if k >= n_set + 7 {
            assert(p[k] is FreeTexture);
        } else {
            assert(p[n_set + (k - n_set)] == q[k - n_set]);
        }
    }
}

/// Every frame opens one render pass, draws the scene and then the overlay
/// into it, closes it, submits one command buffer and presents once, in that
/// order; where indexed draws are supported the scene's draw covers three
/// indices.
pub proof fn lemma_single_submission(n_set: nat, n_free: nat, indexed: bool)
    ensures
        ({
            let p = frame_plan(n_set, n_free, indexed);
            let scene = FrameStep::DrawScene(scene_draw_spec(indexed));
            &&& occurs_once(p, FrameStep::BeginPass)
            &&& occurs_once(p, scene)
            &&& occurs_once(p, FrameStep::DrawOverlay)
            &&& occurs_once(p, FrameStep::EndPass)
            &&& occurs_once(p, FrameStep::Submit)
            &&& occurs_once(p, FrameStep::Present)
            &&& precedes(p, FrameStep::BeginPass, scene)
            &&& precedes(p, scene, FrameStep::DrawOverlay)
            &&& precedes(p, FrameStep::DrawOverlay, FrameStep::EndPass)
            &&& precedes(p, FrameStep::EndPass, FrameStep::Submit)
            &&& precedes(p, FrameStep::Submit, FrameStep::Present)
        }),
        indexed ==> scene_draw_spec(indexed) == (SceneDraw::Indexed { index_count: 3 }),
{
    lemma_plan_positions(n_set, n_free, indexed);
    lemma_pass_step_positions(n_set, n_free, indexed);
    let p = frame_plan(n_set, n_free, indexed);
    let q = pass_steps(indexed);
    let n = n_set as int;
    assert(q[1] == FrameStep::BeginPass);
    assert(q[2] == FrameStep::DrawScene(scene_draw_spec(indexed)));
    assert(q[3] == FrameStep::DrawOverlay);
    assert(q[4] == FrameStep::EndPass);
    assert(q[5] == FrameStep::Submit);
    assert(q[6] == FrameStep::Present);
    assert(p[n + 1] == q[1]);
    assert(p[n + 2] == q[2]);
    assert(p[n + 3] == q[3]);
    assert(p[n + 4] == q[4]);
    assert(p[n + 5] == q[5]);
    assert(p[n + 6] == q[6]);
}

} // verus!
