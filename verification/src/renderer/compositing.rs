//! What a sequence of blended draws leaves in a colour attachment, in exact
//! arithmetic, and why the order of additive draws does not matter.

use crate::renderer::frame_system::FrameSystem;
use crate::renderer::light::{light_recordings, Light};
use crate::renderer::linear::Matrix4;
use crate::renderer::pipeline::{AttachmentBlend, Texel};
use crate::renderer::recording::SecondaryRecordingView;
use vstd::prelude::*;

verus! {

/// The texel that a draw leaves: the blend of what the draw writes over what
/// the attachment holds, or what the draw writes if the pipeline does not
/// blend.
pub open spec fn drawn(blend: Option<AttachmentBlend>, src: Texel, dst: Texel) -> Texel {
    match blend {
        Some(blend) => blend.apply(src, dst),
        None => src,
    }
}

/// The texel that a sequence of draws leaves in an attachment that held
/// `base`. The draws happen in the order of the sequence; `blend_of` gives
/// the blend of the pipeline of a draw and `shade` what the draw writes to
/// the texel.
pub open spec fn composite<L>(
    blend_of: spec_fn(L) -> Option<AttachmentBlend>,
    shade: spec_fn(L) -> Texel,
    base: Texel,
    draws: Seq<L>,
) -> Texel
    decreases draws.len(),
{
    if draws.len() == 0 {
        base
    } else {
        drawn(
            blend_of(draws.last()),
            shade(draws.last()),
            composite(blend_of, shade, base, draws.drop_last()),
        )
    }
}

/// Whether every draw of a sequence blends additively.
pub open spec fn all_additive<L>(
    blend_of: spec_fn(L) -> Option<AttachmentBlend>,
    draws: Seq<L>,
) -> bool {
    forall|i: int|
        0 <= i < draws.len() ==> blend_of(#[trigger] draws[i]) == Some(
            AttachmentBlend::additive_spec(),
        )
}

/// Two additive draws leave the same texel in either order.
pub proof fn lemma_additive_draws_swap(first: Texel, second: Texel, dst: Texel)
    ensures
        AttachmentBlend::additive_spec().apply(
            second,
            AttachmentBlend::additive_spec().apply(first, dst),
        ) == AttachmentBlend::additive_spec().apply(
            first,
            AttachmentBlend::additive_spec().apply(second, dst),
        ),
{
}

/// Among additive draws, any one of them may as well be drawn last.
pub proof fn lemma_additive_draw_moves_last<L>(
    blend_of: spec_fn(L) -> Option<AttachmentBlend>,
    shade: spec_fn(L) -> Texel,
    base: Texel,
    draws: Seq<L>,
    j: int,
)
    requires
        all_additive(blend_of, draws),
        0 <= j < draws.len(),
    ensures
        composite(blend_of, shade, base, draws) == AttachmentBlend::additive_spec().apply(
            shade(draws[j]),
            composite(blend_of, shade, base, draws.remove(j)),
        ),
    decreases draws.len(),
{
    let additive = AttachmentBlend::additive_spec();
    let rest = draws.drop_last();
    assert(blend_of(draws[draws.len() - 1]) == Some(additive));
    if j == draws.len() - 1 {
        assert(draws.remove(j) =~= rest);
    } else {
        assert forall|i: int| 0 <= i < rest.len() implies blend_of(#[trigger] rest[i]) == Some(
            additive,
        ) by {
            assert(rest[i] == draws[i]);
        }
        lemma_additive_draw_moves_last(blend_of, shade, base, rest, j);
        let without = draws.remove(j);
        assert(without.last() == draws.last());
        assert(without.drop_last() =~= rest.remove(j));
        assert(rest[j] == draws[j]);
        assert(blend_of(without[without.len() - 1]) == Some(additive));
        lemma_additive_draws_swap(
            shade(draws[j]),
            shade(draws.last()),
            composite(blend_of, shade, base, rest.remove(j)),
        );
    }
}

/// Additive draws leave the same texel in every order: two sequences of
/// additive draws that hold the same draws the same number of times
/// composite to the same texel.
pub proof fn lemma_additive_draws_commute<L>(
    blend_of: spec_fn(L) -> Option<AttachmentBlend>,
    shade: spec_fn(L) -> Texel,
    base: Texel,
    a: Seq<L>,
    b: Seq<L>,
)
    requires
        all_additive(blend_of, a),
        a.to_multiset() == b.to_multiset(),
    ensures
        composite(blend_of, shade, base, a) == composite(blend_of, shade, base, b),
    decreases a.len(),
{
    a.to_multiset_ensures();
    b.to_multiset_ensures();
    if a.len() == 0 {
        assert(b.len() == 0);
    } else {
        let x = a.last();
        assert(a.contains(x)) by {
            assert(a[a.len() - 1] == x);
        }
        assert(b.to_multiset().count(x) > 0);
        assert(b.contains(x));
        let j = choose|j: int| 0 <= j < b.len() && b[j] == x;
        let a_rest = a.drop_last();
        let b_rest = b.remove(j);
        assert(a_rest =~= a.remove(a.len() - 1));
        assert(a_rest.to_multiset() =~= b_rest.to_multiset());
        assert forall|i: int| 0 <= i < a_rest.len() implies blend_of(#[trigger] a_rest[i])
            == Some(AttachmentBlend::additive_spec()) by {
            assert(a_rest[i] == a[i]);
        }
        assert forall|i: int| 0 <= i < b.len() implies blend_of(#[trigger] b[i]) == Some(
            AttachmentBlend::additive_spec(),
        ) by {
            assert(b.contains(b[i]));
            assert(a.to_multiset().count(b[i]) > 0);
            assert(a.contains(b[i]));
            let k = choose|k: int| 0 <= k < a.len() && a[k] == b[i];
            assert(blend_of(a[k]) == Some(AttachmentBlend::additive_spec()));
        }
        lemma_additive_draws_commute(blend_of, shade, base, a_rest, b_rest);
        lemma_additive_draw_moves_last(blend_of, shade, base, b, j);
        assert(blend_of(a[a.len() - 1]) == Some(AttachmentBlend::additive_spec()));
    }
}

/// The blend of the pipeline that a recording draws with.
pub open spec fn blend_of_recording(recording: SecondaryRecordingView) -> Option<
    AttachmentBlend,
> {
    match recording {
        SecondaryRecordingView::Geometry(recording) =>
            recording.pipeline.color_blend_state.attachment_state.blend,
        SecondaryRecordingView::Lighting(recording) =>
            recording.pipeline.color_blend_state.attachment_state.blend,
    }
}

/// The final colour of a texel after the lights of a list were recorded, in
/// the order of the list, by the lighting subsystems of a frame system.
/// `shade` says what the recording of a light writes to the texel.
pub open spec fn lit_by(
    system: FrameSystem,
    extent: [u32; 2],
    framebuffer_to_world: Option<Matrix4>,
    shade: spec_fn(SecondaryRecordingView) -> Texel,
    base: Texel,
    lights: Seq<Light>,
) -> Texel {
    composite(
        |recording: SecondaryRecordingView| blend_of_recording(recording),
        shade,
        base,
        light_recordings(lights, lights.len() as int, system, extent, framebuffer_to_world),
    )
}

/// Every light is recorded with additive blending.
pub proof fn lemma_lights_blend_additively(
    system: FrameSystem,
    extent: [u32; 2],
    framebuffer_to_world: Option<Matrix4>,
    light: Light,
)
    requires
        system.wf(),
    ensures
        blend_of_recording(light.recording_spec(system, extent, framebuffer_to_world)) == Some(
            AttachmentBlend::additive_spec(),
        ),
{
}

/// The lights of a frame may be recorded in any order: two lists that hold
/// the same lights the same number of times leave the same final colour in
/// every texel.
pub proof fn lemma_light_order_is_irrelevant(
    system: FrameSystem,
    extent: [u32; 2],
    framebuffer_to_world: Option<Matrix4>,
    shade: spec_fn(SecondaryRecordingView) -> Texel,
    base: Texel,
    a: Seq<Light>,
    b: Seq<Light>,
)
    requires
        system.wf(),
        a.to_multiset() == b.to_multiset(),
    ensures
        lit_by(system, extent, framebuffer_to_world, shade, base, a) == lit_by(
            system,
            extent,
            framebuffer_to_world,
            shade,
            base,
            b,
        ),
{
    let blend_of = |recording: SecondaryRecordingView| blend_of_recording(recording);
    let record = |light: Light| light.recording_spec(system, extent, framebuffer_to_world);
    let ra = light_recordings(a, a.len() as int, system, extent, framebuffer_to_world);
    let rb = light_recordings(b, b.len() as int, system, extent, framebuffer_to_world);
    assert(ra =~= a.map_values(record));
    assert(rb =~= b.map_values(record));
    lemma_map_values_keeps_multiset(a, b, record);
    assert forall|i: int| 0 <= i < ra.len() implies blend_of(#[trigger] ra[i]) == Some(
        AttachmentBlend::additive_spec(),
    ) by {
        lemma_lights_blend_additively(system, extent, framebuffer_to_world, a[i]);
    }
    lemma_additive_draws_commute(blend_of, shade, base, ra, rb);
}

/// Mapping two sequences that hold the same elements the same number of
/// times gives two sequences that do so too.
pub proof fn lemma_map_values_keeps_multiset<A, B>(a: Seq<A>, b: Seq<A>, f: spec_fn(A) -> B)
    requires
        a.to_multiset() == b.to_multiset(),
    ensures
        a.map_values(f).to_multiset() == b.map_values(f).to_multiset(),
    decreases a.len(),
{
    a.to_multiset_ensures();
    b.to_multiset_ensures();
    if a.len() == 0 {
        assert(b.len() == 0);
        assert(a.map_values(f) =~= b.map_values(f));
    } else {
        let x = a.last();
        assert(a.contains(x)) by {
            assert(a[a.len() - 1] == x);
        }
        assert(b.to_multiset().count(x) > 0);
        assert(b.contains(x));
        let j = choose|j: int| 0 <= j < b.len() && b[j] == x;
        let a_rest = a.drop_last();
        let b_rest = b.remove(j);
        assert(a_rest =~= a.remove(a.len() - 1));
        assert(a_rest.to_multiset() =~= b_rest.to_multiset());
        lemma_map_values_keeps_multiset(a_rest, b_rest, f);
        let ma = a.map_values(f);
        let mb = b.map_values(f);
        ma.to_multiset_ensures();
        mb.to_multiset_ensures();
        assert(ma.remove(a.len() - 1) =~= a_rest.map_values(f));
        assert(mb.remove(j) =~= b_rest.map_values(f));
        assert(ma[a.len() - 1] == f(x));
        assert(mb[j] == f(x));
        assert(ma.to_multiset() =~= ma.remove(a.len() - 1).to_multiset().insert(f(x)));
        assert(mb.to_multiset() =~= mb.remove(j).to_multiset().insert(f(x)));
    }
}

} // verus!
