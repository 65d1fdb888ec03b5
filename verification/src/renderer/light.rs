//! The lights of a scene.

use crate::renderer::frame_system::{FrameSystem, GBuffer};
use crate::renderer::lighting::{Ambient, Directional, Point};
use crate::renderer::linear::{Matrix4, Vector3};
use crate::renderer::recording::SecondaryRecordingView;
use vstd::prelude::*;

verus! {

/// One light.
#[derive(Clone, Copy, Debug, PartialEq, Eq)]
pub enum Light {
    /// Light that reaches every surface alike.
    Ambient { color: [u32; 3] },
    /// Light that falls from one direction.
    Directional { direction: Vector3, color: [u32; 3] },
    /// Light that spreads from one position in the world.
    Point { position: Vector3, color: [u32; 3] },
}

impl Light {
    /// Whether the light can be recorded on a frame whose view transform has
    /// the given inverse: only a point light needs the inverse.
    pub open spec fn recordable(self, framebuffer_to_world: Option<Matrix4>) -> bool {
        self is Point ==> framebuffer_to_world is Some
    }

    /// What the three lighting subsystems record for this light over the
    /// given G-buffer, on a framebuffer of the given extent.
    pub open spec fn recording_spec_on(
        self,
        ambient: Ambient,
        directional: Directional,
        point: Point,
        gbuffer: GBuffer,
        extent: [u32; 2],
        framebuffer_to_world: Option<Matrix4>,
    ) -> SecondaryRecordingView {
        match self {
            Light::Ambient { color } => SecondaryRecordingView::Lighting(
                ambient.recording_spec(extent, gbuffer.diffuse, color),
            ),
            Light::Directional { direction, color } => SecondaryRecordingView::Lighting(
                directional.recording_spec(
                    extent,
                    gbuffer.diffuse,
                    gbuffer.normals,
                    direction,
                    color,
                ),
            ),
            Light::Point { position, color } => SecondaryRecordingView::Lighting(
                point.recording_spec(
                    extent,
                    gbuffer.diffuse,
                    gbuffer.normals,
                    gbuffer.depth,
                    framebuffer_to_world->0,
                    position,
                    color,
                ),
            ),
        }
    }

    /// What the lighting subsystems of `system` record for this light on a
    /// framebuffer of the given extent.
    pub open spec fn recording_spec(
        self,
        system: FrameSystem,
        extent: [u32; 2],
        framebuffer_to_world: Option<Matrix4>,
    ) -> SecondaryRecordingView {
        self.recording_spec_on(
            system.ambient(),
            system.directional(),
            system.point(),
            system.gbuffer(),
            extent,
            framebuffer_to_world,
        )
    }
}

/// What is recorded for the first `n` lights of a list, in order.
pub open spec fn light_recordings(
    lights: Seq<Light>,
    n: int,
    system: FrameSystem,
    extent: [u32; 2],
    framebuffer_to_world: Option<Matrix4>,
) -> Seq<SecondaryRecordingView> {
    Seq::new(
        n as nat,
        |i: int| lights[i].recording_spec(system, extent, framebuffer_to_world),
    )
}

/// Whether each of the first `n` lights of a list can be recorded.
pub open spec fn all_recordable(
    lights: Seq<Light>,
    n: int,
    framebuffer_to_world: Option<Matrix4>,
) -> bool {
    forall|i: int| 0 <= i < n ==> (#[trigger] lights[i]).recordable(framebuffer_to_world)
}

/// How many lights at the head of a list can be recorded one after the
/// other: the place of the first light that cannot, or the length of the
/// list if all can.
pub open spec fn recordable_prefix(lights: Seq<Light>, framebuffer_to_world: Option<Matrix4>) -> int
    decreases lights.len(),
{
    if lights.len() == 0 || !lights[0].recordable(framebuffer_to_world) {
        0
    } else {
        1 + recordable_prefix(lights.drop_first(), framebuffer_to_world)
    }
}

/// The recordable prefix of a list ends at the first light that cannot be
/// recorded, or at the end of the list.
pub proof fn lemma_recordable_prefix(
    lights: Seq<Light>,
    framebuffer_to_world: Option<Matrix4>,
    k: int,
)
    requires
        0 <= k <= lights.len(),
        all_recordable(lights, k, framebuffer_to_world),
        k < lights.len() ==> !lights[k].recordable(framebuffer_to_world),
    ensures
        recordable_prefix(lights, framebuffer_to_world) == k,
        k == lights.len() <==> all_recordable(lights, lights.len() as int, framebuffer_to_world),
    decreases lights.len(),
{
    if lights.len() == 0 {
    } else if k == 0 {
    } else {
        let rest = lights.drop_first();
        assert(lights[0].recordable(framebuffer_to_world));
        assert forall|i: int| 0 <= i < k - 1 implies (#[trigger] rest[i]).recordable(
            framebuffer_to_world,
        ) by {
            assert(rest[i] == lights[i + 1]);
        }
        if k < lights.len() {
            assert(rest[k - 1] == lights[k]);
        }
        lemma_recordable_prefix(rest, framebuffer_to_world, k - 1);
    }
}

} // verus!
