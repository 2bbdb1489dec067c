//! Per-window renderer state.
//!
//! A [`WgpuRenderer`] owns the GPU resources of one window — its surface and
//! the vertex, index and texture-binding objects — through the release
//! tracker of [`crate::handles`], together with the surface configuration's
//! current pixel dimensions.  The backend calls themselves (configuring the
//! surface, recording and submitting a frame) happen at the unverified
//! boundary; this module decides *whether* the surface may be reconfigured
//! and keeps the configuration and the release obligations consistent.

use vstd::prelude::*;

use crate::handles::AutoDropId;
use crate::handles::HandleKind;
use crate::handles::ReleaseAction;

verus! {

/// A surface may only be configured with strictly positive dimensions; a
/// zero width or height would be an invalid configuration.
pub open spec fn valid_surface_size(width: u32, height: u32) -> bool {
    width > 0 && height > 0
}

/// One texture format of the adapter's capability list, as the format
/// selection reads it: an opaque tag the boundary maps back to the backend's
/// format value, and whether the format is sRGB-encoded.
#[derive(Clone, Copy, PartialEq, Eq, Structural, Debug)]
pub struct FormatInfo {
    pub code: u32,
    pub srgb: bool,
}

/// Pick the surface format: the first sRGB-capable format of the capability
/// list, or the first format of the list if none is sRGB.
pub fn select_surface_format(formats: &Vec<FormatInfo>) -> (i: usize)
    requires
        formats@.len() > 0,
    ensures
        i < formats@.len(),
        formats@[i as int].srgb ==> forall|j: int| 0 <= j < i ==> !formats@[j].srgb,
        !formats@[i as int].srgb ==> i == 0 && forall|j: int|
            0 <= j < formats@.len() ==> !(#[trigger] formats@[j]).srgb,
{
    let mut k: usize = 0;
    while k < formats.len()
        invariant
            k <= formats@.len(),
            forall|j: int| 0 <= j < k ==> !formats@[j].srgb,
        decreases formats@.len() - k,
    {
        if formats[k].srgb {
            return k;
        }
        k = k + 1;
    }
    0
}

/// Instruction to the unverified boundary: configure the surface with raw
/// handle `surface` to `width` by `height` pixels.
#[derive(Clone, Copy, PartialEq, Eq, Structural, Debug)]
pub struct ReconfigureAction {
    pub surface: u64,
    pub width: u32,
    pub height: u32,
}

/// The GPU-side state of one window: the release obligations for its
/// resources and the dimensions its surface configuration currently holds.
pub struct WgpuRenderer {
    pub surface: AutoDropId,
    pub vertex_buffer: AutoDropId,
    pub index_buffer: AutoDropId,
    pub image_bind_group: AutoDropId,
    pub config_width: u32,
    pub config_height: u32,
}

impl WgpuRenderer {
    /// Each resource is of the kind its field says, and every release is
    /// still owed.
    pub open spec fn wf(self) -> bool {
        &&& self.surface@.kind == HandleKind::Surface && !self.surface@.released
        &&& self.vertex_buffer@.kind == HandleKind::Buffer && !self.vertex_buffer@.released
        &&& self.index_buffer@.kind == HandleKind::Buffer && !self.index_buffer@.released
        &&& self.image_bind_group@.kind == HandleKind::BindGroup
            && !self.image_bind_group@.released
    }

    /// The release requests for this renderer's resources, in field order.
    pub open spec fn release_seq(self) -> Seq<ReleaseAction> {
        seq![
            self.surface@.action(),
            self.vertex_buffer@.action(),
            self.index_buffer@.action(),
            self.image_bind_group@.action(),
        ]
    }

    /// The renderer after a surface reconfiguration to `width` by `height`:
    /// only the configured dimensions change.
    pub open spec fn with_config(self, width: u32, height: u32) -> WgpuRenderer {
        WgpuRenderer { config_width: width, config_height: height, ..self }
    }

    /// Assemble the renderer for one window from its freshly created
    /// resources, configured at `width` by `height`.
    pub fn new(
        surface: AutoDropId,
        vertex_buffer: AutoDropId,
        index_buffer: AutoDropId,
        image_bind_group: AutoDropId,
        width: u32,
        height: u32,
    ) -> (r: Self)
        requires
            surface@.kind == HandleKind::Surface && !surface@.released,
            vertex_buffer@.kind == HandleKind::Buffer && !vertex_buffer@.released,
            index_buffer@.kind == HandleKind::Buffer && !index_buffer@.released,
            image_bind_group@.kind == HandleKind::BindGroup && !image_bind_group@.released,
        ensures
            r.wf(),
            r == (WgpuRenderer {
                surface,
                vertex_buffer,
                index_buffer,
                image_bind_group,
                config_width: width,
                config_height: height,
            }),
    {
        WgpuRenderer {
            surface,
            vertex_buffer,
            index_buffer,
            image_bind_group,
            config_width: width,
            config_height: height,
        }
    }

    /// Apply a requested size to the surface configuration.  The
    /// reconfiguration is ordered exactly when both dimensions are strictly
    /// positive; a zero width or height leaves the configuration, and the
    /// surface, untouched.
    pub fn request_resize(&mut self, width: u32, height: u32) -> (a: Option<ReconfigureAction>)
        ensures
            a is Some <==> valid_surface_size(width, height),
            valid_surface_size(width, height) ==> {
                &&& *final(self) == old(self).with_config(width, height)
                &&& a == Some(
                    (ReconfigureAction { surface: old(self).surface@.raw, width, height }),
                )
            },
            !valid_surface_size(width, height) ==> *final(self) == *old(self),
    {
        if width > 0 && height > 0 {
            self.config_width = width;
            self.config_height = height;
            Some(ReconfigureAction { surface: self.surface.raw(), width, height })
        } else {
            None
        }
    }

    /// Release every resource this renderer owns, in field order.  Called
    /// when the window that owns the renderer leaves the active set.
    pub fn release_all(&mut self) -> (actions: Vec<ReleaseAction>)
        requires
            old(self).wf(),
        ensures
            actions@ == old(self).release_seq(),
            final(self).surface@.released,
            final(self).vertex_buffer@.released,
            final(self).index_buffer@.released,
            final(self).image_bind_group@.released,
    {
        let mut actions: Vec<ReleaseAction> = Vec::new();
        if let Some(a) = self.surface.release() {
            actions.push(a);
        }
        if let Some(a) = self.vertex_buffer.release() {
            actions.push(a);
        }
        if let Some(a) = self.index_buffer.release() {
            actions.push(a);
        }
        if let Some(a) = self.image_bind_group.release() {
            actions.push(a);
        }
        actions
    }
}

} // verus!
