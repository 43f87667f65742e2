//! What the embedder asks of a renderer between frames: epochs, profiles,
//! the end of a frame on screen, pixels, and the end of the renderer.

use vstd::prelude::*;
use crate::api::{Epoch, ExternalImageId, PipelineId};
use crate::batch::BatchTextures;
use crate::device::{BufferId, Device, DeviceCommand, DeviceView, PrimitiveInstance, ReadPixelsFormat, UploadData, UploadDataView, VertexArrayKind, VertexUsageHint};
use crate::documents::ActiveDocument;
use crate::draw::bind_batch_textures;
use crate::frame::OutputTarget;
use crate::messages::{epoch_of, find_epoch};
use crate::renderer::{CpuProfile, DebugFlags, GpuProfile, GraphicsApi, GraphicsApiInfo, Renderer, RendererStats, RendererView, DISABLE_BATCHING};
use crate::texture_resolver::delete_textures;
use crate::units::DeviceUintRect;

verus! {

/// Some document has a scroll node that is bouncing back.
pub open spec fn any_bouncing_back(docs: Seq<ActiveDocument>) -> bool {
    exists|i: int| 0 <= i < docs.len() && (#[trigger] docs[i]).1.layers_bouncing_back@.len() > 0
}

/// The device after the framebuffer objects of the first `n` output
/// targets were destroyed, in order.
pub open spec fn delete_fbos(d: DeviceView, targets: Seq<OutputTarget>, n: nat) -> DeviceView
    decreases n,
{
    if n == 0 {
        d
    } else {
        delete_fbos(d, targets, (n - 1) as nat).emit(DeviceCommand::DeleteFbo(targets[n - 1].fbo_id))
    }
}

/// The device after the first `n` instances were each handed over and
/// drawn on their own.
pub open spec fn draw_one_by_one(d: DeviceView, data: Seq<PrimitiveInstance>, n: nat) -> DeviceView
    decreases n,
{
    if n == 0 {
        d
    } else {
        let before = draw_one_by_one(d, data, (n - 1) as nat);
        before.upload(UploadDataView::Primitives(seq![data[n - 1]])).emit(
            DeviceCommand::UpdateInstances {
                data: before.next_buffer(),
                usage: VertexUsageHint::Stream,
            },
        ).emit(DeviceCommand::DrawTriangles { first_vertex: 0, index_count: 6 })
    }
}

impl RendererView {
    /// The device after the instances of a batch were drawn directly: the
    /// textures are bound; then all instances are handed over and drawn in
    /// one call, or, with batching disabled, one call each.
    pub open spec fn draw_instanced(self, data: Seq<PrimitiveInstance>, textures: BatchTextures) -> DeviceView {
        let bound = self.resolver.bind_textures(self.device, textures);
        if self.debug_flags.bits & DISABLE_BATCHING == DISABLE_BATCHING {
            draw_one_by_one(bound, data, data.len())
        } else {
            bound.upload(UploadDataView::Primitives(data)).emit(
                DeviceCommand::UpdateInstances {
                    data: bound.next_buffer(),
                    usage: VertexUsageHint::Stream,
                },
            ).emit(
                DeviceCommand::DrawIndexedTrianglesInstanced {
                    index_count: 6,
                    instance_count: data.len() as i32,
                },
            )
        }
    }

    /// The number of draw calls that drawing `count` instances directly
    /// takes.
    pub open spec fn direct_draw_calls(self, count: nat) -> nat {
        if self.debug_flags.bits & DISABLE_BATCHING == DISABLE_BATCHING {
            count
        } else {
            1
        }
    }
}

impl Renderer {
    pub fn get_max_texture_size(&self) -> (size: u32)
        ensures
            size == self.max_texture_size,
    {
        self.max_texture_size
    }

    /// What the renderer tells of the graphics interface that it drives.
    pub fn get_graphics_api_info(&self) -> (info: GraphicsApiInfo)
        ensures
            info.kind == GraphicsApi::OpenGL,
            info.version@ == "0.1"@,
            info.renderer@ == "wip"@,
    {
        GraphicsApiInfo {
            kind: GraphicsApi::OpenGL,
            version: "0.1".to_owned(),
            renderer: "wip".to_owned(),
        }
    }

    /// The epoch of the frame of pipeline `pipeline_id` that was received
    /// last, if one was.
    pub fn current_epoch(&self, pipeline_id: PipelineId) -> (epoch: Option<Epoch>)
        ensures
            epoch == epoch_of(self@.pipeline_epoch_map, pipeline_id),
    {
        let mut i: usize = 0;
        while i < self.pipeline_epoch_map.len()
            invariant
                i <= self.pipeline_epoch_map@.len(),
                find_epoch(self.pipeline_epoch_map@, pipeline_id, 0) == find_epoch(
                    self.pipeline_epoch_map@,
                    pipeline_id,
                    i as int,
                ),
            decreases self.pipeline_epoch_map@.len() - i,
        {
            if self.pipeline_epoch_map[i].0 == pipeline_id {
                return Some(self.pipeline_epoch_map[i].1);
            }
            i += 1;
        }
        None
    }

    /// The pipelines that frames were received for since the last call,
    /// with their epochs; the renderer forgets them.
    pub fn flush_rendered_epochs(&mut self) -> (epochs: Vec<(PipelineId, Epoch)>)
        ensures
            final(self).wf() == old(self).wf(),
            epochs@ == old(self)@.pipeline_epoch_map,
            final(self)@ == (RendererView { pipeline_epoch_map: Seq::empty(), ..old(self)@ }),
    {
        let mut epochs: Vec<(PipelineId, Epoch)> = Vec::new();
        std::mem::swap(&mut self.pipeline_epoch_map, &mut epochs);
        assert(self@.pipeline_epoch_map =~= Seq::<(PipelineId, Epoch)>::empty());
        epochs
    }

    /// The profiles that were recorded, oldest first; the renderer forgets
    /// them.
    pub fn get_frame_profiles(&mut self) -> (profiles: (Vec<CpuProfile>, Vec<GpuProfile>))
        ensures
            final(self).wf() == old(self).wf(),
            profiles.0@ == old(self)@.cpu_profiles,
            profiles.1@ == old(self)@.gpu_profiles,
            final(self)@ == (RendererView {
                cpu_profiles: Seq::empty(),
                gpu_profiles: Seq::empty(),
                ..old(self)@
            }),
    {
        let mut cpu_profiles: Vec<CpuProfile> = Vec::new();
        while self.cpu_profiles.len() > 0
            invariant
                self.wf() == old(self).wf(),
                self@ == (RendererView { cpu_profiles: self@.cpu_profiles, ..old(self)@ }),
                cpu_profiles@ + self.cpu_profiles@ == old(self).cpu_profiles@,
            decreases self.cpu_profiles@.len(),
        {
            let ghost rest = self.cpu_profiles@;
            match self.cpu_profiles.pop_front() {
                Some(profile) => {
                    let ghost done = cpu_profiles@;
                    cpu_profiles.push(profile);
                    assert(cpu_profiles@ + self.cpu_profiles@ =~= done + rest);
                },
                None => {},
            }
        }
        assert(cpu_profiles@ =~= old(self).cpu_profiles@);
        assert(self@.cpu_profiles =~= Seq::<CpuProfile>::empty());
        let mut gpu_profiles: Vec<GpuProfile> = Vec::new();
        while self.gpu_profiles.len() > 0
            invariant
                self.wf() == old(self).wf(),
                self@ == (RendererView {
                    cpu_profiles: Seq::empty(),
                    gpu_profiles: self@.gpu_profiles,
                    ..old(self)@
                }),
                gpu_profiles@ + self.gpu_profiles@ == old(self).gpu_profiles@,
            decreases self.gpu_profiles@.len(),
        {
            let ghost rest = self.gpu_profiles@;
            match self.gpu_profiles.pop_front() {
                Some(profile) => {
                    let ghost done = gpu_profiles@;
                    gpu_profiles.push(profile);
                    assert(gpu_profiles@ + self.gpu_profiles@ =~= done + rest);
                },
                None => {},
            }
        }
        assert(gpu_profiles@ =~= old(self).gpu_profiles@);
        assert(self@.gpu_profiles =~= Seq::<GpuProfile>::empty());
        (cpu_profiles, gpu_profiles)
    }

    /// Whether some document has a scroll node that is bouncing back from
    /// an overscroll.
    pub fn layers_are_bouncing_back(&self) -> (b: bool)
        ensures
            b == any_bouncing_back(self@.active_documents),
    {
        let mut i: usize = 0;
        while i < self.active_documents.len()
            invariant
                i <= self.active_documents@.len(),
                forall|k: int|
                    0 <= k < i ==> (
                    #[trigger] self.active_documents@[k]).1.layers_bouncing_back@.len() == 0,
            decreases self.active_documents@.len() - i,
        {
            if self.active_documents[i].1.layers_bouncing_back.len() > 0 {
                return true;
            }
            i += 1;
        }
        false
    }

    /// The external images that the last call of `render` used, for the
    /// embedder to unlock; the renderer forgets them.
    pub fn take_images_to_unlock(&mut self) -> (keys: Vec<(ExternalImageId, u8)>)
        ensures
            final(self).wf() == old(self).wf(),
            keys@ == old(self)@.images_to_unlock,
            final(self)@ == (RendererView { images_to_unlock: Seq::empty(), ..old(self)@ }),
    {
        let mut keys: Vec<(ExternalImageId, u8)> = Vec::new();
        std::mem::swap(&mut self.images_to_unlock, &mut keys);
        assert(self@.images_to_unlock =~= Seq::<(ExternalImageId, u8)>::empty());
        keys
    }

    /// Tells every shader program to forget the instances that it holds.
    pub fn flush(&mut self)
        ensures
            final(self).wf() == old(self).wf(),
            final(self)@ == (RendererView {
                device: old(self).shaders.reset_all(old(self)@.device),
                ..old(self)@
            }),
    {
        self.shaders.reset(&mut self.device);
    }

    /// Shows what was drawn and makes ready for the next frame.
    pub fn swap_buffers(&mut self)
        ensures
            final(self).wf() == old(self).wf(),
            final(self)@ == (RendererView {
                device: old(self).shaders.reset_all(
                    old(self)@.device.emit(DeviceCommand::SwapBuffers),
                ),
                ..old(self)@
            }),
    {
        self.device.swap_buffers();
        self.flush();
    }

    /// Asks the device for the pixels of `rect` in `format`. The bytes of
    /// `output` are handed to the device as a data block, which the device
    /// overwrites with the pixels when the request runs; the name of the
    /// block is returned, for whoever runs the device to find the pixels
    /// under.
    pub fn read_pixels_into(&mut self, rect: DeviceUintRect, format: ReadPixelsFormat, output: Vec<u8>) -> (into: BufferId)
        ensures
            final(self).wf() == old(self).wf(),
            into == old(self)@.device.next_buffer(),
            final(self)@ == (RendererView {
                device: old(self)@.device.upload(UploadDataView::Bytes(output@)).emit(
                    DeviceCommand::ReadPixels { rect, format, into },
                ),
                ..old(self)@
            }),
    {
        let into = self.device.upload(UploadData::Bytes(output));
        self.device.emit(DeviceCommand::ReadPixels { rect, format, into });
        into
    }

    /// Asks the device for the pixels of `rect` as four bytes each: a data
    /// block of zeros, four for every pixel, is handed to the device to
    /// receive them, and its name is returned.
    pub fn read_pixels_rgba8(&mut self, rect: DeviceUintRect) -> (into: BufferId)
        requires
            rect.size.width * rect.size.height * 4 <= u32::MAX,
        ensures
            final(self).wf() == old(self).wf(),
            into == old(self)@.device.next_buffer(),
            final(self)@ == (RendererView {
                device: old(self)@.device.upload(
                    UploadDataView::Bytes(
                        Seq::new((rect.size.width * rect.size.height * 4) as nat, |i: int| 0u8),
                    ),
                ).emit(DeviceCommand::ReadPixels { rect, format: ReadPixelsFormat::Rgba8, into }),
                ..old(self)@
            }),
    {
        assert(rect.size.width * rect.size.height <= u32::MAX) by (nonlinear_arith)
            requires
                rect.size.width * rect.size.height * 4 <= u32::MAX,
                rect.size.width >= 0,
                rect.size.height >= 0,
        ;
        let count = (rect.size.width * rect.size.height * 4) as usize;
        let mut pixels: Vec<u8> = Vec::new();
        let mut i: usize = 0;
        while i < count
            invariant
                i <= count,
                pixels@.len() == i,
                forall|k: int| 0 <= k < i ==> pixels@[k] == 0,
            decreases count - i,
        {
            pixels.push(0);
            i += 1;
        }
        assert(pixels@ =~= Seq::new(
            (rect.size.width * rect.size.height * 4) as nat,
            |i: int| 0u8,
        ));
        self.read_pixels_into(rect, ReadPixelsFormat::Rgba8, pixels)
    }

    /// Draws the instances of a batch directly and counts the draw calls.
    pub fn draw_instanced_batch(
        &mut self,
        data: &Vec<PrimitiveInstance>,
        vertex_array_kind: VertexArrayKind,
        textures: &BatchTextures,
        stats: &mut RendererStats,
    )
        requires
            old(self)@.resolver.textures_ok(*textures),
            data@.len() <= i32::MAX,
            old(stats).total_draw_calls + data@.len() + 1 <= usize::MAX,
        ensures
            final(self).wf() == old(self).wf(),
            final(self)@ == (RendererView {
                device: old(self)@.draw_instanced(data@, *textures),
                ..old(self)@
            }),
            *final(stats) == (RendererStats {
                total_draw_calls: (old(stats).total_draw_calls + old(self)@.direct_draw_calls(
                    data@.len(),
                )) as usize,
                ..*old(stats)
            }),
    {
        bind_batch_textures(&self.texture_resolver, textures, &mut self.device);
        let batched = !self.debug_flags.contains(DebugFlags { bits: DISABLE_BATCHING });
        if batched {
            let mut copy: Vec<PrimitiveInstance> = Vec::new();
            let mut i: usize = 0;
            while i < data.len()
                invariant
                    i <= data@.len(),
                    copy@ == data@.subrange(0, i as int),
                decreases data@.len() - i,
            {
                copy.push(data[i]);
                assert(copy@ =~= data@.subrange(0, i + 1));
                i += 1;
            }
            assert(copy@ =~= data@);
            let id = self.device.upload(UploadData::Primitives(copy));
            self.device.emit(
                DeviceCommand::UpdateInstances { data: id, usage: VertexUsageHint::Stream },
            );
            self.device.emit(
                DeviceCommand::DrawIndexedTrianglesInstanced {
                    index_count: 6,
                    instance_count: data.len() as i32,
                },
            );
            stats.total_draw_calls = stats.total_draw_calls + 1;
        } else {
            let ghost start = self.device@;
            let mut i: usize = 0;
            while i < data.len()
                invariant
                    i <= data@.len(),
                    self.wf() == old(self).wf(),
                    self@ == (RendererView { device: self@.device, ..old(self)@ }),
                    self.device@ == draw_one_by_one(start, data@, i as nat),
                    old(stats).total_draw_calls + data@.len() + 1 <= usize::MAX,
                    *stats == (RendererStats {
                        total_draw_calls: (old(stats).total_draw_calls + i) as usize,
                        ..*old(stats)
                    }),
                decreases data@.len() - i,
            {
                let mut one: Vec<PrimitiveInstance> = Vec::new();
                one.push(data[i]);
                assert(one@ =~= seq![data@[i as int]]);
                let id = self.device.upload(UploadData::Primitives(one));
                self.device.emit(
                    DeviceCommand::UpdateInstances { data: id, usage: VertexUsageHint::Stream },
                );
                self.device.emit(DeviceCommand::DrawTriangles { first_vertex: 0, index_count: 6 });
                stats.total_draw_calls = stats.total_draw_calls + 1;
                i += 1;
            }
        }
    }

    /// Ends the renderer: in one last frame every texture, every shader
    /// program and every framebuffer object that it holds is destroyed.
    /// Returns the device with the commands that do so.
    pub fn deinit(self) -> (device: Device)
        requires
            self.device@.frame_id.0 < usize::MAX,
        ensures
            device@ == delete_fbos(
                self.shaders.delete_all(
                    delete_textures(
                        delete_textures(
                            self@.device.emit(DeviceCommand::BeginFrame).emit(
                                DeviceCommand::DeleteTexture(
                                    self@.resolver.dummy_cache_texture.id,
                                ),
                            ),
                            self@.resolver.cache_texture_map,
                            self@.resolver.cache_texture_map.len(),
                        ),
                        self@.resolver.render_target_pool,
                        self@.resolver.render_target_pool.len(),
                    ),
                ),
                self@.output_targets,
                self@.output_targets.len(),
            ).end_frame(self@.device.frame_id),
    {
        let Renderer { device, gpu_cache_texture, texture_resolver, shaders, output_targets, .. } = self;
        let mut device = device;
        let frame_id = device.begin_frame();
        gpu_cache_texture.deinit(&mut device);
        texture_resolver.deinit(&mut device);
        shaders.deinit(&mut device);
        let ghost start = device@;
        let mut i: usize = 0;
        while i < output_targets.len()
            invariant
                i <= output_targets@.len(),
                device@ == delete_fbos(start, output_targets@, i as nat),
            decreases output_targets@.len() - i,
        {
            device.emit(DeviceCommand::DeleteFbo(output_targets[i].fbo_id));
            i += 1;
        }
        device.end_frame(frame_id);
        device
    }
}

} // verus!
