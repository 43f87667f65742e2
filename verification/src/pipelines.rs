//! Pipeline states and instance records for backends that draw through
//! pipeline state objects: which state a draw selects, what the blend
//! equations are, and where in an upload buffer instances go.

use vstd::prelude::*;
use crate::api::F32Bits;
use crate::device::{BlendState, Device, MAX_INSTANCE_COUNT};
use crate::gpu_types::{BlurInstance, ClipMaskInstance, PrimitiveInstance};
use crate::renderer::BlendMode;
use crate::tiling::LayerRect;

verus! {

/// How the source and the destination of a blend are combined.
#[derive(Clone, Copy, Debug, PartialEq, Eq, Structural)]
pub enum Equation {
    Add,
    Max,
}

/// A value that a blend factor is taken from.
#[derive(Clone, Copy, Debug, PartialEq, Eq, Structural)]
pub enum BlendValue {
    SourceColor,
    SourceAlpha,
}

/// What the source or the destination of a blend is multiplied by.
#[derive(Clone, Copy, Debug, PartialEq, Eq, Structural)]
pub enum Factor {
    Zero,
    One,
    ZeroPlus(BlendValue),
    OneMinus(BlendValue),
}

/// The blend of one channel group.
#[derive(Clone, Copy, Debug, PartialEq, Eq, Structural)]
pub struct BlendChannel {
    pub equation: Equation,
    pub source: Factor,
    pub destination: Factor,
}

/// The blend of colour and of alpha.
#[derive(Clone, Copy, Debug, PartialEq, Eq, Structural)]
pub struct Blend {
    pub color: BlendChannel,
    pub alpha: BlendChannel,
}

/// The channel blend that adds the weighted source to the weighted
/// destination.
pub open spec fn additive(source: Factor, destination: Factor) -> BlendChannel {
    BlendChannel { equation: Equation::Add, source, destination }
}

/// The blend equations of a blend state; none for a state that is set up
/// by the device on its own.
pub open spec fn spec_blend_of(state: BlendState) -> Option<Blend> {
    match state {
        BlendState::Alpha => Some(
            Blend {
                color: additive(
                    Factor::ZeroPlus(BlendValue::SourceAlpha),
                    Factor::OneMinus(BlendValue::SourceAlpha),
                ),
                alpha: additive(Factor::One, Factor::OneMinus(BlendValue::SourceAlpha)),
            },
        ),
        BlendState::PremultipliedAlpha => Some(
            Blend {
                color: additive(Factor::One, Factor::OneMinus(BlendValue::SourceAlpha)),
                alpha: additive(Factor::One, Factor::OneMinus(BlendValue::SourceAlpha)),
            },
        ),
        BlendState::SubpixelPass0 => Some(
            Blend { color: additive(Factor::One, Factor::One), alpha: additive(Factor::One, Factor::One) },
        ),
        BlendState::SubpixelPass1 => Some(
            Blend {
                color: additive(Factor::Zero, Factor::OneMinus(BlendValue::SourceColor)),
                alpha: additive(Factor::Zero, Factor::OneMinus(BlendValue::SourceColor)),
            },
        ),
        BlendState::Multiply => Some(
            Blend {
                color: additive(Factor::Zero, Factor::ZeroPlus(BlendValue::SourceColor)),
                alpha: additive(Factor::Zero, Factor::ZeroPlus(BlendValue::SourceAlpha)),
            },
        ),
        BlendState::Max => Some(
            Blend {
                color: BlendChannel {
                    equation: Equation::Max,
                    source: Factor::One,
                    destination: Factor::One,
                },
                alpha: additive(Factor::One, Factor::One),
            },
        ),
        _ => None,
    }
}

fn add_channel(source: Factor, destination: Factor) -> (c: BlendChannel)
    ensures
        c == additive(source, destination),
{
    BlendChannel { equation: Equation::Add, source, destination }
}

/// The blend equations of a blend state; none for a state that is set up
/// by the device on its own.
pub fn blend_of(state: BlendState) -> (blend: Option<Blend>)
    ensures
        blend == spec_blend_of(state),
{
    match state {
        BlendState::Alpha => Some(
            Blend {
                color: add_channel(
                    Factor::ZeroPlus(BlendValue::SourceAlpha),
                    Factor::OneMinus(BlendValue::SourceAlpha),
                ),
                alpha: add_channel(Factor::One, Factor::OneMinus(BlendValue::SourceAlpha)),
            },
        ),
        BlendState::PremultipliedAlpha => Some(
            Blend {
                color: add_channel(Factor::One, Factor::OneMinus(BlendValue::SourceAlpha)),
                alpha: add_channel(Factor::One, Factor::OneMinus(BlendValue::SourceAlpha)),
            },
        ),
        BlendState::SubpixelPass0 => Some(
            Blend {
                color: add_channel(Factor::One, Factor::One),
                alpha: add_channel(Factor::One, Factor::One),
            },
        ),
        BlendState::SubpixelPass1 => Some(
            Blend {
                color: add_channel(Factor::Zero, Factor::OneMinus(BlendValue::SourceColor)),
                alpha: add_channel(Factor::Zero, Factor::OneMinus(BlendValue::SourceColor)),
            },
        ),
        BlendState::Multiply => Some(
            Blend {
                color: add_channel(Factor::Zero, Factor::ZeroPlus(BlendValue::SourceColor)),
                alpha: add_channel(Factor::Zero, Factor::ZeroPlus(BlendValue::SourceAlpha)),
            },
        ),
        BlendState::Max => Some(
            Blend {
                color: BlendChannel {
                    equation: Equation::Max,
                    source: Factor::One,
                    destination: Factor::One,
                },
                alpha: add_channel(Factor::One, Factor::One),
            },
        ),
        _ => None,
    }
}

/// The position of a vertex: `x`, `y`, and zero for depth.
#[derive(Clone, Copy, Debug, PartialEq, Eq)]
pub struct Position {
    pub pos: [F32Bits; 3],
}

impl Position {
    pub fn new(p: [F32Bits; 2]) -> (position: Position)
        ensures
            position.pos == [p[0], p[1], F32Bits(0)],
    {
        Position { pos: [p[0], p[1], F32Bits::zero()] }
    }
}

/// A primitive instance in an upload buffer.
#[derive(Clone, Copy, Debug, PartialEq, Eq)]
pub struct PrimitiveInstances {
    pub data0: [i32; 4],
    pub data1: [i32; 4],
}

impl PrimitiveInstances {
    /// An instance of zeros.
    pub fn new() -> (instance: PrimitiveInstances)
        ensures
            instance.data0 == [0i32, 0i32, 0i32, 0i32],
            instance.data1 == [0i32, 0i32, 0i32, 0i32],
    {
        PrimitiveInstances { data0: [0, 0, 0, 0], data1: [0, 0, 0, 0] }
    }

    /// The record of `instance`: its eight integers, four and four.
    pub open spec fn spec_of(instance: PrimitiveInstance) -> PrimitiveInstances {
        PrimitiveInstances {
            data0: [instance.data[0], instance.data[1], instance.data[2], instance.data[3]],
            data1: [instance.data[4], instance.data[5], instance.data[6], instance.data[7]],
        }
    }

    /// Takes the eight integers of `instance`, four and four.
    pub fn update(&mut self, instance: &PrimitiveInstance)
        ensures
            *final(self) == Self::spec_of(*instance),
    {
        self.data0 = [instance.data[0], instance.data[1], instance.data[2], instance.data[3]];
        self.data1 = [instance.data[4], instance.data[5], instance.data[6], instance.data[7]];
    }
}

/// A debug vertex with a colour.
#[derive(Clone, Copy, Debug, PartialEq, Eq)]
pub struct DebugColorVertices {
    pub pos: [F32Bits; 2],
    pub color: [F32Bits; 4],
}

impl DebugColorVertices {
    pub fn new(pos: [F32Bits; 2], color: [F32Bits; 4]) -> (vertex: DebugColorVertices)
        ensures
            vertex.pos == pos,
            vertex.color == color,
    {
        DebugColorVertices { pos, color }
    }
}

/// A debug vertex with a colour and a place in the font texture.
#[derive(Clone, Copy, Debug, PartialEq, Eq)]
pub struct DebugFontVertices {
    pub pos: [F32Bits; 2],
    pub color: [F32Bits; 4],
    pub tex_coord: [F32Bits; 2],
}

impl DebugFontVertices {
    pub fn new(pos: [F32Bits; 2], color: [F32Bits; 4], tex_coord: [F32Bits; 2]) -> (vertex: DebugFontVertices)
        ensures
            vertex.pos == pos,
            vertex.color == color,
            vertex.tex_coord == tex_coord,
    {
        DebugFontVertices { pos, color, tex_coord }
    }
}

/// A blur instance in an upload buffer.
#[derive(Clone, Copy, Debug, PartialEq, Eq)]
pub struct BlurInstances {
    pub task_address: i32,
    pub src_task_address: i32,
    pub blur_direction: i32,
    pub region: [F32Bits; 4],
}

impl BlurInstances {
    /// An instance of zeros.
    pub fn new() -> (instance: BlurInstances)
        ensures
            instance.task_address == 0,
            instance.src_task_address == 0,
            instance.blur_direction == 0,
            instance.region == [F32Bits(0), F32Bits(0), F32Bits(0), F32Bits(0)],
    {
        BlurInstances {
            task_address: 0,
            src_task_address: 0,
            blur_direction: 0,
            region: [F32Bits::zero(), F32Bits::zero(), F32Bits::zero(), F32Bits::zero()],
        }
    }

    /// The record of `blur_instance` and of the region to blur: the
    /// addresses, the direction, and the region as origin, then size.
    pub open spec fn spec_of(blur_instance: BlurInstance, region: LayerRect) -> BlurInstances {
        BlurInstances {
            task_address: blur_instance.task_address.0 as i32,
            src_task_address: blur_instance.src_task_address.0 as i32,
            blur_direction: blur_instance.blur_direction.spec_code(),
            region: [region.x, region.y, region.width, region.height],
        }
    }

    /// Takes the addresses and the direction of `blur_instance`, and the
    /// region to blur: origin, then size.
    pub fn update(&mut self, blur_instance: &BlurInstance, region: &LayerRect)
        ensures
            *final(self) == Self::spec_of(*blur_instance, *region),
    {
        self.task_address = #[verifier::truncate]
        (blur_instance.task_address.0 as i32);
        self.src_task_address = #[verifier::truncate]
        (blur_instance.src_task_address.0 as i32);
        self.blur_direction = blur_instance.blur_direction.code();
        self.region = [region.x, region.y, region.width, region.height];
    }
}

/// A clip mask instance in an upload buffer.
#[derive(Clone, Copy, Debug, PartialEq, Eq)]
pub struct ClipMaskInstances {
    pub render_task_address: i32,
    pub layer_address: i32,
    pub segment: i32,
    pub data_resource_address: [i32; 4],
}

impl ClipMaskInstances {
    /// An instance of zeros.
    pub fn new() -> (instance: ClipMaskInstances)
        ensures
            instance.render_task_address == 0,
            instance.layer_address == 0,
            instance.segment == 0,
            instance.data_resource_address == [0i32, 0i32, 0i32, 0i32],
    {
        ClipMaskInstances {
            render_task_address: 0,
            layer_address: 0,
            segment: 0,
            data_resource_address: [0, 0, 0, 0],
        }
    }

    /// The record of `instance`: the addresses and the segment; the two
    /// cache addresses go side by side, column before row.
    pub open spec fn spec_of(instance: ClipMaskInstance) -> ClipMaskInstances {
        ClipMaskInstances {
            render_task_address: instance.render_task_address.0 as i32,
            layer_address: instance.scroll_node_data_index.0 as i32,
            segment: instance.segment,
            data_resource_address: [
                instance.clip_data_address.u as i32,
                instance.clip_data_address.v as i32,
                instance.resource_address.u as i32,
                instance.resource_address.v as i32,
            ],
        }
    }

    /// Takes the addresses and the segment of `instance`; the two cache
    /// addresses go side by side, column before row.
    pub fn update(&mut self, instance: &ClipMaskInstance)
        ensures
            *final(self) == Self::spec_of(*instance),
    {
        self.render_task_address = #[verifier::truncate]
        (instance.render_task_address.0 as i32);
        self.layer_address = #[verifier::truncate]
        (instance.scroll_node_data_index.0 as i32);
        self.segment = instance.segment;
        self.data_resource_address = [
            instance.clip_data_address.u as i32,
            instance.clip_data_address.v as i32,
            instance.resource_address.u as i32,
            instance.resource_address.v as i32,
        ];
    }
}

/// The pipeline states of a primitive program: by blending, and by whether
/// depth is written.
#[derive(Clone, Copy, Debug, PartialEq, Eq, Structural)]
pub enum PrimitivePso {
    Opaque { depth_write: bool },
    Alpha { depth_write: bool },
    PremultipliedAlpha { depth_write: bool },
}

/// The pipeline states of a brush program.
#[derive(Clone, Copy, Debug, PartialEq, Eq, Structural)]
pub enum BrushPso {
    Opaque,
    Alpha,
    PremultipliedAlpha,
}

/// The pipeline states of a text program. Text never writes depth.
#[derive(Clone, Copy, Debug, PartialEq, Eq, Structural)]
pub enum TextPso {
    PremultipliedAlpha,
    SubpixelPass0,
    SubpixelPass1,
}

/// The pipeline states of a clip program.
#[derive(Clone, Copy, Debug, PartialEq, Eq, Structural)]
pub enum ClipPso {
    Replace,
    Multiply,
    Max,
}

/// Where in its upload buffer a program writes the next instances.
#[derive(Clone, Copy, Debug, PartialEq, Eq, Structural)]
pub struct UploadCursor {
    pub offset: usize,
}

impl UploadCursor {
    /// At the start of the buffer.
    pub fn new() -> (cursor: UploadCursor)
        ensures
            cursor.offset == 0,
    {
        UploadCursor { offset: 0 }
    }

    /// Back to the start of the buffer.
    pub fn reset_upload_offset(&mut self)
        ensures
            final(self).offset == 0,
    {
        self.offset = 0;
    }

    /// Whether `count` more instances fit the buffer.
    pub fn has_room(&self, count: usize) -> (b: bool)
        ensures
            b == (self.offset + count <= MAX_INSTANCE_COUNT),
    {
        self.offset <= MAX_INSTANCE_COUNT && count <= MAX_INSTANCE_COUNT - self.offset
    }

    /// Takes room for `count` instances and returns where they start.
    pub fn bind(&mut self, count: usize) -> (start: usize)
        requires
            old(self).offset + count <= MAX_INSTANCE_COUNT,
        ensures
            start == old(self).offset,
            final(self).offset == old(self).offset + count,
    {
        let start = self.offset;
        self.offset = self.offset + count;
        start
    }
}

/// The records that primitive instances become in an upload buffer.
pub open spec fn primitive_records(instances: Seq<PrimitiveInstance>) -> Seq<PrimitiveInstances> {
    instances.map_values(|i: PrimitiveInstance| PrimitiveInstances::spec_of(i))
}

/// The records that blurs and their regions become in an upload buffer.
pub open spec fn blur_records(instances: Seq<(BlurInstance, LayerRect)>) -> Seq<BlurInstances> {
    instances.map_values(|i: (BlurInstance, LayerRect)| BlurInstances::spec_of(i.0, i.1))
}

/// The records that clip masks become in an upload buffer.
pub open spec fn clip_mask_records(instances: Seq<ClipMaskInstance>) -> Seq<ClipMaskInstances> {
    instances.map_values(|i: ClipMaskInstance| ClipMaskInstances::spec_of(i))
}

/// Writes the records of `instances`, in order.
pub fn write_primitives(instances: &Vec<PrimitiveInstance>) -> (records: Vec<PrimitiveInstances>)
    ensures
        records@ == primitive_records(instances@),
{
    let mut records: Vec<PrimitiveInstances> = Vec::new();
    let mut i: usize = 0;
    while i < instances.len()
        invariant
            i <= instances@.len(),
            records@.len() == i,
            forall|k: int| 0 <= k < i ==> #[trigger] records@[k] == PrimitiveInstances::spec_of(instances@[k]),
        decreases instances@.len() - i,
    {
        let mut record = PrimitiveInstances::new();
        record.update(&instances[i]);
        records.push(record);
        i += 1;
    }
    assert(records@ =~= primitive_records(instances@));
    records
}

/// Writes the records of `instances`, in order.
pub fn write_blurs(instances: &Vec<(BlurInstance, LayerRect)>) -> (records: Vec<BlurInstances>)
    ensures
        records@ == blur_records(instances@),
{
    let mut records: Vec<BlurInstances> = Vec::new();
    let mut i: usize = 0;
    while i < instances.len()
        invariant
            i <= instances@.len(),
            records@.len() == i,
            forall|k: int|
                0 <= k < i ==> #[trigger] records@[k] == BlurInstances::spec_of(
                    instances@[k].0,
                    instances@[k].1,
                ),
        decreases instances@.len() - i,
    {
        let mut record = BlurInstances::new();
        record.update(&instances[i].0, &instances[i].1);
        records.push(record);
        i += 1;
    }
    assert(records@ =~= blur_records(instances@));
    records
}

/// Writes the records of `instances`, in order.
pub fn write_clip_masks(instances: &Vec<ClipMaskInstance>) -> (records: Vec<ClipMaskInstances>)
    ensures
        records@ == clip_mask_records(instances@),
{
    let mut records: Vec<ClipMaskInstances> = Vec::new();
    let mut i: usize = 0;
    while i < instances.len()
        invariant
            i <= instances@.len(),
            records@.len() == i,
            forall|k: int| 0 <= k < i ==> #[trigger] records@[k] == ClipMaskInstances::spec_of(instances@[k]),
        decreases instances@.len() - i,
    {
        let mut record = ClipMaskInstances::new();
        record.update(&instances[i]);
        records.push(record);
        i += 1;
    }
    assert(records@ =~= clip_mask_records(instances@));
    records
}

/// A program that draws primitives.
#[derive(Clone, Copy, Debug, PartialEq, Eq, Structural)]
pub struct Program {
    pub upload: UploadCursor,
}

impl Program {
    pub fn new() -> (program: Program)
        ensures
            program.upload.offset == 0,
    {
        Program { upload: UploadCursor::new() }
    }

    /// The pipeline state for `blend`: the one with alpha blending or with
    /// premultiplied alpha blending for those two modes, the one without
    /// blending for any other.
    pub open spec fn spec_get_pso(blend: BlendMode, depth_write: bool) -> PrimitivePso {
        match blend {
            BlendMode::Alpha => PrimitivePso::Alpha { depth_write },
            BlendMode::PremultipliedAlpha => PrimitivePso::PremultipliedAlpha { depth_write },
            _ => PrimitivePso::Opaque { depth_write },
        }
    }

    pub fn get_pso(&self, blend: &BlendMode, depth_write: bool) -> (pso: PrimitivePso)
        ensures
            pso == Self::spec_get_pso(*blend, depth_write),
    {
        match *blend {
            BlendMode::Alpha => PrimitivePso::Alpha { depth_write },
            BlendMode::PremultipliedAlpha => PrimitivePso::PremultipliedAlpha { depth_write },
            _ => PrimitivePso::Opaque { depth_write },
        }
    }

    pub fn reset_upload_offset(&mut self)
        ensures
            final(self).upload.offset == 0,
    {
        self.upload.reset_upload_offset();
    }

    /// Writes the records of `instances` to the upload buffer, behind what
    /// was written since the offset was reset, and returns where they
    /// start and what they are. The buffer must have room for them.
    pub fn bind(&mut self, instances: &Vec<PrimitiveInstance>) -> (bound: (usize, Vec<PrimitiveInstances>))
        requires
            old(self).upload.offset + instances@.len() <= MAX_INSTANCE_COUNT,
        ensures
            bound.0 == old(self).upload.offset,
            bound.1@ == primitive_records(instances@),
            final(self).upload.offset == old(self).upload.offset + instances@.len(),
    {
        let records = write_primitives(instances);
        let start = self.upload.bind(instances.len());
        (start, records)
    }
}

/// A program that draws brushes.
#[derive(Clone, Copy, Debug, PartialEq, Eq, Structural)]
pub struct BrushProgram {
    pub upload: UploadCursor,
}

impl BrushProgram {
    pub fn new() -> (program: BrushProgram)
        ensures
            program.upload.offset == 0,
    {
        BrushProgram { upload: UploadCursor::new() }
    }

    /// The pipeline state for `blend`.
    pub open spec fn spec_get_pso(blend: BlendMode) -> BrushPso {
        match blend {
            BlendMode::Alpha => BrushPso::Alpha,
            BlendMode::PremultipliedAlpha => BrushPso::PremultipliedAlpha,
            _ => BrushPso::Opaque,
        }
    }

    pub fn get_pso(&self, blend: &BlendMode) -> (pso: BrushPso)
        ensures
            pso == Self::spec_get_pso(*blend),
    {
        match *blend {
            BlendMode::Alpha => BrushPso::Alpha,
            BlendMode::PremultipliedAlpha => BrushPso::PremultipliedAlpha,
            _ => BrushPso::Opaque,
        }
    }

    pub fn reset_upload_offset(&mut self)
        ensures
            final(self).upload.offset == 0,
    {
        self.upload.reset_upload_offset();
    }

    /// Writes the records of `instances` to the upload buffer, behind what
    /// was written since the offset was reset, and returns where they
    /// start and what they are. The buffer must have room for them.
    pub fn bind(&mut self, instances: &Vec<PrimitiveInstance>) -> (bound: (usize, Vec<PrimitiveInstances>))
        requires
            old(self).upload.offset + instances@.len() <= MAX_INSTANCE_COUNT,
        ensures
            bound.0 == old(self).upload.offset,
            bound.1@ == primitive_records(instances@),
            final(self).upload.offset == old(self).upload.offset + instances@.len(),
    {
        let records = write_primitives(instances);
        let start = self.upload.bind(instances.len());
        (start, records)
    }
}

/// A program that draws text runs.
#[derive(Clone, Copy, Debug, PartialEq, Eq, Structural)]
pub struct TextProgram {
    pub upload: UploadCursor,
}

impl TextProgram {
    pub fn new() -> (program: TextProgram)
        ensures
            program.upload.offset == 0,
    {
        TextProgram { upload: UploadCursor::new() }
    }

    /// The blend mode and the pass name a pipeline state of text:
    /// premultiplied alpha, or one of the two passes of subpixel text of
    /// varying colour.
    pub open spec fn has_pso(blend: BlendMode, pass_number: Option<i32>) -> bool {
        blend is PremultipliedAlpha || (blend is SubpixelVariableTextColor && (pass_number
            == Some(0i32) || pass_number == Some(1i32)))
    }

    /// The pipeline state for `blend` and the pass.
    pub open spec fn spec_get_pso(blend: BlendMode, pass_number: Option<i32>) -> TextPso {
        if blend is PremultipliedAlpha {
            TextPso::PremultipliedAlpha
        } else if pass_number == Some(0i32) {
            TextPso::SubpixelPass0
        } else {
            TextPso::SubpixelPass1
        }
    }

    pub fn get_pso(&self, blend: &BlendMode, pass_number: Option<i32>) -> (pso: TextPso)
        requires
            Self::has_pso(*blend, pass_number),
        ensures
            pso == Self::spec_get_pso(*blend, pass_number),
    {
        match *blend {
            BlendMode::PremultipliedAlpha => TextPso::PremultipliedAlpha,
            _ => match pass_number {
                Some(0) => TextPso::SubpixelPass0,
                _ => TextPso::SubpixelPass1,
            },
        }
    }

    pub fn reset_upload_offset(&mut self)
        ensures
            final(self).upload.offset == 0,
    {
        self.upload.reset_upload_offset();
    }

    /// Writes the records of `instances` to the upload buffer, behind what
    /// was written since the offset was reset, and returns where they
    /// start and what they are. The buffer must have room for them.
    pub fn bind(&mut self, instances: &Vec<PrimitiveInstance>) -> (bound: (usize, Vec<PrimitiveInstances>))
        requires
            old(self).upload.offset + instances@.len() <= MAX_INSTANCE_COUNT,
        ensures
            bound.0 == old(self).upload.offset,
            bound.1@ == primitive_records(instances@),
            final(self).upload.offset == old(self).upload.offset + instances@.len(),
    {
        let records = write_primitives(instances);
        let start = self.upload.bind(instances.len());
        (start, records)
    }
}

/// A program that blurs.
#[derive(Clone, Copy, Debug, PartialEq, Eq, Structural)]
pub struct BlurProgram {
    pub upload: UploadCursor,
}

impl BlurProgram {
    pub fn new() -> (program: BlurProgram)
        ensures
            program.upload.offset == 0,
    {
        BlurProgram { upload: UploadCursor::new() }
    }

    pub fn reset_upload_offset(&mut self)
        ensures
            final(self).upload.offset == 0,
    {
        self.upload.reset_upload_offset();
    }

    /// Writes the records of `instances` to the upload buffer, behind what
    /// was written since the offset was reset, and returns where they
    /// start and what they are. The buffer must have room for them.
    pub fn bind(&mut self, instances: &Vec<(BlurInstance, LayerRect)>) -> (bound: (usize, Vec<BlurInstances>))
        requires
            old(self).upload.offset + instances@.len() <= MAX_INSTANCE_COUNT,
        ensures
            bound.0 == old(self).upload.offset,
            bound.1@ == blur_records(instances@),
            final(self).upload.offset == old(self).upload.offset + instances@.len(),
    {
        let records = write_blurs(instances);
        let start = self.upload.bind(instances.len());
        (start, records)
    }
}

/// A program that draws clip masks.
#[derive(Clone, Copy, Debug, PartialEq, Eq, Structural)]
pub struct ClipProgram {
    pub upload: UploadCursor,
}

impl ClipProgram {
    pub fn new() -> (program: ClipProgram)
        ensures
            program.upload.offset == 0,
    {
        ClipProgram { upload: UploadCursor::new() }
    }

    /// The pipeline state for the blend state that the device is in: the
    /// multiplying or the maximum one for those two, the replacing one for
    /// any other and for none.
    pub open spec fn spec_get_pso(blend: Option<BlendState>) -> ClipPso {
        match blend {
            Some(BlendState::Multiply) => ClipPso::Multiply,
            Some(BlendState::Max) => ClipPso::Max,
            _ => ClipPso::Replace,
        }
    }

    pub fn get_pso(&self, blend: &Option<BlendState>) -> (pso: ClipPso)
        ensures
            pso == Self::spec_get_pso(*blend),
    {
        match *blend {
            Some(BlendState::Multiply) => ClipPso::Multiply,
            Some(BlendState::Max) => ClipPso::Max,
            _ => ClipPso::Replace,
        }
    }

    pub fn reset_upload_offset(&mut self)
        ensures
            final(self).upload.offset == 0,
    {
        self.upload.reset_upload_offset();
    }

    /// Writes the records of `instances` to the upload buffer, behind what
    /// was written since the offset was reset, and returns where they
    /// start and what they are. The buffer must have room for them.
    pub fn bind(&mut self, instances: &Vec<ClipMaskInstance>) -> (bound: (usize, Vec<ClipMaskInstances>))
        requires
            old(self).upload.offset + instances@.len() <= MAX_INSTANCE_COUNT,
        ensures
            bound.0 == old(self).upload.offset,
            bound.1@ == clip_mask_records(instances@),
            final(self).upload.offset == old(self).upload.offset + instances@.len(),
    {
        let records = write_clip_masks(instances);
        let start = self.upload.bind(instances.len());
        (start, records)
    }
}

impl Device {
    /// The pipeline states of a primitive program, in the order in which
    /// they are built: without blending, with alpha blending, with
    /// premultiplied alpha blending; each first writing depth, then only
    /// testing it.
    pub fn create_prim_psos(&self) -> (psos: [PrimitivePso; 6])
        ensures
            psos == [
                PrimitivePso::Opaque { depth_write: true },
                PrimitivePso::Opaque { depth_write: false },
                PrimitivePso::Alpha { depth_write: true },
                PrimitivePso::Alpha { depth_write: false },
                PrimitivePso::PremultipliedAlpha { depth_write: true },
                PrimitivePso::PremultipliedAlpha { depth_write: false },
            ],
    {
        [
            PrimitivePso::Opaque { depth_write: true },
            PrimitivePso::Opaque { depth_write: false },
            PrimitivePso::Alpha { depth_write: true },
            PrimitivePso::Alpha { depth_write: false },
            PrimitivePso::PremultipliedAlpha { depth_write: true },
            PrimitivePso::PremultipliedAlpha { depth_write: false },
        ]
    }

    /// The pipeline states of a brush program, in the order in which they
    /// are built.
    pub fn create_brush_psos(&self) -> (psos: [BrushPso; 3])
        ensures
            psos == [BrushPso::Opaque, BrushPso::Alpha, BrushPso::PremultipliedAlpha],
    {
        [BrushPso::Opaque, BrushPso::Alpha, BrushPso::PremultipliedAlpha]
    }

    /// The pipeline states of a text program, in the order in which they
    /// are built.
    pub fn create_text_psos(&self) -> (psos: [TextPso; 3])
        ensures
            psos == [TextPso::PremultipliedAlpha, TextPso::SubpixelPass0, TextPso::SubpixelPass1],
    {
        [TextPso::PremultipliedAlpha, TextPso::SubpixelPass0, TextPso::SubpixelPass1]
    }

    /// The pipeline states of a clip program, in the order in which they
    /// are built.
    pub fn create_clip_psos(&self) -> (psos: [ClipPso; 3])
        ensures
            psos == [ClipPso::Replace, ClipPso::Multiply, ClipPso::Max],
    {
        [ClipPso::Replace, ClipPso::Multiply, ClipPso::Max]
    }
}

/// How a pipeline state treats depth.
#[derive(Clone, Copy, Debug, PartialEq, Eq, Structural)]
pub enum DepthMode {
    /// Pass where nearer or equal, and write.
    LessEqualWrite,
    /// Pass where nearer or equal, and leave depth as it is.
    LessEqualTest,
}

/// What a pipeline state of a primitive program is built with.
#[derive(Clone, Copy, Debug, PartialEq, Eq, Structural)]
pub struct PrimitivePsoDesc {
    pub blend: Option<BlendState>,
    pub depth: DepthMode,
}

impl PrimitivePso {
    /// What the pipeline state is built with.
    pub open spec fn spec_desc(self) -> PrimitivePsoDesc {
        match self {
            PrimitivePso::Opaque { depth_write } => PrimitivePsoDesc {
                blend: None,
                depth: spec_depth_mode(depth_write),
            },
            PrimitivePso::Alpha { depth_write } => PrimitivePsoDesc {
                blend: Some(BlendState::Alpha),
                depth: spec_depth_mode(depth_write),
            },
            PrimitivePso::PremultipliedAlpha { depth_write } => PrimitivePsoDesc {
                blend: Some(BlendState::PremultipliedAlpha),
                depth: spec_depth_mode(depth_write),
            },
        }
    }

    /// What the pipeline state is built with.
    pub fn desc(self) -> (d: PrimitivePsoDesc)
        ensures
            d == self.spec_desc(),
    {
        match self {
            PrimitivePso::Opaque { depth_write } => PrimitivePsoDesc {
                blend: None,
                depth: depth_mode(depth_write),
            },
            PrimitivePso::Alpha { depth_write } => PrimitivePsoDesc {
                blend: Some(BlendState::Alpha),
                depth: depth_mode(depth_write),
            },
            PrimitivePso::PremultipliedAlpha { depth_write } => PrimitivePsoDesc {
                blend: Some(BlendState::PremultipliedAlpha),
                depth: depth_mode(depth_write),
            },
        }
    }
}

/// Depth is written where the pipeline state says so, and tested always.
pub open spec fn spec_depth_mode(depth_write: bool) -> DepthMode {
    if depth_write {
        DepthMode::LessEqualWrite
    } else {
        DepthMode::LessEqualTest
    }
}

fn depth_mode(depth_write: bool) -> (d: DepthMode)
    ensures
        d == spec_depth_mode(depth_write),
{
    if depth_write {
        DepthMode::LessEqualWrite
    } else {
        DepthMode::LessEqualTest
    }
}

impl TextPso {
    /// The blend state that the pipeline state is built with. Text tests
    /// depth and never writes it.
    pub open spec fn spec_blend(self) -> BlendState {
        match self {
            TextPso::PremultipliedAlpha => BlendState::PremultipliedAlpha,
            TextPso::SubpixelPass0 => BlendState::SubpixelPass0,
            TextPso::SubpixelPass1 => BlendState::SubpixelPass1,
        }
    }

    pub fn blend(self) -> (b: BlendState)
        ensures
            b == self.spec_blend(),
    {
        match self {
            TextPso::PremultipliedAlpha => BlendState::PremultipliedAlpha,
            TextPso::SubpixelPass0 => BlendState::SubpixelPass0,
            TextPso::SubpixelPass1 => BlendState::SubpixelPass1,
        }
    }
}

} // verus!
