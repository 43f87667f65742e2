use webrender::api::{ColorF, F32Bits};
use webrender::batch::{
    BatchKey, BatchKind, BatchList, BatchTextures, BrushBatchKind, GlyphFormat, PrimitiveDraw,
    TransformBatchKind,
};
use webrender::gpu_types::PrimitiveInstance;
use webrender::internal_types::{CacheTextureId, SourceTexture};
use webrender::render_task::RenderTaskId;
use webrender::renderer::{BlendMode, ImageBufferKind};
use webrender::units::{rect, DeviceIntRect};
use webrender::util::TransformedRectKind;

fn key(kind: BatchKind, blend_mode: BlendMode, texture: usize) -> BatchKey {
    BatchKey::new(
        kind,
        blend_mode,
        BatchTextures::color(SourceTexture::TextureCache(CacheTextureId(texture))),
    )
}

fn solid(blend_mode: BlendMode) -> BatchKey {
    BatchKey::new(
        BatchKind::Brush(BrushBatchKind::Solid),
        blend_mode,
        BatchTextures::no_texture(),
    )
}

fn image(blend_mode: BlendMode, texture: usize) -> BatchKey {
    key(
        BatchKind::Transformable(
            TransformedRectKind::AxisAligned,
            TransformBatchKind::Image(ImageBufferKind::Texture2D),
        ),
        blend_mode,
        texture,
    )
}

fn draw(n: i32, key: BatchKey, bounding_rect: DeviceIntRect) -> PrimitiveDraw {
    PrimitiveDraw { key, instance: PrimitiveInstance { data: [n; 8] }, bounding_rect }
}

fn ids(instances: &[PrimitiveInstance]) -> Vec<i32> {
    instances.iter().map(|i| i.data[0]).collect()
}

#[test]
fn every_instance_of_a_batch_has_the_key_of_the_batch() {
    let draws = vec![
        draw(0, solid(BlendMode::NoBlend), rect(0, 0, 10, 10)),
        draw(1, image(BlendMode::Alpha, 1), rect(20, 0, 10, 10)),
        draw(2, image(BlendMode::Alpha, 2), rect(40, 0, 10, 10)),
        draw(3, solid(BlendMode::NoBlend), rect(60, 0, 10, 10)),
        draw(4, image(BlendMode::Alpha, 1), rect(80, 0, 10, 10)),
        draw(5, image(BlendMode::PremultipliedAlpha, 1), rect(100, 0, 10, 10)),
        draw(6, image(BlendMode::NoBlend, 1), rect(120, 0, 10, 10)),
        draw(7, image(BlendMode::Alpha, 2), rect(140, 0, 10, 10)),
    ];
    let list = BatchList::build(&draws);
    let mut seen = vec![0usize; draws.len()];
    let all = list
        .opaque_batch_list
        .batches
        .iter()
        .chain(list.alpha_batch_list.batches.iter());
    for batch in all {
        assert!(!batch.instances.is_empty());
        assert_eq!(batch.instances.len(), batch.item_rects.len());
        for (instance, item_rect) in batch.instances.iter().zip(batch.item_rects.iter()) {
            let source = &draws[instance.data[0] as usize];
            assert_eq!(source.key, batch.key);
            assert_eq!(source.bounding_rect, *item_rect);
            seen[instance.data[0] as usize] += 1;
        }
    }
    assert_eq!(seen, vec![1; draws.len()]);
}

#[test]
fn opaque_and_blended_primitives_are_kept_apart() {
    let draws = vec![
        draw(0, solid(BlendMode::NoBlend), rect(0, 0, 10, 10)),
        draw(1, solid(BlendMode::Alpha), rect(0, 0, 10, 10)),
        draw(2, image(BlendMode::NoBlend, 3), rect(0, 0, 10, 10)),
        draw(3, solid(BlendMode::NoBlend), rect(0, 0, 10, 10)),
    ];
    let list = BatchList::build(&draws);
    assert_eq!(list.opaque_batch_list.batches.len(), 2);
    assert_eq!(ids(&list.opaque_batch_list.batches[0].instances), vec![0, 3]);
    assert_eq!(ids(&list.opaque_batch_list.batches[1].instances), vec![2]);
    assert_eq!(list.alpha_batch_list.batches.len(), 1);
    assert_eq!(ids(&list.alpha_batch_list.batches[0].instances), vec![1]);
    assert!(!list.is_empty());
    assert!(BatchList::new().is_empty());
}

#[test]
fn a_blended_primitive_joins_an_earlier_batch_only_past_what_it_does_not_overlap() {
    let a = image(BlendMode::Alpha, 1);
    let b = image(BlendMode::Alpha, 2);
    // 0 and 2 have the same key; 1 lies between them and does not overlap 2.
    let apart = BatchList::build(&vec![
        draw(0, a, rect(0, 0, 10, 10)),
        draw(1, b, rect(50, 50, 10, 10)),
        draw(2, a, rect(5, 5, 10, 10)),
    ]);
    assert_eq!(apart.alpha_batch_list.batches.len(), 2);
    assert_eq!(ids(&apart.alpha_batch_list.batches[0].instances), vec![0, 2]);
    assert_eq!(ids(&apart.alpha_batch_list.batches[1].instances), vec![1]);
    // Now 1 overlaps 2: 2 must be drawn after 1 and opens a batch.
    let over = BatchList::build(&vec![
        draw(0, a, rect(0, 0, 10, 10)),
        draw(1, b, rect(8, 8, 10, 10)),
        draw(2, a, rect(5, 5, 10, 10)),
    ]);
    assert_eq!(over.alpha_batch_list.batches.len(), 3);
    assert_eq!(ids(&over.alpha_batch_list.batches[2].instances), vec![2]);
}

#[test]
fn overlapping_blended_primitives_are_drawn_in_input_order() {
    let keys = [
        image(BlendMode::Alpha, 1),
        image(BlendMode::Alpha, 2),
        image(BlendMode::PremultipliedAlpha, 1),
        solid(BlendMode::Alpha),
    ];
    let mut draws = Vec::new();
    for n in 0..40i32 {
        let k = keys[((n * 7 + n / 3) % 4) as usize];
        let x = (n * 13) % 50;
        let y = (n * 29) % 40;
        draws.push(draw(n, k, rect(x, y, 12, 9)));
    }
    let list = BatchList::build(&draws);
    let mut place = vec![(0usize, 0usize); draws.len()];
    for (b, batch) in list.alpha_batch_list.batches.iter().enumerate() {
        for (p, instance) in batch.instances.iter().enumerate() {
            place[instance.data[0] as usize] = (b, p);
        }
    }
    let mut overlapping_pairs = 0;
    for i in 0..draws.len() {
        for j in i + 1..draws.len() {
            if draws[i].bounding_rect.intersects(&draws[j].bounding_rect) {
                overlapping_pairs += 1;
                assert!(place[i] < place[j], "{} must be drawn before {}", i, j);
            }
        }
    }
    assert!(overlapping_pairs > 0);
    assert!(list.alpha_batch_list.batches.len() < draws.len());
}

#[test]
fn a_composite_is_a_batch_of_its_own() {
    let composite = BatchKey::new(
        BatchKind::Composite {
            task_id: RenderTaskId(1),
            source_id: RenderTaskId(2),
            backdrop_id: RenderTaskId(3),
        },
        BlendMode::Alpha,
        BatchTextures::no_texture(),
    );
    assert!(composite.is_composite());
    let list = BatchList::build(&vec![
        draw(0, composite, rect(0, 0, 10, 10)),
        draw(1, composite, rect(100, 100, 10, 10)),
    ]);
    assert_eq!(list.alpha_batch_list.batches.len(), 2);
    assert_eq!(ids(&list.alpha_batch_list.batches[0].instances), vec![0]);
    assert_eq!(ids(&list.alpha_batch_list.batches[1].instances), vec![1]);
}

#[test]
fn text_that_is_drawn_in_several_passes_never_joins_a_batch_that_it_overlaps() {
    let text = |mode: BlendMode| {
        key(
            BatchKind::Transformable(
                TransformedRectKind::AxisAligned,
                TransformBatchKind::TextRun(GlyphFormat::Subpixel),
            ),
            mode,
            1,
        )
    };
    let two_pass = text(BlendMode::SubpixelVariableTextColor);
    assert!(two_pass.is_multi_pass());
    assert!(text(BlendMode::SubpixelWithBgColor).is_multi_pass());
    let one_pass = text(BlendMode::SubpixelConstantTextColor(ColorF::new(
        F32Bits(1),
        F32Bits(2),
        F32Bits(3),
        F32Bits(4),
    )));
    assert!(!one_pass.is_multi_pass());
    let overlapping = |k: BatchKey| {
        BatchList::build(&vec![draw(0, k, rect(0, 0, 10, 10)), draw(1, k, rect(5, 5, 10, 10))])
            .alpha_batch_list
            .batches
            .len()
    };
    assert_eq!(overlapping(two_pass), 2);
    assert_eq!(overlapping(one_pass), 1);
    let apart = BatchList::build(&vec![
        draw(0, two_pass, rect(0, 0, 10, 10)),
        draw(1, two_pass, rect(50, 5, 10, 10)),
    ]);
    assert_eq!(apart.alpha_batch_list.batches.len(), 1);
}

#[test]
fn adding_one_by_one_is_building() {
    let draws = vec![
        draw(0, image(BlendMode::Alpha, 1), rect(0, 0, 10, 10)),
        draw(1, solid(BlendMode::NoBlend), rect(0, 0, 10, 10)),
        draw(2, image(BlendMode::Alpha, 1), rect(3, 3, 10, 10)),
    ];
    let mut list = BatchList::new();
    for d in &draws {
        list.add(d);
    }
    assert_eq!(list, BatchList::build(&draws));
    assert_eq!(
        list.alpha_batch_list.get_suitable_batch(&image(BlendMode::Alpha, 1), &rect(0, 0, 1, 1)),
        Some(0)
    );
    assert_eq!(
        list.alpha_batch_list.get_suitable_batch(&image(BlendMode::Alpha, 9), &rect(0, 0, 1, 1)),
        None
    );
    assert_eq!(list.opaque_batch_list.get_suitable_batch(&solid(BlendMode::NoBlend)), Some(0));
    assert_eq!(list.opaque_batch_list.get_suitable_batch(&solid(BlendMode::Alpha)), None);
}

#[test]
fn batch_textures() {
    let t = BatchTextures::color(SourceTexture::CacheA8);
    assert_eq!(t.get(0), SourceTexture::CacheA8);
    assert_eq!(t.get(1), SourceTexture::Invalid);
    assert_eq!(t.get(2), SourceTexture::Invalid);
    assert_eq!(BatchTextures::no_texture().get(0), SourceTexture::Invalid);
}

/// Source-over blending of one channel.
fn over(below: f32, above: f32, alpha: f32) -> f32 {
    above * alpha + below * (1.0 - alpha)
}

/// The colour and the opacity of the primitive with the given number.
fn paint_of(n: usize) -> ([f32; 3], f32) {
    let shade = (n as f32 * 37.0) % 255.0 / 255.0;
    ([shade, 1.0 - shade, (shade * 3.0) % 1.0], 0.25 + (n % 3) as f32 * 0.25)
}

#[test]
fn batched_drawing_matches_the_painters_algorithm() {
    // Opaque tiles side by side, and translucent sheets that overlap each
    // other and the tiles, in a known stacking order.
    let draws = vec![
        draw(0, solid(BlendMode::NoBlend), rect(0, 0, 4, 4)),
        draw(1, image(BlendMode::Alpha, 1), rect(2, 2, 6, 6)),
        draw(2, solid(BlendMode::NoBlend), rect(4, 0, 4, 4)),
        draw(3, image(BlendMode::Alpha, 2), rect(0, 0, 8, 3)),
        draw(4, image(BlendMode::Alpha, 1), rect(3, 1, 3, 6)),
        draw(5, solid(BlendMode::NoBlend), rect(0, 4, 4, 4)),
        draw(6, image(BlendMode::Alpha, 2), rect(1, 1, 2, 7)),
        draw(7, image(BlendMode::Alpha, 1), rect(9, 9, 1, 1)),
        draw(8, solid(BlendMode::NoBlend), rect(4, 4, 4, 4)),
        draw(9, image(BlendMode::Alpha, 2), rect(5, 5, 5, 5)),
    ];
    let list = BatchList::build(&draws);
    let covers = |r: &DeviceIntRect, x: i32, y: i32| {
        r.origin.x <= x
            && x < r.origin.x + r.size.width
            && r.origin.y <= y
            && y < r.origin.y + r.size.height
    };
    for y in 0..10 {
        for x in 0..10 {
            // The reference: every primitive in stacking order.
            let mut expected = [0.0f32; 3];
            for (n, d) in draws.iter().enumerate() {
                if covers(&d.bounding_rect, x, y) {
                    let (color, alpha) = paint_of(n);
                    for c in 0..3 {
                        expected[c] = if d.key.is_opaque() {
                            color[c]
                        } else {
                            over(expected[c], color[c], alpha)
                        };
                    }
                }
            }
            // The batches: opaque ones last batch first with depth test
            // and depth write, then blended ones in order with depth test.
            let mut pixel = [0.0f32; 3];
            let mut nearest = -1;
            for batch in list.opaque_batch_list.batches.iter().rev() {
                for (instance, item_rect) in batch.instances.iter().zip(batch.item_rects.iter()) {
                    let n = instance.data[0];
                    if covers(item_rect, x, y) && n >= nearest {
                        pixel = paint_of(n as usize).0;
                        nearest = n;
                    }
                }
            }
            for batch in list.alpha_batch_list.batches.iter() {
                for (instance, item_rect) in batch.instances.iter().zip(batch.item_rects.iter()) {
                    let n = instance.data[0];
                    if covers(item_rect, x, y) && n >= nearest {
                        let (color, alpha) = paint_of(n as usize);
                        for c in 0..3 {
                            pixel[c] = over(pixel[c], color[c], alpha);
                        }
                    }
                }
            }
            for c in 0..3 {
                assert!(
                    (pixel[c] - expected[c]).abs() <= 1.0 / 255.0,
                    "pixel ({}, {}) channel {}: {} for {}",
                    x,
                    y,
                    c,
                    pixel[c],
                    expected[c]
                );
            }
        }
    }
    // The sheets were batched, not drawn one by one.
    assert!(list.alpha_batch_list.batches.len() < 6);
}
