use webrender::api::F32Bits;
use webrender::device::DeviceCapabilities;
use webrender::device::{Device, DeviceCommand, ScatterPoint, ShaderId, UploadData};
use webrender::gpu_cache::{
    CacheBus, CacheRow, CacheTexture, GpuBlockData, GpuCacheUpdate, GpuCacheUpdateList,
    MAX_VERTEX_TEXTURE_WIDTH,
};
use webrender::gpu_types::GpuCacheAddress;
use webrender::units::{DeviceUintPoint, DeviceUintRect, DeviceUintSize};

const CAPS: DeviceCapabilities =
    DeviceCapabilities { max_texture_size: 4096, supports_dual_source_blending: true };

fn block(n: u32) -> GpuBlockData {
    GpuBlockData { data: [F32Bits(n), F32Bits(n + 1), F32Bits(n + 2), F32Bits(n + 3)] }
}

fn copy(block_index: usize, block_count: usize, u: u16, v: u16) -> GpuCacheUpdate {
    GpuCacheUpdate::Copy { block_index, block_count, address: GpuCacheAddress::new(u, v) }
}

fn rows_of(cache: &CacheTexture) -> Vec<bool> {
    match &cache.bus {
        CacheBus::PixelBuffer { rows, .. } => rows.iter().map(|r| r.is_dirty).collect(),
        CacheBus::Scatter { .. } => Vec::new(),
    }
}

fn blocks_of(cache: &CacheTexture) -> Vec<GpuBlockData> {
    match &cache.bus {
        CacheBus::PixelBuffer { cpu_blocks, .. } => cpu_blocks.clone(),
        CacheBus::Scatter { .. } => Vec::new(),
    }
}

#[test]
fn new_cache_is_empty() {
    let cache = CacheTexture::new(false);
    assert_eq!(cache.get_height(), 0);
    assert!(rows_of(&cache).is_empty());
    assert!(blocks_of(&cache).is_empty());
    assert_eq!(GpuBlockData::empty(), GpuBlockData { data: [F32Bits(0); 4] });
}

#[test]
fn row_growth_scenario() {
    let mut device = Device::new(CAPS);
    let mut cache = CacheTexture::new(false);
    let list = GpuCacheUpdateList {
        height: 6,
        updates: vec![copy(0, 4, 0, 5)],
        blocks: vec![block(10), block(20), block(30), block(40)],
    };
    assert!(list.is_well_formed());
    cache.prepare_for_updates(&mut device, 6);
    assert_eq!(cache.get_height(), 6);
    cache.update(&list);

    assert_eq!(rows_of(&cache), vec![false, false, false, false, false, true]);
    let blocks = blocks_of(&cache);
    assert_eq!(blocks.len(), 6 * MAX_VERTEX_TEXTURE_WIDTH);
    for i in 0..5 * MAX_VERTEX_TEXTURE_WIDTH {
        assert_eq!(blocks[i], GpuBlockData::empty());
    }
    let start = 5 * MAX_VERTEX_TEXTURE_WIDTH;
    assert_eq!(blocks[start], block(10));
    assert_eq!(blocks[start + 1], block(20));
    assert_eq!(blocks[start + 2], block(30));
    assert_eq!(blocks[start + 3], block(40));
    assert_eq!(blocks[start + 4], GpuBlockData::empty());

    let commands_before = device.commands.len();
    let buffers_before = device.buffers.len();
    let rows_dirty = cache.flush(&mut device);
    assert_eq!(rows_dirty, 1);
    assert_eq!(device.commands.len(), commands_before + 1);
    assert_eq!(device.buffers.len(), buffers_before + 1);
    match &device.buffers[buffers_before] {
        UploadData::GpuBlocks(data) => {
            assert_eq!(data.len(), MAX_VERTEX_TEXTURE_WIDTH);
            assert_eq!(data[0], block(10));
            assert_eq!(data[3], block(40));
            assert_eq!(data[4], GpuBlockData::empty());
        }
        other => panic!("unexpected upload {:?}", other),
    }
    match device.commands[commands_before] {
        DeviceCommand::UpdateResourceCache { rect, data } => {
            assert_eq!(
                rect,
                DeviceUintRect::new(DeviceUintPoint::new(0, 5), DeviceUintSize::new(1024, 1))
            );
            assert_eq!(data.0, buffers_before);
        }
        other => panic!("unexpected command {:?}", other),
    }
    assert_eq!(rows_of(&cache), vec![false; 6]);
}

#[test]
fn rows_never_shrink_and_flush_cleans() {
    let mut device = Device::new(CAPS);
    let mut cache = CacheTexture::new(false);
    cache.prepare_for_updates(&mut device, 8);
    let lists = vec![
        GpuCacheUpdateList { height: 8, updates: vec![copy(0, 1, 3, 2)], blocks: vec![block(1)] },
        GpuCacheUpdateList { height: 8, updates: vec![copy(0, 1, 0, 0)], blocks: vec![block(2)] },
        GpuCacheUpdateList {
            height: 8,
            updates: vec![copy(0, 1, 1023, 7), copy(1, 1, 5, 1)],
            blocks: vec![block(3), block(4)],
        },
    ];
    let mut last = 0;
    let mut counts = Vec::new();
    for list in &lists {
        assert!(list.is_well_formed());
        cache.update(list);
        let n = rows_of(&cache).len();
        assert!(n >= last);
        last = n;
        counts.push(n);
    }
    assert_eq!(counts, vec![3, 3, 8]);
    assert_eq!(
        rows_of(&cache),
        vec![true, true, true, false, false, false, false, true]
    );
    let blocks = blocks_of(&cache);
    assert_eq!(blocks[2 * 1024 + 3], block(1));
    assert_eq!(blocks[0], block(2));
    assert_eq!(blocks[7 * 1024 + 1023], block(3));
    assert_eq!(blocks[1024 + 5], block(4));
    assert_eq!(cache.flush(&mut device), 4);
    assert!(rows_of(&cache).iter().all(|dirty| !dirty));
    assert_eq!(rows_of(&cache).len(), 8);
    assert_eq!(cache.flush(&mut device), 0);
    assert_eq!(blocks_of(&cache), blocks);
}

#[test]
fn later_update_overwrites_earlier_one() {
    let mut device = Device::new(CAPS);
    let mut cache = CacheTexture::new(false);
    cache.prepare_for_updates(&mut device, 1);
    let list = GpuCacheUpdateList {
        height: 1,
        updates: vec![copy(0, 2, 4, 0), copy(2, 1, 5, 0)],
        blocks: vec![block(1), block(2), block(3)],
    };
    cache.update(&list);
    let blocks = blocks_of(&cache);
    assert_eq!(blocks[4], block(1));
    assert_eq!(blocks[5], block(3));
}

#[test]
fn growing_the_texture_marks_all_rows_dirty() {
    let mut device = Device::new(CAPS);
    let mut cache = CacheTexture::new(false);
    cache.prepare_for_updates(&mut device, 2);
    cache.update(&GpuCacheUpdateList {
        height: 2,
        updates: vec![copy(0, 1, 0, 1)],
        blocks: vec![block(1)],
    });
    cache.flush(&mut device);
    assert_eq!(rows_of(&cache), vec![false, false]);
    let before = device.commands.len();
    cache.prepare_for_updates(&mut device, 2);
    assert_eq!(device.commands.len(), before);
    assert_eq!(rows_of(&cache), vec![false, false]);
    cache.prepare_for_updates(&mut device, 4);
    assert_eq!(
        device.commands[before],
        DeviceCommand::ResizeGpuCache { width: 1024, height: 4 }
    );
    assert_eq!(cache.get_height(), 4);
    assert_eq!(rows_of(&cache), vec![true, true]);
}

#[test]
fn list_well_formedness() {
    let good = GpuCacheUpdateList {
        height: 3,
        updates: vec![copy(1, 2, 1022, 2)],
        blocks: vec![block(0), block(1), block(2)],
    };
    assert!(good.is_well_formed());
    let past_payload = GpuCacheUpdateList {
        height: 3,
        updates: vec![copy(2, 2, 0, 0)],
        blocks: vec![block(0), block(1), block(2)],
    };
    assert!(!past_payload.is_well_formed());
    let past_row_end = GpuCacheUpdateList {
        height: 3,
        updates: vec![copy(0, 2, 1023, 0)],
        blocks: vec![block(0), block(1)],
    };
    assert!(!past_row_end.is_well_formed());
    let past_height = GpuCacheUpdateList {
        height: 3,
        updates: vec![copy(0, 1, 0, 3)],
        blocks: vec![block(0)],
    };
    assert!(!past_height.is_well_formed());
}

#[test]
fn scatter_draws_one_point_per_block() {
    let mut device = Device::new(CAPS);
    let mut cache = CacheTexture::new(true);
    cache.prepare_for_updates(&mut device, 4);
    cache.update(&GpuCacheUpdateList {
        height: 4,
        updates: vec![copy(0, 2, 7, 3), copy(2, 1, 0, 1)],
        blocks: vec![block(1), block(2), block(3)],
    });
    assert!(rows_of(&cache).is_empty());
    let before = device.commands.len();
    assert_eq!(cache.flush(&mut device), 0);
    assert_eq!(
        &device.commands[before..],
        &[
            DeviceCommand::DisableDepth,
            DeviceCommand::SetBlend(false),
            DeviceCommand::CreateProgram(ShaderId::GpuCacheUpdate),
            DeviceCommand::DrawPoints {
                program: ShaderId::GpuCacheUpdate,
                points: webrender::device::BufferId(0)
            },
        ]
    );
    assert_eq!(
        device.buffers[0],
        UploadData::ScatterPoints(vec![
            ScatterPoint { x: 7, y: 3, value: block(1) },
            ScatterPoint { x: 8, y: 3, value: block(2) },
            ScatterPoint { x: 0, y: 1, value: block(3) },
        ])
    );
    let before = device.commands.len();
    cache.flush(&mut device);
    assert_eq!(device.commands.len(), before + 3);
    assert_eq!(device.buffers[1], UploadData::ScatterPoints(Vec::new()));
}

#[test]
fn a_mirror_of_broken_rows_is_not_well_formed() {
    let mut cache = CacheTexture::new(false);
    assert!(cache.is_well_formed());
    if let CacheBus::PixelBuffer { rows, .. } = &mut cache.bus {
        rows.push(CacheRow::new());
    }
    assert!(!cache.is_well_formed());
    if let CacheBus::PixelBuffer { cpu_blocks, .. } = &mut cache.bus {
        cpu_blocks.resize(MAX_VERTEX_TEXTURE_WIDTH, GpuBlockData::empty());
    }
    assert!(cache.is_well_formed());
    assert!(CacheTexture::new(true).is_well_formed());
}
