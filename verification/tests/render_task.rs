use webrender::api::ImageFormat;
use webrender::gpu_types::{BlurDirection, BlurInstance, RenderTaskAddress};
use webrender::render_task::{
    RenderTargetIndex, RenderTargetKind, RenderTask, RenderTaskId, RenderTaskKind,
    RenderTaskLocation, RenderTaskTree,
};
use webrender::tiling::{build_passes, RenderPassKind, TargetCursor};
use webrender::units::{DeviceUintPoint, DeviceUintSize};

fn task(children: &[usize], kind: RenderTaskKind, w: u32, h: u32) -> RenderTask {
    RenderTask {
        children: children.iter().map(|c| RenderTaskId(*c)).collect(),
        kind,
        size: DeviceUintSize::new(w, h),
        location: None,
    }
}

fn blur(children: &[usize], w: u32, h: u32) -> RenderTask {
    task(
        children,
        RenderTaskKind::Blur {
            target_kind: RenderTargetKind::Color,
            direction: BlurDirection::Vertical,
        },
        w,
        h,
    )
}

fn blur_instance(task: u32, source: u32, blur_direction: BlurDirection) -> BlurInstance {
    BlurInstance {
        task_address: RenderTaskAddress(task),
        src_task_address: RenderTaskAddress(source),
        blur_direction,
    }
}

fn tree_of(tasks: Vec<RenderTask>) -> RenderTaskTree {
    let mut tree = RenderTaskTree::new();
    for t in tasks {
        assert!(tree.add(t).is_some());
    }
    tree
}

#[test]
fn dependencies_run_in_earlier_passes() {
    // 0   1   2
    //  \ /    |
    //   3     4
    //    \   /|
    //      5  6
    let tree = tree_of(vec![
        blur(&[], 8, 8),
        blur(&[], 8, 8),
        blur(&[], 8, 8),
        blur(&[0, 1], 8, 8),
        blur(&[2], 8, 8),
        blur(&[3, 4], 8, 8),
        blur(&[4], 8, 8),
    ]);
    let passes = tree.assign_passes();
    assert_eq!(passes, vec![0, 0, 0, 1, 1, 2, 2]);
    for (t, task) in tree.tasks.iter().enumerate() {
        for child in &task.children {
            assert!(passes[child.0] < passes[t]);
        }
    }
    assert_eq!(tree.pass_count(), 3);
}

#[test]
fn pass_is_one_more_than_the_latest_dependency() {
    let tree = tree_of(vec![
        blur(&[], 8, 8),
        blur(&[0], 8, 8),
        blur(&[1], 8, 8),
        blur(&[0, 2], 8, 8),
    ]);
    assert_eq!(tree.assign_passes(), vec![0, 1, 2, 3]);
}

#[test]
fn empty_tree_has_no_passes() {
    let mut tree = RenderTaskTree::new();
    assert_eq!(tree.pass_count(), 0);
    assert!(tree.assign_passes().is_empty());
    let passes = build_passes(&mut tree, DeviceUintSize::new(2048, 2048));
    assert!(passes.is_empty());
}

#[test]
fn a_task_cannot_depend_on_a_later_task() {
    let mut tree = RenderTaskTree::new();
    assert_eq!(tree.add(blur(&[], 8, 8)), Some(RenderTaskId(0)));
    assert_eq!(tree.add(blur(&[1], 8, 8)), None);
    assert_eq!(tree.add(blur(&[5], 8, 8)), None);
    assert_eq!(tree.tasks.len(), 1);
    assert_eq!(tree.add(blur(&[0], 8, 8)), Some(RenderTaskId(1)));
}

#[test]
fn pass_splitting_scenario() {
    let mut tree = tree_of(vec![
        blur(&[], 64, 64),
        blur(&[], 64, 64),
        blur(&[], 64, 64),
        task(
            &[0, 1, 2],
            RenderTaskKind::Picture {
                content_origin: webrender::render_task::ContentOrigin::Screen(
                    webrender::units::DeviceIntPoint::new(0, 0),
                ),
                target_kind: RenderTargetKind::Color,
            },
            256,
            256,
        ),
    ]);
    let passes = build_passes(&mut tree, DeviceUintSize::new(2048, 2048));
    assert_eq!(passes.len(), 2);
    assert_eq!(passes[0].tasks, vec![RenderTaskId(0), RenderTaskId(1), RenderTaskId(2)]);
    assert_eq!(passes[1].tasks, vec![RenderTaskId(3)]);
    match &passes[0].kind {
        RenderPassKind::OffScreen { alpha, color, texture_cache } => {
            assert_eq!(alpha.targets.len(), 0);
            assert_eq!(alpha.format, ImageFormat::A8);
            assert_eq!(color.targets.len(), 1);
            assert_eq!(color.format, ImageFormat::BGRA8);
            assert_eq!(color.max_size, DeviceUintSize::new(64, 192));
            assert!(color.texture.is_none());
            assert!(texture_cache.is_empty());
            // The three blurs are drawn in this pass, in the order of
            // their tasks.
            assert_eq!(
                color.targets[0].vertical_blurs,
                vec![
                    blur_instance(0, 0, BlurDirection::Vertical),
                    blur_instance(1, 1, BlurDirection::Vertical),
                    blur_instance(2, 2, BlurDirection::Vertical),
                ]
            );
            assert!(color.targets[0].horizontal_blurs.is_empty());
        }
        _ => panic!("the first pass is off-screen"),
    }
    // None of them is drawn in the last pass, which holds the composite.
    match &passes[1].kind {
        RenderPassKind::MainFramebuffer(target) => {
            assert!(target.vertical_blurs.is_empty());
            assert!(target.horizontal_blurs.is_empty());
        }
        _ => panic!("the last pass draws to the window"),
    }
    let ys: Vec<u32> = tree.tasks[..3]
        .iter()
        .map(|t| t.location.unwrap().origin.y)
        .collect();
    assert_eq!(ys, vec![0, 64, 128]);
    for t in &tree.tasks[..3] {
        assert_eq!(t.location.unwrap().target_index, RenderTargetIndex(0));
    }
    assert_eq!(
        tree.tasks[3].location,
        Some(RenderTaskLocation {
            origin: DeviceUintPoint::new(0, 0),
            target_index: RenderTargetIndex(0)
        })
    );
}

#[test]
fn tasks_are_bucketed_by_kind_and_split_over_layers() {
    let mask = |children: &[usize], h: u32| task(children, RenderTaskKind::CacheMask, 100, h);
    let mut tree = tree_of(vec![
        mask(&[], 60),
        blur(&[], 10, 70),
        mask(&[], 50),
        mask(&[], 40),
        blur(&[], 10, 20),
        blur(&[0, 1, 2, 3, 4], 10, 10),
    ]);
    let passes = build_passes(&mut tree, DeviceUintSize::new(128, 100));
    assert_eq!(passes.len(), 2);
    match &passes[0].kind {
        RenderPassKind::OffScreen { alpha, color, .. } => {
            // Masks of 60, 50 and 40 rows: 60 | 50 + 40.
            assert_eq!(alpha.targets.len(), 2);
            assert_eq!(alpha.max_size, DeviceUintSize::new(100, 90));
            // Blurs of 70 and 20 rows fit one layer.
            assert_eq!(color.targets.len(), 1);
            assert_eq!(color.max_size, DeviceUintSize::new(10, 90));
        }
        _ => panic!("the first pass is off-screen"),
    }
    let place = |i: usize| {
        let l = tree.tasks[i].location.unwrap();
        (l.target_index.0, l.origin.x, l.origin.y)
    };
    assert_eq!(place(0), (0, 0, 0));
    assert_eq!(place(2), (1, 0, 0));
    assert_eq!(place(3), (1, 0, 50));
    assert_eq!(place(1), (0, 0, 0));
    assert_eq!(place(4), (0, 0, 70));
    // No two tasks of one list share a pixel.
    let same_list = [vec![0usize, 2, 3], vec![1usize, 4]];
    for list in &same_list {
        for a in list {
            for b in list {
                if a < b {
                    let (la, _, ya) = place(*a);
                    let (lb, _, yb) = place(*b);
                    assert!(la != lb || ya + tree.tasks[*a].size.height <= yb);
                }
            }
        }
    }
}

#[test]
fn cursor_placement_formula() {
    let atlas = DeviceUintSize::new(100, 100);
    let mut cursor = TargetCursor::new();
    let first = cursor.place(DeviceUintSize::new(30, 40), atlas);
    assert_eq!((first.target_index.0, first.origin.y), (0, 0));
    assert_eq!((cursor.layers, cursor.y, cursor.max_width, cursor.max_height), (1, 40, 30, 40));
    let second = cursor.place(DeviceUintSize::new(50, 60), atlas);
    assert_eq!((second.target_index.0, second.origin.y), (0, 40));
    assert_eq!((cursor.layers, cursor.y, cursor.max_width, cursor.max_height), (1, 100, 50, 100));
    let third = cursor.place(DeviceUintSize::new(10, 1), atlas);
    assert_eq!((third.target_index.0, third.origin.y), (1, 0));
    assert_eq!((cursor.layers, cursor.y, cursor.max_width, cursor.max_height), (2, 1, 50, 100));
}

#[test]
fn target_kind_of_tasks() {
    assert_eq!(RenderTaskKind::ClipMask.target_kind(), RenderTargetKind::Alpha);
    assert_eq!(RenderTaskKind::CacheMask.target_kind(), RenderTargetKind::Alpha);
    assert_eq!(RenderTaskKind::Readback.target_kind(), RenderTargetKind::Color);
    assert_eq!(
        RenderTaskKind::Scaling { target_kind: RenderTargetKind::Alpha }.target_kind(),
        RenderTargetKind::Alpha
    );
}

#[test]
fn blurs_lie_in_the_layer_of_their_task() {
    let horizontal = |children: &[usize], h: u32| {
        task(
            children,
            RenderTaskKind::Blur {
                target_kind: RenderTargetKind::Alpha,
                direction: BlurDirection::Horizontal,
            },
            100,
            h,
        )
    };
    // 0: mask, 1: vertical colour blur of nothing, 2: mask,
    // 3: horizontal coverage blur of 0 and 1, 4: the same in the next
    // layer, 5: the root.
    let mut tree = tree_of(vec![
        task(&[], RenderTaskKind::CacheMask, 100, 60),
        blur(&[], 10, 70),
        task(&[], RenderTaskKind::CacheMask, 100, 50),
        horizontal(&[0, 1], 60),
        horizontal(&[2], 60),
        blur(&[3, 4], 10, 10),
    ]);
    let passes = build_passes(&mut tree, DeviceUintSize::new(128, 100));
    assert_eq!(passes.len(), 3);
    match &passes[0].kind {
        RenderPassKind::OffScreen { alpha, color, .. } => {
            assert_eq!(alpha.targets.len(), 2);
            assert!(alpha.targets.iter().all(|t| t.horizontal_blurs.is_empty()));
            assert!(alpha.targets.iter().all(|t| t.vertical_blurs.is_empty()));
            assert_eq!(color.targets.len(), 1);
            assert_eq!(
                color.targets[0].vertical_blurs,
                vec![blur_instance(1, 1, BlurDirection::Vertical)]
            );
        }
        _ => panic!("the first pass is off-screen"),
    }
    match &passes[1].kind {
        RenderPassKind::OffScreen { alpha, color, .. } => {
            assert_eq!(color.targets.len(), 0);
            assert_eq!(alpha.targets.len(), 2);
            // Each blur reads its first dependency.
            assert_eq!(
                alpha.targets[0].horizontal_blurs,
                vec![blur_instance(3, 0, BlurDirection::Horizontal)]
            );
            assert_eq!(
                alpha.targets[1].horizontal_blurs,
                vec![blur_instance(4, 2, BlurDirection::Horizontal)]
            );
            assert!(alpha.targets[0].vertical_blurs.is_empty());
        }
        _ => panic!("the second pass is off-screen"),
    }
    assert!(matches!(passes[2].kind, RenderPassKind::MainFramebuffer(_)));
}
