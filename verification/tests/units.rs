use webrender::units::{
    rect, DeviceIntPoint, DeviceIntRect, DeviceIntSize, DeviceUintPoint, DeviceUintRect,
    DeviceUintSize,
};

fn urect(x: u32, y: u32, w: u32, h: u32) -> DeviceUintRect {
    DeviceUintRect::new(DeviceUintPoint::new(x, y), DeviceUintSize::new(w, h))
}

#[test]
fn unsigned_rects_intersect() {
    assert!(urect(0, 0, 10, 10).intersects(&urect(5, 5, 10, 10)));
    assert!(urect(5, 5, 10, 10).intersects(&urect(0, 0, 10, 10)));
    assert!(urect(0, 0, 10, 10).intersects(&urect(9, 9, 1, 1)));
}

#[test]
fn unsigned_rects_that_only_touch_do_not_intersect() {
    assert!(!urect(0, 0, 10, 10).intersects(&urect(10, 0, 10, 10)));
    assert!(!urect(0, 0, 10, 10).intersects(&urect(0, 10, 10, 10)));
    assert!(!urect(0, 0, 10, 10).intersects(&urect(20, 20, 5, 5)));
}

#[test]
fn empty_rects_on_the_edge_intersect_nothing() {
    assert!(!urect(10, 3, 0, 0).intersects(&urect(0, 0, 10, 10)));
    assert!(!urect(0, 0, 10, 10).intersects(&urect(3, 10, 0, 5)));
    assert!(!urect(0, 0, 0, 0).intersects(&urect(0, 0, 10, 10)));
}

#[test]
fn an_empty_rect_inside_begins_before_the_other_ends() {
    assert!(urect(3, 3, 0, 0).intersects(&urect(0, 0, 10, 10)));
}

#[test]
fn overlaps_agrees_with_intersects_and_takes_any_rect() {
    assert!(urect(0, 0, 10, 10).overlaps(&urect(5, 5, 10, 10)));
    assert!(!urect(0, 0, 10, 10).overlaps(&urect(10, 0, 10, 10)));
    let huge = urect(u32::MAX - 1, 0, 10, 10);
    assert!(!huge.check_fits());
    assert!(huge.overlaps(&urect(u32::MAX - 1, 5, 1, 1)));
    assert!(!huge.overlaps(&urect(0, 0, 10, 10)));
}

#[test]
fn signed_rects_intersect() {
    let a = rect(-5, -5, 10, 10);
    assert!(a.intersects(&rect(0, 0, 10, 10)));
    assert!(!a.intersects(&rect(5, 0, 10, 10)));
    assert!(!a.intersects(&rect(5, 5, 0, 0)));
    assert!(a.intersects(&rect(0, 0, 0, 0)));
    let far = rect(i32::MAX - 1, i32::MAX - 1, i32::MAX, i32::MAX);
    assert!(far.intersects(&rect(i32::MAX, i32::MAX, 1, 1)));
}

#[test]
fn conversions_to_signed() {
    assert_eq!(
        urect(1, 2, 3, 4).to_i32(),
        DeviceIntRect::new(DeviceIntPoint::new(1, 2), DeviceIntSize::new(3, 4))
    );
    assert_eq!(DeviceUintSize::new(7, 9).to_i32(), DeviceIntSize::new(7, 9));
    assert_eq!(DeviceUintPoint::zero(), DeviceUintPoint::new(0, 0));
    assert_eq!(DeviceUintSize::zero(), DeviceUintSize::new(0, 0));
    assert_eq!(DeviceIntPoint::zero(), DeviceIntPoint::new(0, 0));
}
