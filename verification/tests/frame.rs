use std::sync::Arc;

use std::collections::hash_map::DefaultHasher;
use std::hash::{Hash, Hasher};

use iced_ruffle::frame::{
    content_hash, prepare_target, FrameData, FramePrimitive, FrameProgram, PreparePlan, Target,
};

fn std_hash(data: &Vec<u8>) -> u64 {
    let mut hasher = DefaultHasher::new();
    data.hash(&mut hasher);
    hasher.finish()
}

#[test]
fn content_hash_is_the_std_hash_of_the_pixels() {
    for data in [vec![], vec![0u8], vec![1, 2, 3, 4, 5, 6, 7, 8], vec![255; 1000]] {
        assert_eq!(content_hash(&data), std_hash(&data));
    }
}

#[test]
fn identical_pixels_hash_alike_and_different_pixels_differ() {
    let a = content_hash(&[0, 0, 0, 255, 9, 9, 9, 255]);
    let b = content_hash(&vec![0, 0, 0, 255, 9, 9, 9, 255]);
    let c = content_hash(&[0, 0, 0, 255, 9, 9, 8, 255]);
    assert_eq!(a, b);
    assert_ne!(a, c);
}

#[test]
fn program_draws_its_frame() {
    let data = Arc::new(FrameData { width: 3, height: 2, data: vec![7; 24] });
    let program = FrameProgram { version: 42, frame: data.clone() };
    let primitive = program.draw();
    assert_eq!(primitive.version(), 42);
    let f = primitive.frame().as_ref().unwrap();
    assert!(Arc::ptr_eq(f, &data));
    assert_eq!(f.width, 3);
}

#[test]
fn first_prepare_creates_and_uploads() {
    let mut target = None;
    let plan = prepare_target(&mut target, 4, 3, 10);
    assert_eq!(plan, PreparePlan { recreate: true, upload: true });
    assert_eq!(target, Some(Target { width: 4, height: 3, version: 10 }));
}

#[test]
fn same_frame_again_does_nothing() {
    let mut target = None;
    prepare_target(&mut target, 4, 3, 10);
    let plan = prepare_target(&mut target, 4, 3, 10);
    assert_eq!(plan, PreparePlan { recreate: false, upload: false });
    assert_eq!(target, Some(Target { width: 4, height: 3, version: 10 }));
}

#[test]
fn new_version_same_size_uploads_only() {
    let mut target = Some(Target { width: 4, height: 3, version: 10 });
    let plan = prepare_target(&mut target, 4, 3, 11);
    assert_eq!(plan, PreparePlan { recreate: false, upload: true });
    assert_eq!(target, Some(Target { width: 4, height: 3, version: 11 }));
}

#[test]
fn new_size_recreates_and_uploads() {
    let mut target = Some(Target { width: 4, height: 3, version: 10 });
    let plan = prepare_target(&mut target, 8, 3, 10);
    assert_eq!(plan, PreparePlan { recreate: true, upload: true });
    assert_eq!(target, Some(Target { width: 8, height: 3, version: 10 }));
}

#[test]
fn new_texture_is_filled_whatever_the_version() {
    let mut target = None;
    let plan = prepare_target(&mut target, 1, 1, u64::MAX);
    assert_eq!(plan, PreparePlan { recreate: true, upload: true });
    assert_eq!(target, Some(Target { width: 1, height: 1, version: u64::MAX }));
    let mut resized = Some(Target { width: 1, height: 1, version: 4 });
    let plan = prepare_target(&mut resized, 2, 1, 4);
    assert_eq!(plan, PreparePlan { recreate: true, upload: true });
}

#[test]
fn primitive_without_frame_leaves_texture() {
    let mut target = Some(Target { width: 2, height: 2, version: 5 });
    let plan = FramePrimitive::new(9, None).plan(&mut target);
    assert_eq!(plan, PreparePlan { recreate: false, upload: false });
    assert_eq!(target, Some(Target { width: 2, height: 2, version: 5 }));
}

#[test]
fn primitive_with_frame_prepares_it() {
    let mut target = Some(Target { width: 2, height: 2, version: 5 });
    let frame = Arc::new(FrameData { width: 2, height: 2, data: vec![0; 16] });
    let plan = FramePrimitive::new(6, Some(frame)).plan(&mut target);
    assert_eq!(plan, PreparePlan { recreate: false, upload: true });
    assert_eq!(target, Some(Target { width: 2, height: 2, version: 6 }));
}
