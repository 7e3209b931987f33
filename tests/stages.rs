use nftimg::{combine_base_and_edge, gray_from_lab, ColorSpace, Image, StageError};

fn image(width: usize, height: usize, space: ColorSpace, data: Vec<u8>) -> Image {
    Image::new(width, height, space, data).expect("sample count matches size")
}

#[test]
fn new_checks_sample_count() {
    assert!(Image::new(2, 2, ColorSpace::Bgr, vec![0; 12]).is_some());
    assert!(Image::new(2, 2, ColorSpace::Bgr, vec![0; 11]).is_none());
    assert!(Image::new(2, 2, ColorSpace::Gray, vec![0; 4]).is_some());
    assert!(Image::new(2, 2, ColorSpace::Gray, vec![0; 12]).is_none());
    assert!(Image::new(0, 5, ColorSpace::Lab, vec![]).is_some());
    assert!(Image::new(usize::MAX, 2, ColorSpace::Gray, vec![]).is_none());
}

#[test]
fn accessors_report_construction() {
    let img = image(3, 1, ColorSpace::Lab, vec![1, 2, 3, 4, 5, 6, 7, 8, 9]);
    assert_eq!(img.width(), 3);
    assert_eq!(img.height(), 1);
    assert_eq!(img.space(), ColorSpace::Lab);
    assert_eq!(img.data(), &vec![1, 2, 3, 4, 5, 6, 7, 8, 9]);
    assert_eq!(ColorSpace::Bgr.channels(), 3);
    assert_eq!(ColorSpace::Lab.channels(), 3);
    assert_eq!(ColorSpace::Gray.channels(), 1);
}

#[test]
fn gray_from_lab_takes_channel_zero() {
    let lab = image(2, 2, ColorSpace::Lab, vec![10, 1, 2, 20, 3, 4, 30, 5, 6, 40, 7, 8]);
    let gray = gray_from_lab(&lab).unwrap();
    assert_eq!(gray.width(), 2);
    assert_eq!(gray.height(), 2);
    assert_eq!(gray.space(), ColorSpace::Gray);
    assert_eq!(gray.data(), &vec![10, 20, 30, 40]);
}

#[test]
fn gray_from_lab_refuses_other_spaces() {
    let bgr = image(1, 1, ColorSpace::Bgr, vec![1, 2, 3]);
    assert_eq!(gray_from_lab(&bgr).err(), Some(StageError::WrongColorSpace));
    let gray = image(1, 1, ColorSpace::Gray, vec![1]);
    assert_eq!(gray_from_lab(&gray).err(), Some(StageError::WrongColorSpace));
}

#[test]
fn composite_with_full_mask_keeps_base() {
    let data: Vec<u8> = (0..18).map(|v| v * 7).collect();
    let base = image(3, 2, ColorSpace::Bgr, data.clone());
    let mask = image(3, 2, ColorSpace::Gray, vec![255; 6]);
    let out = combine_base_and_edge(&base, &mask).unwrap();
    assert_eq!(out.width(), 3);
    assert_eq!(out.height(), 2);
    assert_eq!(out.space(), ColorSpace::Bgr);
    assert_eq!(out.data(), &data);
}

#[test]
fn composite_with_empty_mask_is_black() {
    let base = image(3, 2, ColorSpace::Bgr, vec![200; 18]);
    let mask = image(3, 2, ColorSpace::Gray, vec![0; 6]);
    let out = combine_base_and_edge(&base, &mask).unwrap();
    assert_eq!(out.width(), 3);
    assert_eq!(out.height(), 2);
    assert_eq!(out.data(), &vec![0; 18]);
}

#[test]
fn composite_masks_pixel_by_pixel() {
    let base = image(2, 1, ColorSpace::Bgr, vec![11, 12, 13, 21, 22, 23]);
    let mask = image(2, 1, ColorSpace::Gray, vec![0, 1]);
    let out = combine_base_and_edge(&base, &mask).unwrap();
    assert_eq!(out.data(), &vec![0, 0, 0, 21, 22, 23]);
}

#[test]
fn composite_of_empty_images() {
    let base = image(0, 0, ColorSpace::Bgr, vec![]);
    let mask = image(0, 0, ColorSpace::Gray, vec![]);
    let out = combine_base_and_edge(&base, &mask).unwrap();
    assert!(out.data().is_empty());
}

#[test]
fn composite_refuses_wrong_spaces() {
    let lab = image(1, 1, ColorSpace::Lab, vec![1, 2, 3]);
    let bgr = image(1, 1, ColorSpace::Bgr, vec![1, 2, 3]);
    let mask = image(1, 1, ColorSpace::Gray, vec![255]);
    assert_eq!(combine_base_and_edge(&lab, &mask).err(), Some(StageError::WrongColorSpace));
    assert_eq!(combine_base_and_edge(&bgr, &bgr).err(), Some(StageError::WrongColorSpace));
}

#[test]
fn composite_refuses_size_mismatch() {
    let base = image(2, 1, ColorSpace::Bgr, vec![1, 2, 3, 4, 5, 6]);
    let tall = image(1, 2, ColorSpace::Gray, vec![255, 255]);
    assert_eq!(combine_base_and_edge(&base, &tall).err(), Some(StageError::SizeMismatch));
    let small = image(1, 1, ColorSpace::Gray, vec![255]);
    assert_eq!(combine_base_and_edge(&base, &small).err(), Some(StageError::SizeMismatch));
}

#[test]
fn gray_from_lab_refuses_empty_image() {
    let flat = image(0, 0, ColorSpace::Lab, vec![]);
    assert_eq!(gray_from_lab(&flat).err(), Some(StageError::EmptyImage));
    let no_rows = image(4, 0, ColorSpace::Lab, vec![]);
    assert_eq!(gray_from_lab(&no_rows).err(), Some(StageError::EmptyImage));
    let no_cols = image(0, 4, ColorSpace::Lab, vec![]);
    assert_eq!(gray_from_lab(&no_cols).err(), Some(StageError::EmptyImage));
    let empty_bgr = image(0, 0, ColorSpace::Bgr, vec![]);
    assert_eq!(gray_from_lab(&empty_bgr).err(), Some(StageError::WrongColorSpace));
}

#[test]
fn composite_keeps_first_pixel_blacks_second() {
    let base = image(2, 1, ColorSpace::Bgr, vec![10, 20, 30, 40, 50, 60]);
    let mask = image(2, 1, ColorSpace::Gray, vec![255, 0]);
    let out = combine_base_and_edge(&base, &mask).unwrap();
    assert_eq!(out.data(), &vec![10, 20, 30, 0, 0, 0]);
}

#[test]
fn composite_any_nonzero_mask_value_keeps_color() {
    let base = image(1, 1, ColorSpace::Bgr, vec![7, 8, 9]);
    let mask = image(1, 1, ColorSpace::Gray, vec![1]);
    let out = combine_base_and_edge(&base, &mask).unwrap();
    assert_eq!(out.data(), &vec![7, 8, 9]);
}

#[test]
fn composite_twice_with_same_mask_is_once() {
    let base = image(3, 1, ColorSpace::Bgr, vec![1, 2, 3, 4, 5, 6, 7, 8, 9]);
    let mask = image(3, 1, ColorSpace::Gray, vec![0, 9, 255]);
    let once = combine_base_and_edge(&base, &mask).unwrap();
    let twice = combine_base_and_edge(&once, &mask).unwrap();
    assert_eq!(twice.data(), once.data());
    assert_eq!(once.data(), &vec![0, 0, 0, 4, 5, 6, 7, 8, 9]);
}

#[test]
fn composite_masks_in_either_order_meet() {
    let base = image(4, 1, ColorSpace::Bgr, (1..=12).collect());
    let m1 = image(4, 1, ColorSpace::Gray, vec![0, 3, 0, 255]);
    let m2 = image(4, 1, ColorSpace::Gray, vec![0, 0, 5, 1]);
    let both = image(4, 1, ColorSpace::Gray, vec![0, 0, 0, 255]);
    let a = combine_base_and_edge(&combine_base_and_edge(&base, &m1).unwrap(), &m2).unwrap();
    let b = combine_base_and_edge(&combine_base_and_edge(&base, &m2).unwrap(), &m1).unwrap();
    let c = combine_base_and_edge(&base, &both).unwrap();
    assert_eq!(a.data(), c.data());
    assert_eq!(b.data(), c.data());
    assert_eq!(c.data(), &vec![0, 0, 0, 0, 0, 0, 0, 0, 0, 10, 11, 12]);
}
