use video_streaming::{DetectionImage, GenericImage, ImageDimension};

#[test]
fn generic_image_reports_its_size() {
    let img = GenericImage::new(4, 2, vec![1; 24]);
    assert_eq!(img.dimension(), ImageDimension { width: 4, height: 2 });
    let empty = GenericImage::default();
    assert_eq!(empty.dimension(), ImageDimension { width: 0, height: 0 });
    assert!(empty.pixel_buffer().is_empty());
}

#[test]
fn pixel_buffer_is_an_independent_copy() {
    let img = GenericImage::new(1, 1, vec![10, 20, 30]);
    let mut v = img.pixel_buffer();
    assert_eq!(v, vec![10, 20, 30]);
    v[0] = 99;
    assert_eq!(img.pixel_buffer(), vec![10, 20, 30]);
}
