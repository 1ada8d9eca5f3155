use gfx_backend_vulkan::handles::{
    Buffer, Extent3D, Fence, Image, ImageType, ImageView, Semaphore, ShaderModule,
    SubresourceRange,
};

#[test]
fn plain_handles_are_equal_iff_identifiers_match() {
    assert_eq!(Fence(5), Fence(5));
    assert_ne!(Fence(5), Fence(6));
    assert_eq!(Semaphore(0), Semaphore(0));
    assert_eq!(Buffer { raw: 9 }, Buffer { raw: 9 });
    assert_ne!(Buffer { raw: 9 }, Buffer { raw: 10 });
    assert_eq!(ShaderModule { raw: 1 }, ShaderModule { raw: 1 });
}

#[test]
fn image_equality_includes_creation_parameters() {
    let extent = Extent3D {
        width: 64,
        height: 64,
        depth: 1,
    };
    let img = Image {
        raw: 3,
        ty: ImageType::D2,
        flags: 0,
        extent,
    };
    let same = Image {
        raw: 3,
        ty: ImageType::D2,
        flags: 0,
        extent,
    };
    let other_extent = Image {
        raw: 3,
        ty: ImageType::D2,
        flags: 0,
        extent: Extent3D {
            width: 32,
            height: 64,
            depth: 1,
        },
    };
    let other_ty = Image {
        raw: 3,
        ty: ImageType::D3,
        flags: 0,
        extent,
    };
    assert_eq!(img, same);
    assert_ne!(img, other_extent);
    assert_ne!(img, other_ty);
}

#[test]
fn image_view_equality_includes_range_and_back_reference() {
    let range = SubresourceRange {
        aspects: 1,
        level_start: 0,
        level_end: 4,
        layer_start: 0,
        layer_end: 1,
    };
    let v = ImageView {
        image: 3,
        view: 8,
        range,
    };
    let same = ImageView {
        image: 3,
        view: 8,
        range,
    };
    let other_parent = ImageView {
        image: 4,
        view: 8,
        range,
    };
    let other_range = ImageView {
        image: 3,
        view: 8,
        range: SubresourceRange {
            aspects: 1,
            level_start: 0,
            level_end: 2,
            layer_start: 0,
            layer_end: 1,
        },
    };
    assert_eq!(v, same);
    assert_ne!(v, other_parent);
    assert_ne!(v, other_range);
}
