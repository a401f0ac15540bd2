use easygpu::geometry::{ExtentsRect, Point, Size, SizedRect};

#[test]
fn area_is_width_times_height() {
    assert_eq!(Size { width: 640u32, height: 480u32 }.area(), 307_200);
    assert_eq!(Size { width: 0u32, height: 480u32 }.area(), 0);
    assert_eq!(Size { width: 65_535u32, height: 65_537u32 }.area(), u32::MAX);
}

#[test]
fn texels_counts_pixels_as_elements() {
    assert_eq!(Size { width: 3u32, height: 5u32 }.texels(), 15usize);
    assert_eq!(Size { width: 1u32, height: 1u32 }.texels(), 1usize);
}

#[test]
fn area_fits_tells_products_beyond_32_bits() {
    assert!(Size { width: 65_535u32, height: 65_537u32 }.area_fits());
    assert!(!Size { width: 65_536u32, height: 65_536u32 }.area_fits());
    assert!(Size { width: u32::MAX, height: 1u32 }.area_fits());
    assert!(!Size { width: u32::MAX, height: 2u32 }.area_fits());
}

#[test]
fn magnitude_drops_the_signs() {
    let size = Size { width: -7i32, height: 9i32 }.magnitude();
    assert_eq!(size, Size { width: 7u32, height: 9u32 });
    let size = Size { width: i32::MAX, height: -i32::MAX }.magnitude();
    assert_eq!(size, Size { width: 2_147_483_647u32, height: 2_147_483_647u32 });
}

#[test]
fn as_extents_adds_the_size_to_the_origin() {
    let rect = SizedRect { origin: Point { x: 10i32, y: -20i32 }, size: Size { width: 5i32, height: 30i32 } };
    let extents = rect.as_extents();
    assert_eq!(extents.origin, Point { x: 10, y: -20 });
    assert_eq!(extents.extent, Point { x: 15, y: 10 });
}

#[test]
fn as_sized_takes_the_origin_from_the_extent() {
    let extents = ExtentsRect { origin: Point { x: 10i32, y: 40i32 }, extent: Point { x: 15i32, y: 10i32 } };
    let rect = extents.as_sized();
    assert_eq!(rect.origin, Point { x: 10, y: 40 });
    assert_eq!(rect.size, Size { width: 5, height: -30 });
}

#[test]
fn extents_and_sized_are_inverse() {
    let rect = SizedRect { origin: Point { x: -3i32, y: 4i32 }, size: Size { width: -8i32, height: 2i32 } };
    assert_eq!(rect.as_extents().as_sized(), rect);
}

#[test]
fn rect_area_ignores_the_origin() {
    let rect = SizedRect { origin: Point { x: 100u32, y: 200u32 }, size: Size { width: 4u32, height: 6u32 } };
    assert_eq!(rect.area(), 24);
}
