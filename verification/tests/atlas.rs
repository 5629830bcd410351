use image::{DynamicImage, GenericImage, Rgba};
use ui_staging::atlas::{generate_texture_atlas, AtlasError, TexCoord, UiAtlas, UiAtlasTexture};

fn item(name: &str, width: u32, height: u32) -> (String, u32, u32) {
    (name.to_string(), width, height)
}

fn filled(width: u32, height: u32, color: [u8; 4]) -> DynamicImage {
    let mut picture = DynamicImage::new_rgba8(width, height);
    for y in 0..height {
        for x in 0..width {
            picture.put_pixel(x, y, Rgba(color));
        }
    }
    picture
}

fn three_images() -> Vec<(DynamicImage, String)> {
    vec![
        (filled(10, 10, [255, 0, 0, 255]), "red".to_string()),
        (filled(20, 10, [0, 255, 0, 255]), "green".to_string()),
        (filled(10, 20, [0, 0, 255, 128]), "blue".to_string()),
    ]
}

fn pixel(bytes: &[u8], width: u32, x: u32, y: u32) -> [u8; 4] {
    let at = 4 * (y as usize * width as usize + x as usize);
    [bytes[at], bytes[at + 1], bytes[at + 2], bytes[at + 3]]
}

fn coord(num: i64, den: u64) -> TexCoord {
    TexCoord { num, den }
}

#[test]
fn pack_lays_sources_out_left_to_right() {
    let atlas = UiAtlas::pack(&vec![item("a", 10, 10), item("b", 20, 10), item("c", 10, 20)]).unwrap();
    assert_eq!(atlas.width, 40);
    assert_eq!(atlas.height, 20);
    assert_eq!(atlas.entries.len(), 3);
    let starts: Vec<u32> = atlas.entries.iter().map(|e| e.x_start).collect();
    assert_eq!(starts, vec![0, 10, 30]);
    for entry in &atlas.entries {
        assert_eq!(entry.y_start, 0);
    }
    assert_eq!(atlas.entries[1].name, "b");
    assert_eq!(atlas.entries[1].image_width, 20);
    assert_eq!(atlas.entries[2].image_height, 20);
}

#[test]
fn pack_insets_coordinates_by_half_a_texel() {
    let atlas = UiAtlas::pack(&vec![item("a", 10, 10), item("b", 20, 10), item("c", 10, 20)]).unwrap();
    assert_eq!(atlas.entries[0].start_coord, Some((coord(1, 80), coord(1, 40))));
    assert_eq!(atlas.entries[0].end_coord, Some((coord(19, 80), coord(19, 40))));
    assert_eq!(atlas.entries[1].start_coord, Some((coord(21, 80), coord(1, 40))));
    assert_eq!(atlas.entries[1].end_coord, Some((coord(59, 80), coord(19, 40))));
    assert_eq!(atlas.entries[2].start_coord, Some((coord(61, 80), coord(1, 40))));
    assert_eq!(atlas.entries[2].end_coord, Some((coord(79, 80), coord(39, 40))));
}

#[test]
fn coordinate_span_is_one_texel_short_of_the_image() {
    let atlas = UiAtlas::pack(&vec![item("a", 7, 3), item("b", 1, 9), item("c", 33, 5)]).unwrap();
    for entry in &atlas.entries {
        let (start, end) = (entry.start_coord.unwrap(), entry.end_coord.unwrap());
        let span_x = end.0.num as f64 / end.0.den as f64 - start.0.num as f64 / start.0.den as f64;
        let span_y = end.1.num as f64 / end.1.den as f64 - start.1.num as f64 / start.1.den as f64;
        let want_x = entry.image_width as f64 / atlas.width as f64 - 1.0 / atlas.width as f64;
        let want_y = entry.image_height as f64 / atlas.height as f64 - 1.0 / atlas.height as f64;
        assert!((span_x - want_x).abs() < 1e-9);
        assert!((span_y - want_y).abs() < 1e-9);
        assert_eq!(end.0.num - start.0.num, 2 * (entry.image_width as i64 - 1));
        assert_eq!(end.1.num - start.1.num, 2 * (entry.image_height as i64 - 1));
    }
}

#[test]
fn widths_add_up_and_the_highest_image_sets_the_height() {
    let sizes = [(3u32, 8u32), (5, 2), (0, 11), (9, 11), (1, 1)];
    let items: Vec<(String, u32, u32)> =
        sizes.iter().enumerate().map(|(i, (w, h))| (format!("image{}", i), *w, *h)).collect();
    let atlas = UiAtlas::pack(&items).unwrap();
    assert_eq!(atlas.width, 18);
    assert_eq!(atlas.height, 11);
    let mut before = 0;
    for (entry, (w, h)) in atlas.entries.iter().zip(sizes) {
        assert_eq!(entry.x_start, before);
        assert_eq!(entry.image_width, w);
        assert_eq!(entry.image_height, h);
        before += w;
    }
}

#[test]
fn pack_of_nothing_is_an_empty_atlas() {
    let atlas = UiAtlas::pack(&Vec::new()).unwrap();
    assert_eq!(atlas, UiAtlas::new(0, 0));
    assert!(atlas.entries.is_empty());
}

#[test]
fn pack_refuses_widths_beyond_u32() {
    assert!(UiAtlas::pack(&vec![item("a", u32::MAX, 1), item("b", 1, 1)]).is_none());
    let widest = UiAtlas::pack(&vec![item("a", u32::MAX - 1, 1), item("b", 1, 1)]).unwrap();
    assert_eq!(widest.width, u32::MAX);
    assert_eq!(widest.entries[1].x_start, u32::MAX - 1);
    assert_eq!(
        widest.entries[1].end_coord,
        Some((coord(2 * u32::MAX as i64 - 1, 2 * u32::MAX as u64), coord(1, 2)))
    );
}

#[test]
fn single_texel_image_has_coinciding_coordinates() {
    let atlas = UiAtlas::pack(&vec![item("dot", 1, 1)]).unwrap();
    assert_eq!(atlas.entries[0].start_coord, Some((coord(1, 2), coord(1, 2))));
    assert_eq!(atlas.entries[0].end_coord, Some((coord(1, 2), coord(1, 2))));
}

#[test]
fn new_entry_has_no_coordinates_until_it_is_placed() {
    let entry = UiAtlasTexture::new("icon".to_string(), 4, 2, 8, 6);
    assert_eq!(entry.name, "icon");
    assert_eq!((entry.x_start, entry.y_start, entry.image_width, entry.image_height), (4, 2, 8, 6));
    assert_eq!(entry.start_coord, None);
    assert_eq!(entry.end_coord, None);
    let placed = entry.generate_tex_coords(16, 8);
    assert_eq!(placed.start_coord, Some((coord(9, 32), coord(5, 16))));
    assert_eq!(placed.end_coord, Some((coord(23, 32), coord(15, 16))));
    assert_eq!(placed.name, "icon");
    assert_eq!((placed.x_start, placed.y_start, placed.image_width, placed.image_height), (4, 2, 8, 6));
}

#[test]
fn empty_image_at_the_origin_ends_before_it_starts() {
    let placed = UiAtlasTexture::new("none".to_string(), 0, 0, 0, 0).generate_tex_coords(4, 4);
    assert_eq!(placed.start_coord, Some((coord(1, 8), coord(1, 8))));
    assert_eq!(placed.end_coord, Some((coord(-1, 8), coord(-1, 8))));
}

#[test]
fn add_entry_places_the_entry_in_the_atlas() {
    let mut atlas = UiAtlas::new(100, 50);
    assert_eq!((atlas.width, atlas.height), (100, 50));
    atlas.add_entry(UiAtlasTexture::new("a".to_string(), 0, 0, 60, 50));
    atlas.add_entry(UiAtlasTexture::new("b".to_string(), 60, 0, 40, 25));
    assert_eq!(atlas.entries.len(), 2);
    assert_eq!(atlas.entries[1].start_coord, Some((coord(121, 200), coord(1, 100))));
    assert_eq!(atlas.entries[1].end_coord, Some((coord(199, 200), coord(49, 100))));
}

#[test]
fn get_entry_by_name_finds_the_first_of_that_name() {
    let mut atlas = UiAtlas::new(30, 10);
    atlas.add_entry(UiAtlasTexture::new("a".to_string(), 0, 0, 10, 10));
    atlas.add_entry(UiAtlasTexture::new("b".to_string(), 10, 0, 10, 10));
    atlas.add_entry(UiAtlasTexture::new("b".to_string(), 20, 0, 10, 10));
    let found = atlas.get_entry_by_name("b".to_string()).unwrap();
    assert_eq!(found, atlas.entries[1].clone());
    assert_eq!(atlas.clone(), atlas);
    assert_eq!(found.x_start, 10);
    assert!(atlas.get_entry_by_name("c".to_string()).is_none());
    assert!(atlas.get_entry_by_name("".to_string()).is_none());
}

#[test]
fn generated_atlas_has_the_packed_manifest() {
    let (atlas, bytes) = generate_texture_atlas(&three_images()).unwrap();
    let packed =
        UiAtlas::pack(&vec![item("red", 10, 10), item("green", 20, 10), item("blue", 10, 20)]).unwrap();
    assert_eq!(atlas, packed);
    assert_eq!((atlas.width, atlas.height), (40, 20));
    assert_eq!(bytes.len(), 4 * 40 * 20);
}

#[test]
fn generated_atlas_shows_every_image_where_its_entry_says() {
    let images = three_images();
    let (atlas, bytes) = generate_texture_atlas(&images).unwrap();
    let colors = [[255, 0, 0, 255], [0, 255, 0, 255], [0, 0, 255, 128]];
    for (entry, color) in atlas.entries.iter().zip(colors) {
        for y in 0..entry.image_height {
            for x in 0..entry.image_width {
                assert_eq!(pixel(&bytes, atlas.width, entry.x_start + x, y), color);
            }
        }
    }
}

#[test]
fn generated_atlas_is_blank_below_shorter_images() {
    let (atlas, bytes) = generate_texture_atlas(&three_images()).unwrap();
    for y in 10..20 {
        for x in 0..30 {
            assert_eq!(pixel(&bytes, atlas.width, x, y), [0, 0, 0, 0]);
        }
    }
}

#[test]
fn generated_atlas_converts_other_pixel_formats() {
    let mut gray = DynamicImage::new_luma8(2, 1);
    gray.put_pixel(0, 0, Rgba([9, 9, 9, 255]));
    gray.put_pixel(1, 0, Rgba([200, 200, 200, 255]));
    let images = vec![(gray, "gray".to_string()), (filled(1, 2, [1, 2, 3, 4]), "dot".to_string())];
    let (atlas, bytes) = generate_texture_atlas(&images).unwrap();
    assert_eq!((atlas.width, atlas.height), (3, 2));
    assert_eq!(pixel(&bytes, 3, 0, 0), [9, 9, 9, 255]);
    assert_eq!(pixel(&bytes, 3, 1, 0), [200, 200, 200, 255]);
    assert_eq!(pixel(&bytes, 3, 2, 0), [1, 2, 3, 4]);
    assert_eq!(pixel(&bytes, 3, 2, 1), [1, 2, 3, 4]);
    assert_eq!(pixel(&bytes, 3, 0, 1), [0, 0, 0, 0]);
}

#[test]
fn packing_twice_gives_identical_manifests() {
    let (first, first_bytes) = generate_texture_atlas(&three_images()).unwrap();
    let (second, second_bytes) = generate_texture_atlas(&three_images()).unwrap();
    assert_eq!(first, second);
    assert_eq!(format!("{:?}", first).into_bytes(), format!("{:?}", second).into_bytes());
    assert_eq!(first_bytes, second_bytes);
}

#[test]
fn generating_from_no_images_gives_an_empty_atlas() {
    let (atlas, bytes) = generate_texture_atlas(&Vec::new()).unwrap();
    assert_eq!(atlas, UiAtlas::new(0, 0));
    assert!(bytes.is_empty());
}

#[test]
fn generating_refuses_images_too_wide_together() {
    let images = vec![
        (DynamicImage::new_rgba8(u32::MAX, 0), "a".to_string()),
        (DynamicImage::new_rgba8(1, 1), "b".to_string()),
    ];
    assert_eq!(generate_texture_atlas(&images), Err(AtlasError::TooWide));
}

#[test]
fn generating_refuses_a_composite_too_large_for_a_buffer() {
    let images = vec![
        (DynamicImage::new_rgba8(u32::MAX, 0), "wide".to_string()),
        (DynamicImage::new_rgba8(0, u32::MAX), "high".to_string()),
    ];
    assert_eq!(generate_texture_atlas(&images), Err(AtlasError::TooLarge));
}

#[test]
fn generating_accepts_images_without_area() {
    let images = vec![
        (DynamicImage::new_rgba8(0, 5), "thin".to_string()),
        (filled(2, 2, [7, 7, 7, 7]), "dot".to_string()),
        (DynamicImage::new_rgba8(3, 0), "flat".to_string()),
    ];
    let (atlas, bytes) = generate_texture_atlas(&images).unwrap();
    assert_eq!((atlas.width, atlas.height), (5, 5));
    let starts: Vec<u32> = atlas.entries.iter().map(|e| e.x_start).collect();
    assert_eq!(starts, vec![0, 0, 2]);
    assert_eq!(pixel(&bytes, 5, 1, 1), [7, 7, 7, 7]);
    assert_eq!(pixel(&bytes, 5, 2, 0), [0, 0, 0, 0]);
}
