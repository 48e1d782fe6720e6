use sid_assets::asset::SidAnimationAsset;
use sid_assets::asset::SidAnimationDefAsset;
use sid_assets::asset::SidAnimationFrameAsset;
use sid_assets::asset::SidAnimationFrameDims;
use sid_assets::asset::SidAnimationFramePos;
use sid_assets::asset::SidPackedAsset;
use sid_assets::asset::SidSpriteSheetAsset;
use sid_assets::asset::animation_def_from_tree;
use sid_assets::asset::animation_from_tree;
use sid_assets::asset::sprite_sheet_from_tree;
use sid_assets::json::JsonValue;
use sid_assets::resource::SerializeSidAsset;
use sid_assets::resource::SidAssetSerializationError;
use sid_assets::resource::extension_compatible;
use sid_assets::resource::pack_animation;
use sid_assets::resource::pack_animation_def;
use sid_assets::resource::pack_sprite_sheet;
use sid_assets::resource::texture_source_path;

const ID_A: u32 = 0xe40c292c;
const ID_B: u32 = 0xe70c2de5;

fn tree_to_value(t: &JsonValue) -> serde_json::Value {
    match t {
        JsonValue::Null => serde_json::Value::Null,
        JsonValue::Bool(b) => serde_json::Value::Bool(*b),
        JsonValue::Int(i) => serde_json::Value::from(*i),
        JsonValue::BigNum => panic!("no test tree holds an unrepresentable number"),
        JsonValue::Text(s) => serde_json::Value::String(s.clone()),
        JsonValue::Array(a) => serde_json::Value::Array(a.iter().map(tree_to_value).collect()),
        JsonValue::Object(ms) => {
            let mut m = serde_json::Map::new();
            for (k, v) in ms {
                m.insert(k.clone(), tree_to_value(v));
            }
            serde_json::Value::Object(m)
        }
    }
}

fn tree_to_text(t: &JsonValue) -> String {
    serde_json::to_string_pretty(&tree_to_value(t)).unwrap()
}

fn encode_png_rgb(width: u32, height: u32, pixels: &[u8]) -> Vec<u8> {
    let img = image::RgbImage::from_raw(width, height, pixels.to_vec()).unwrap();
    let mut out = std::io::Cursor::new(Vec::new());
    image::DynamicImage::ImageRgb8(img)
        .write_to(&mut out, image::ImageFormat::Png)
        .unwrap();
    out.into_inner()
}

fn encode_png_rgba(width: u32, height: u32, pixels: &[u8]) -> Vec<u8> {
    let img = image::RgbaImage::from_raw(width, height, pixels.to_vec()).unwrap();
    let mut out = std::io::Cursor::new(Vec::new());
    image::DynamicImage::ImageRgba8(img)
        .write_to(&mut out, image::ImageFormat::Png)
        .unwrap();
    out.into_inner()
}

fn sample_def() -> SidAnimationDefAsset {
    let frame = SidAnimationFrameAsset::with_data(
        SidAnimationFramePos::with_coords(1, 2),
        SidAnimationFrameDims::with_width_and_height(3, 4),
        5,
    );
    SidAnimationDefAsset::with_data(1, vec![frame], "a".to_string(), "b".to_string())
}

#[test]
fn animation_resource_has_the_fixed_layout() {
    let anim = SidAnimationAsset::with_data(7, 9, "a".to_string(), "b".to_string());
    let bytes = anim.write_resource(&[]).unwrap();
    let mut expected = Vec::new();
    expected.extend_from_slice(&ID_A.to_le_bytes());
    expected.extend_from_slice(&ID_B.to_le_bytes());
    expected.extend_from_slice(&7u16.to_le_bytes());
    expected.extend_from_slice(&9u16.to_le_bytes());
    assert_eq!(bytes, expected);
}

#[test]
fn animation_def_resource_has_the_fixed_layout() {
    let def = sample_def();
    let bytes = def.write_resource(&[]).unwrap();
    let mut expected = Vec::new();
    expected.extend_from_slice(&ID_A.to_le_bytes());
    expected.extend_from_slice(&ID_B.to_le_bytes());
    expected.extend_from_slice(&1u16.to_le_bytes());
    for v in [1u16, 2, 3, 4, 5] {
        expected.extend_from_slice(&v.to_le_bytes());
    }
    assert_eq!(bytes, expected);
}

#[test]
fn sprite_sheet_resource_embeds_the_decoded_pixels() {
    let pixels: Vec<u8> = (0..18).collect();
    let png = encode_png_rgb(2, 3, &pixels);
    let asset = SidSpriteSheetAsset::with_data(
        "a".to_string(),
        "a.png".to_string(),
        "/in/a.png".to_string(),
        2,
        3,
        "RGB888".to_string(),
    );
    let bytes = asset.write_resource(&png).unwrap();
    let mut expected = Vec::new();
    expected.extend_from_slice(&ID_A.to_le_bytes());
    expected.extend_from_slice(&2u32.to_le_bytes());
    expected.extend_from_slice(&3u32.to_le_bytes());
    expected.push(3u8);
    expected.extend_from_slice(&1i32.to_le_bytes());
    expected.extend_from_slice(&18u64.to_le_bytes());
    expected.extend_from_slice(&pixels);
    assert_eq!(bytes, expected);
}

#[test]
fn sprite_sheet_resource_byte_count_equals_width_height_channels() {
    let pixels: Vec<u8> = vec![7; 4 * 2 * 4];
    let png = encode_png_rgba(4, 2, &pixels);
    let asset = SidSpriteSheetAsset::with_data(
        "a".to_string(),
        "a.png".to_string(),
        "/in/a.png".to_string(),
        4,
        2,
        "RGBA8888".to_string(),
    );
    let bytes = asset.write_resource(&png).unwrap();
    // Recover the header fields from the packed resource.
    let width = u32::from_le_bytes(bytes[4..8].try_into().unwrap());
    let height = u32::from_le_bytes(bytes[8..12].try_into().unwrap());
    let channels = bytes[12];
    let format = i32::from_le_bytes(bytes[13..17].try_into().unwrap());
    let count = u64::from_le_bytes(bytes[17..25].try_into().unwrap());
    assert_eq!(width, 4);
    assert_eq!(height, 2);
    assert_eq!(channels, 4);
    assert_eq!(format, 2);
    assert_eq!(count, (width as u64) * (height as u64) * (channels as u64));
    assert_eq!(bytes.len() as u64, 25 + count);
    assert_eq!(&bytes[25..], &pixels[..]);
}

#[test]
fn grayscale_image_is_an_unsupported_format() {
    let img = image::GrayImage::from_raw(2, 2, vec![0, 1, 2, 3]).unwrap();
    let mut out = std::io::Cursor::new(Vec::new());
    image::DynamicImage::ImageLuma8(img)
        .write_to(&mut out, image::ImageFormat::Png)
        .unwrap();
    let asset = SidSpriteSheetAsset::new();
    match asset.write_resource(&out.into_inner()) {
        Err(SidAssetSerializationError::UnsupportedFormat(_)) => {}
        other => panic!("expected an unsupported-format error, got {:?}", other),
    }
}

#[test]
fn undecodable_image_is_an_io_error() {
    let asset = SidSpriteSheetAsset::new();
    match asset.write_resource(b"not an image at all") {
        Err(SidAssetSerializationError::IO(_)) => {}
        other => panic!("expected an i/o error, got {:?}", other),
    }
}

#[test]
fn repacking_the_reparsed_intermediate_is_byte_identical() {
    let def = sample_def();
    let direct = def.write_resource(&[]).unwrap();
    let text = tree_to_text(&def.to_tree());
    let (id1, bytes1) = pack_animation_def(&text).unwrap();
    let (id2, bytes2) = pack_animation_def(&text).unwrap();
    assert_eq!(id1, ID_A);
    assert_eq!(id1, id2);
    assert_eq!(bytes1, bytes2);
    assert_eq!(bytes1, direct);

    let anim = SidAnimationAsset::with_data(0, 2, "a".to_string(), "b".to_string());
    let direct = anim.write_resource(&[]).unwrap();
    let text = tree_to_text(&anim.to_tree());
    let (id1, bytes1) = pack_animation(&text).unwrap();
    let (id2, bytes2) = pack_animation(&text).unwrap();
    assert_eq!(id1, ID_A);
    assert_eq!(id2, id1);
    assert_eq!(bytes1, bytes2);
    assert_eq!(bytes1, direct);
}

#[test]
fn sprite_sheet_intermediate_round_trips_through_its_tree() {
    let asset = SidSpriteSheetAsset::with_data(
        "hero".to_string(),
        "hero.png".to_string(),
        "/in/hero.png".to_string(),
        32,
        16,
        "RGBA8888".to_string(),
    );
    let back = sprite_sheet_from_tree(&asset.to_tree()).unwrap();
    assert_eq!(back.name, "hero");
    assert_eq!(back.image_path, "hero.png");
    // The resolved source path is not part of the intermediate file.
    assert_eq!(back.image_from_path, "");
    assert_eq!(back.width, 32);
    assert_eq!(back.height, 16);
    assert_eq!(back.format, "RGBA8888");
}

#[test]
fn pack_sprite_sheet_from_text_matches_direct_packing() {
    let pixels: Vec<u8> = (0..12).collect();
    let png = encode_png_rgb(2, 2, &pixels);
    let asset = SidSpriteSheetAsset::with_data(
        "a".to_string(),
        "a.png".to_string(),
        "/in/a.png".to_string(),
        2,
        2,
        "RGB888".to_string(),
    );
    let direct = asset.write_resource(&png).unwrap();
    let text = tree_to_text(&asset.to_tree());
    let (id, bytes) = pack_sprite_sheet(&text, &png).unwrap();
    assert_eq!(id, ID_A);
    assert_eq!(bytes, direct);
}

#[test]
fn mismatched_frame_count_is_rejected_when_reparsing() {
    let frame = SidAnimationFrameAsset::new();
    let def = SidAnimationDefAsset::with_data(2, vec![frame], "a".to_string(), "b".to_string());
    assert!(animation_def_from_tree(&def.to_tree()).is_none());
}

#[test]
fn animation_intermediate_round_trips_through_its_tree() {
    let anim = SidAnimationAsset::with_data(3, 4, "walker_idle".to_string(), "walker".to_string());
    let back = animation_from_tree(&anim.to_tree()).unwrap();
    assert_eq!(back.offset, 3);
    assert_eq!(back.length, 4);
    assert_eq!(back.name, "walker_idle");
    assert_eq!(back.def_name, "walker");
}

#[test]
fn malformed_asset_text_is_rejected() {
    assert!(pack_animation_def("not json").is_err());
    assert!(pack_animation("{\"offset\": 1}").is_err());
    assert!(pack_sprite_sheet("[]", &[]).is_err());
}

#[test]
fn intermediate_file_names_and_namespaces() {
    let sheet = SidSpriteSheetAsset::with_data(
        "hero".to_string(),
        "hero.png".to_string(),
        String::new(),
        1,
        1,
        "RGBA8888".to_string(),
    );
    assert_eq!(sheet.file_name(), "hero.json");
    assert_eq!(SidSpriteSheetAsset::namespace(), "sprite_sheet");
    assert_eq!(SidAnimationDefAsset::namespace(), "animation_def");
    assert_eq!(SidAnimationAsset::namespace(), "animation");
}

#[test]
fn extension_compatibility() {
    assert!(extension_compatible("json"));
    assert!(!extension_compatible("png"));
    assert!(!extension_compatible(""));
}

#[test]
fn texture_path_resolves_beside_the_asset_file() {
    assert_eq!(
        texture_source_path("assets/sprite_sheet/walker.json", "walker.png"),
        "assets/sprite_sheet/walker.png"
    );
    assert_eq!(texture_source_path("walker.json", "walker.png"), "walker.png");
    assert_eq!(texture_source_path("assets/x.json", "/abs/walker.png"), "/abs/walker.png");
}
