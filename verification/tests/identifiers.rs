use sid_assets::sid::generate_animation_def_id;
use sid_assets::sid::generate_animation_id;
use sid_assets::sid::generate_sprite_sheet_id;
use sid_assets::sid::get_animation_def_namespace;
use sid_assets::sid::get_animation_namespace;
use sid_assets::sid::get_max_animation_frame_count;
use sid_assets::sid::get_sprite_sheet_namespace;
use sid_assets::sid::sid_texture_format;

#[test]
fn identifier_matches_fnv1a_test_vectors() {
    // 32-bit FNV-1a reference values over ASCII names.
    assert_eq!(generate_sprite_sheet_id(""), 0x811c9dc5);
    assert_eq!(generate_sprite_sheet_id("a"), 0xe40c292c);
    assert_eq!(generate_sprite_sheet_id("b"), 0xe70c2de5);
    assert_eq!(generate_sprite_sheet_id("foobar"), 0xbf9cf968);
}

#[test]
fn identifier_is_stable_across_kinds_and_calls() {
    let name = "walker_sheet";
    let a = generate_sprite_sheet_id(name);
    let b = generate_animation_def_id(name);
    let c = generate_animation_id(name);
    assert_eq!(a, b);
    assert_eq!(b, c);
    assert_eq!(a, generate_sprite_sheet_id(name));
}

#[test]
fn identifiers_distinguish_names() {
    assert_ne!(generate_animation_id("walk_idle"), generate_animation_id("walk_run"));
}

#[test]
fn namespaces_are_fixed_labels() {
    assert_eq!(get_sprite_sheet_namespace(), "sprite_sheet");
    assert_eq!(get_animation_def_namespace(), "animation_def");
    assert_eq!(get_animation_namespace(), "animation");
}

#[test]
fn max_animation_frame_count_is_the_cap() {
    assert_eq!(get_max_animation_frame_count(), 4096);
}

#[test]
fn texture_format_codes() {
    assert_eq!(sid_texture_format::SID_TEXTURE_FORMAT_UNKNOWN.code(), 0);
    assert_eq!(sid_texture_format::SID_TEXTURE_FORMAT_RGB8.code(), 1);
    assert_eq!(sid_texture_format::SID_TEXTURE_FORMAT_RGBA8.code(), 2);
}
