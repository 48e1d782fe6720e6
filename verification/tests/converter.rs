use sid_assets::asset::SidAnimationDefAsset;
use sid_assets::asset::SidSpriteSheetAsset;
use sid_assets::sid_aseprite::AsepriteFrameTuple;
use sid_assets::sid_aseprite::AsepriteSheet;
use sid_assets::sid_aseprite::AsepriteSheetError;
use sid_assets::sid_aseprite::FromAsepriteFrameTuplesAndSidSpriteSheet;
use sid_assets::sid_aseprite::FromAsepriteSheet;
use sid_assets::sid_aseprite::from_aseprite_frame_name_to_animation_name;
use sid_assets::sid_aseprite::from_aseprite_sheet_text_to_sid_assets;
use sid_assets::sid_aseprite::from_aseprite_sheet_to_sid_animations;
use sid_assets::strutil::file_stem;

fn sheet_text(image: &str, width: i32, height: i32, frame_names: &[&str]) -> String {
    let mut frames = String::new();
    for (i, name) in frame_names.iter().enumerate() {
        if i > 0 {
            frames.push(',');
        }
        frames.push_str(&format!(
            "\"{}\": {{\"frame\": {{\"x\": {}, \"y\": 0, \"w\": 16, \"h\": 16}}, \
             \"rotated\": false, \"trimmed\": false, \
             \"spriteSourceSize\": {{\"x\": 0, \"y\": 0, \"w\": 16, \"h\": 16}}, \
             \"sourceSize\": {{\"w\": 16, \"h\": 16}}, \"duration\": 100}}",
            name,
            (i as i32) * 16
        ));
    }
    format!(
        "{{\"frames\": {{{}}}, \"meta\": {{\"app\": \"editor\", \"version\": \"1.0\", \
         \"image\": \"{}\", \"format\": \"RGBA8888\", \"size\": {{\"w\": {}, \"h\": {}}}, \
         \"scale\": \"1\", \"frameTags\": [], \"layers\": [], \"slices\": []}}}}",
        frames, image, width, height
    )
}

#[test]
fn animation_name_is_the_parenthesized_tag() {
    assert_eq!(from_aseprite_frame_name_to_animation_name("walk (run) 0001"), Some("run"));
    assert_eq!(from_aseprite_frame_name_to_animation_name("walk ( idle ) 7"), Some("idle"));
    assert_eq!(from_aseprite_frame_name_to_animation_name("(x)"), Some("x"));
    assert_eq!(from_aseprite_frame_name_to_animation_name("()"), Some(""));
}

#[test]
fn animation_name_missing_pair_is_rejected() {
    assert_eq!(from_aseprite_frame_name_to_animation_name("badframe"), None);
    assert_eq!(from_aseprite_frame_name_to_animation_name("open (only"), None);
    assert_eq!(from_aseprite_frame_name_to_animation_name("close) only"), None);
}

#[test]
fn grouping_two_tags_yields_two_animations() {
    let text = sheet_text(
        "walker.png",
        64,
        64,
        &["walk (idle) 001", "walk (idle) 002", "walk (run) 001"],
    );
    let (sheet, def, anims) = from_aseprite_sheet_text_to_sid_assets(&text, "/assets/in")
        .expect("sheet should convert");
    assert_eq!(sheet.name, "walker");
    assert_eq!(def.frame_count, 3);
    assert_eq!(anims.len(), 2);
    assert_eq!(anims[0].name, "walker_idle");
    assert_eq!(anims[0].offset, 0);
    assert_eq!(anims[0].length, 2);
    assert_eq!(anims[0].def_name, "walker");
    assert_eq!(anims[1].name, "walker_run");
    assert_eq!(anims[1].offset, 2);
    assert_eq!(anims[1].length, 1);
}

#[test]
fn grouping_single_run_is_closed_at_the_end() {
    let text = sheet_text("walker.png", 64, 64, &["w (idle) 1", "w (idle) 2"]);
    let (_, _, anims) =
        from_aseprite_sheet_text_to_sid_assets(&text, "/assets/in").expect("converts");
    assert_eq!(anims.len(), 1);
    assert_eq!(anims[0].name, "walker_idle");
    assert_eq!(anims[0].offset, 0);
    assert_eq!(anims[0].length, 2);
}

#[test]
fn grouping_zero_frames_yields_zero_animations() {
    let text = sheet_text("walker.png", 64, 64, &[]);
    let (_, def, anims) =
        from_aseprite_sheet_text_to_sid_assets(&text, "/assets/in").expect("converts");
    assert_eq!(def.frame_count, 0);
    assert!(anims.is_empty());
}

#[test]
fn malformed_frame_name_aborts_grouping_for_that_sheet_only() {
    let bad = sheet_text("bad.png", 64, 64, &["badframe"]);
    assert!(from_aseprite_sheet_text_to_sid_assets(&bad, "/assets/in").is_none());

    let sheet = AsepriteSheet::from_json_str(&bad).expect("the sheet itself parses");
    let folder_sheet =
        SidSpriteSheetAsset::from_aseprite_sheet("/assets/in", &sheet).expect("derives");
    let def = SidAnimationDefAsset::from_aseprite_frame_tuples_and_sid_sprite_sheet(
        &sheet.frames,
        &folder_sheet,
    )
    .expect("definition derives");
    match from_aseprite_sheet_to_sid_animations(&sheet, &def) {
        Err(AsepriteSheetError::Malformed(_)) => {}
        other => panic!("expected a malformed-name error, got {:?}", other),
    }

    // An unrelated sheet in the same batch is unaffected.
    let good = sheet_text("good.png", 64, 64, &["a (fly) 1"]);
    let (_, _, anims) =
        from_aseprite_sheet_text_to_sid_assets(&good, "/assets/in").expect("converts");
    assert_eq!(anims.len(), 1);
    assert_eq!(anims[0].name, "good_fly");
}

#[test]
fn zero_width_sheet_is_rejected_before_any_asset() {
    let text = sheet_text("walker.png", 0, 64, &["w (idle) 1"]);
    assert!(from_aseprite_sheet_text_to_sid_assets(&text, "/assets/in").is_none());
    let sheet = AsepriteSheet::from_json_str(&text).expect("parses");
    assert!(SidSpriteSheetAsset::from_aseprite_sheet("/assets/in", &sheet).is_none());
}

#[test]
fn negative_height_sheet_is_rejected() {
    let text = sheet_text("walker.png", 64, -3, &[]);
    assert!(from_aseprite_sheet_text_to_sid_assets(&text, "/assets/in").is_none());
}

#[test]
fn sheet_name_is_image_stem_for_absolute_and_relative_paths() {
    let relative = sheet_text("img/hero.png", 32, 32, &[]);
    let absolute = sheet_text("/somewhere/else/img/hero.png", 32, 32, &[]);
    let (a, _, _) =
        from_aseprite_sheet_text_to_sid_assets(&relative, "/assets/in").expect("converts");
    let (b, _, _) =
        from_aseprite_sheet_text_to_sid_assets(&absolute, "/assets/in").expect("converts");
    assert_eq!(a.name, "hero");
    assert_eq!(b.name, "hero");
    assert_eq!(a.name, file_stem("img/hero.png").unwrap());
    assert_eq!(a.image_from_path, "/assets/in/img/hero.png");
    assert_eq!(b.image_from_path, "/somewhere/else/img/hero.png");
}

#[test]
fn frame_count_is_capped_and_excess_frames_are_dropped() {
    let text = sheet_text("walker.png", 64, 64, &["w (idle) 1"]);
    let (sheet_asset, _, _) =
        from_aseprite_sheet_text_to_sid_assets(&text, "/assets/in").expect("converts");
    let sheet = AsepriteSheet::from_json_str(&text).expect("parses");
    let mut frames: Vec<AsepriteFrameTuple> = Vec::new();
    for i in 0..4100 {
        let mut t = AsepriteFrameTuple::new(format!("w (idle) {}", i));
        t.data = sheet.frames[0].data;
        frames.push(t);
    }
    let def = SidAnimationDefAsset::from_aseprite_frame_tuples_and_sid_sprite_sheet(
        &frames,
        &sheet_asset,
    )
    .expect("the cap drops the excess without erroring");
    assert_eq!(def.frame_count, 4096);
    assert_eq!(def.frames.len(), 4096);
}

#[test]
fn out_of_range_frame_geometry_fails_the_whole_definition() {
    let mut text = sheet_text("walker.png", 64, 64, &["w (idle) 1"]);
    text = text.replace("\"x\": 0", "\"x\": -4");
    let sheet = AsepriteSheet::from_json_str(&text).expect("parses");
    let sheet_asset =
        SidSpriteSheetAsset::from_aseprite_sheet("/assets/in", &sheet).expect("derives");
    let def: Option<SidAnimationDefAsset> =
        SidAnimationDefAsset::from_aseprite_frame_tuples_and_sid_sprite_sheet(
            &sheet.frames,
            &sheet_asset,
        );
    assert!(def.is_none());
}

#[test]
fn invalid_json_is_a_malformed_error() {
    match AsepriteSheet::from_json_str("this is not json") {
        Err(AsepriteSheetError::Malformed(_)) => {}
        other => panic!("expected a malformed error, got {:?}", other),
    }
    match AsepriteSheet::from_json_str("[1, 2, 3]") {
        Err(AsepriteSheetError::Malformed(_)) => {}
        other => panic!("expected a malformed error for a non-object root, got {:?}", other),
    }
}

#[test]
fn bad_frame_entry_aborts_the_whole_sheet() {
    let text = "{\"frames\": {\"a (x) 1\": {\"frame\": \"nope\"}}, \"meta\": null}";
    assert!(AsepriteSheet::from_json_str(text).is_err());
}

#[test]
fn unknown_top_level_keys_are_ignored() {
    let mut text = sheet_text("walker.png", 16, 16, &[]);
    text.insert_str(1, "\"extra\": [1, 2, {\"k\": true}], ");
    let sheet = AsepriteSheet::from_json_str(&text).expect("parses");
    assert_eq!(sheet.meta.image, "walker.png");
    assert_eq!(sheet.meta.size.w, 16);
}

#[test]
fn tag_is_trimmed_of_surrounding_whitespace() {
    assert_eq!(from_aseprite_frame_name_to_animation_name("w (\t idle \n) 1"), Some("idle"));
}

#[test]
fn coordinate_outside_the_editor_range_is_malformed() {
    let mut text = sheet_text("walker.png", 64, 64, &["w (idle) 1"]);
    text = text.replace("\"x\": 0", "\"x\": 40000");
    assert!(AsepriteSheet::from_json_str(&text).is_err());
}

#[test]
fn duration_beyond_sixteen_bits_fails_the_definition_not_the_parse() {
    let mut text = sheet_text("walker.png", 64, 64, &["w (idle) 1"]);
    text = text.replace("\"duration\": 100", "\"duration\": 65536");
    let sheet = AsepriteSheet::from_json_str(&text).expect("parses: the duration fits an i32");
    let sheet_asset =
        SidSpriteSheetAsset::from_aseprite_sheet("/assets/in", &sheet).expect("derives");
    let def: Option<SidAnimationDefAsset> =
        SidAnimationDefAsset::from_aseprite_frame_tuples_and_sid_sprite_sheet(
            &sheet.frames,
            &sheet_asset,
        );
    assert!(def.is_none());
}

#[test]
fn missing_meta_defaults_to_a_zero_sheet_that_is_rejected() {
    let sheet = AsepriteSheet::from_json_str("{}").expect("an empty object parses");
    assert!(sheet.frames.is_empty());
    assert_eq!(sheet.meta.size.w, 0);
    assert!(SidSpriteSheetAsset::from_aseprite_sheet("/assets/in", &sheet).is_none());
}

#[test]
fn incomplete_meta_is_malformed() {
    let text = "{\"meta\": {\"app\": \"editor\", \"version\": \"1.0\"}}";
    assert!(AsepriteSheet::from_json_str(text).is_err());
}

#[test]
fn meta_lists_are_parsed() {
    let text = "{\"meta\": {\"app\": \"editor\", \"version\": \"1.0\", \
                \"image\": \"x.png\", \"format\": \"I8\", \"size\": {\"w\": 8, \"h\": 8}, \
                \"scale\": \"1\", \
                \"frameTags\": [{\"name\": \"fly\", \"from\": 0, \"to\": 3, \
                \"direction\": \"forward\", \"color\": \"#000000ff\"}], \
                \"layers\": [{\"name\": \"bg\", \"opacity\": 255, \"blendMode\": \"normal\"}], \
                \"slices\": [{}]}}";
    let sheet = AsepriteSheet::from_json_str(text).expect("parses");
    assert_eq!(sheet.meta.frame_tags.len(), 1);
    assert_eq!(sheet.meta.frame_tags[0].name, "fly");
    assert_eq!(sheet.meta.frame_tags[0].from, 0);
    assert_eq!(sheet.meta.frame_tags[0].to, 3);
    assert_eq!(sheet.meta.layers.len(), 1);
    assert_eq!(sheet.meta.layers[0].opacity, 255);
    assert_eq!(sheet.meta.slices.len(), 1);
}

#[test]
fn non_object_slice_entry_is_malformed() {
    let text = "{\"meta\": {\"app\": \"e\", \"version\": \"1\", \"image\": \"x.png\", \
                \"format\": \"I8\", \"size\": {\"w\": 8, \"h\": 8}, \"scale\": \"1\", \
                \"frameTags\": [], \"layers\": [], \"slices\": [3]}}";
    assert!(AsepriteSheet::from_json_str(text).is_err());
}

#[test]
fn non_object_frames_member_is_ignored() {
    let text = "{\"frames\": [1, 2], \"meta\": {\"app\": \"e\", \"version\": \"1\", \
                \"image\": \"x.png\", \"format\": \"I8\", \"size\": {\"w\": 8, \"h\": 8}, \
                \"scale\": \"1\", \"frameTags\": [], \"layers\": [], \"slices\": []}}";
    let sheet = AsepriteSheet::from_json_str(text).expect("parses");
    assert!(sheet.frames.is_empty());
}

#[test]
fn frames_preserve_source_order() {
    let text = sheet_text("walker.png", 64, 64, &["z (a) 1", "m (a) 2", "a (a) 3"]);
    let sheet = AsepriteSheet::from_json_str(&text).expect("parses");
    let names: Vec<&str> = sheet.frames.iter().map(|t| t.name.as_str()).collect();
    assert_eq!(names, vec!["z (a) 1", "m (a) 2", "a (a) 3"]);
}
