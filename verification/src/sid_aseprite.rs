//! The editor-exported sheet description: its strict in-memory model,
//! the schema that reads one from a JSON tree, and the derivation of
//! sprite-sheet, animation-definition and animation assets — including
//! the grouping of frame names into animations.

use vstd::prelude::*;

use crate::asset::SidAnimationAsset;
use crate::asset::SidAnimationAssetView;
use crate::asset::SidAnimationDefAsset;
use crate::asset::SidAnimationDefAssetView;
use crate::asset::SidSpriteSheetAssetView;
use crate::asset::SidAnimationFrameAsset;
use crate::asset::SidAnimationFrameDims;
use crate::asset::SidAnimationFramePos;
use crate::asset::SidSpriteSheetAsset;
use crate::json::JsonValue;
use crate::json::lookup;
use crate::json::lookup_spec;
use crate::json::as_text;
use crate::json::as_int;
use crate::json::as_bool;
use crate::json::as_array;
use crate::json::json_tree_of;
use crate::json::parse_json;
use crate::sid;
use crate::sid::SidAnimationFrameIndex;
use crate::sid::SidSpriteSheetDim;
use crate::strutil;

verus! {

/// A width/height pair of the editor's export.
#[derive(Debug, Clone, Copy, PartialEq, Eq, Structural)]
pub struct AsepriteSize {
    pub w: i16,
    pub h: i16,
}

impl AsepriteSize {
    pub fn new() -> (r: Self)
        ensures
            r == (Self { w: 0, h: 0 }),
    {
        Self::with_size(0, 0)
    }

    pub fn with_size(w: i16, h: i16) -> (r: Self)
        ensures
            r == (Self { w, h }),
    {
        Self { w, h }
    }
}

/// A rectangle of the editor's export.
#[derive(Debug, Clone, Copy, PartialEq, Eq, Structural)]
pub struct AsepriteRect {
    pub x: i16,
    pub y: i16,
    pub w: i16,
    pub h: i16,
}

impl AsepriteRect {
    pub fn new() -> (r: Self)
        ensures
            r == (Self { x: 0, y: 0, w: 0, h: 0 }),
    {
        Self::with_coords_and_size(0, 0, 0, 0)
    }

    pub fn with_coords_and_size(x: i16, y: i16, w: i16, h: i16) -> (r: Self)
        ensures
            r == (Self { x, y, w, h }),
    {
        Self { x, y, w, h }
    }
}

/// One frame's geometry and timing.
#[derive(Debug, Clone, Copy, PartialEq, Eq, Structural)]
pub struct AsepriteFrameData {
    pub frame: AsepriteRect,
    pub rotated: bool,
    pub trimmed: bool,
    pub sprite_source_size: AsepriteRect,
    pub source_size: AsepriteSize,
    pub duration: i32,
}

impl AsepriteFrameData {
    pub fn new() -> (r: Self)
        ensures
            r == (Self {
                frame: AsepriteRect { x: 0, y: 0, w: 0, h: 0 },
                rotated: false,
                trimmed: false,
                sprite_source_size: AsepriteRect { x: 0, y: 0, w: 0, h: 0 },
                source_size: AsepriteSize { w: 0, h: 0 },
                duration: 0i32,
            }),
    {
        let frame = AsepriteRect::new();
        let rotated = false;
        let trimmed = false;
        let sprite_source_size = AsepriteRect::new();
        let source_size = AsepriteSize::new();
        let duration: i32 = 0;
        Self { frame, rotated, trimmed, sprite_source_size, source_size, duration }
    }
}

/// A slice entry of the metadata; its contents are not consumed.
#[derive(Debug, Clone, Copy, PartialEq, Eq, Structural)]
pub struct AsepriteFrameSlice {}

pub struct AsepriteFrameLayerView {
    pub name: Seq<char>,
    pub opacity: u8,
    pub blend_mode: Seq<char>,
}

/// A layer entry of the metadata; not consumed past parsing.
#[derive(Debug, Clone)]
pub struct AsepriteFrameLayer {
    pub name: String,
    pub opacity: u8,
    pub blend_mode: String,
}

impl View for AsepriteFrameLayer {
    type V = AsepriteFrameLayerView;

    open spec fn view(&self) -> AsepriteFrameLayerView {
        AsepriteFrameLayerView {
            name: self.name@,
            opacity: self.opacity,
            blend_mode: self.blend_mode@,
        }
    }
}

pub struct AsepriteFrameTagView {
    pub name: Seq<char>,
    pub from: u8,
    pub to: u8,
    pub direction: Seq<char>,
    pub color: Seq<char>,
}

/// A tag entry of the metadata; not consumed past parsing.
#[derive(Debug, Clone)]
pub struct AsepriteFrameTag {
    pub name: String,
    pub from: u8,
    pub to: u8,
    pub direction: String,
    pub color: String,
}

impl View for AsepriteFrameTag {
    type V = AsepriteFrameTagView;

    open spec fn view(&self) -> AsepriteFrameTagView {
        AsepriteFrameTagView {
            name: self.name@,
            from: self.from,
            to: self.to,
            direction: self.direction@,
            color: self.color@,
        }
    }
}

#[verifier::ext_equal]
pub struct AsepriteMetaView {
    pub app: Seq<char>,
    pub version: Seq<char>,
    pub image: Seq<char>,
    pub format: Seq<char>,
    pub size: AsepriteSize,
    pub scale: Seq<char>,
    pub frame_tags: Seq<AsepriteFrameTagView>,
    pub layers: Seq<AsepriteFrameLayerView>,
    pub slices: Seq<AsepriteFrameSlice>,
}

/// The sheet metadata: the pipeline consumes the image reference, the
/// pixel dimensions and the pixel-format label.
#[derive(Debug, Clone)]
pub struct AsepriteMeta {
    pub app: String,
    pub version: String,
    pub image: String,
    pub format: String,
    pub size: AsepriteSize,
    pub scale: String,
    pub frame_tags: Vec<AsepriteFrameTag>,
    pub layers: Vec<AsepriteFrameLayer>,
    pub slices: Vec<AsepriteFrameSlice>,
}

impl View for AsepriteMeta {
    type V = AsepriteMetaView;

    open spec fn view(&self) -> AsepriteMetaView {
        AsepriteMetaView {
            app: self.app@,
            version: self.version@,
            image: self.image@,
            format: self.format@,
            size: self.size,
            scale: self.scale@,
            frame_tags: self.frame_tags@.map_values(|t: AsepriteFrameTag| t@),
            layers: self.layers@.map_values(|l: AsepriteFrameLayer| l@),
            slices: self.slices@,
        }
    }
}

impl AsepriteMeta {
    pub fn new() -> (r: Self)
        ensures
            r@ == default_meta_view(),
    {
        let app = String::new();
        let version = String::new();
        let image = String::new();
        let format = String::new();
        let size = AsepriteSize::new();
        let scale = String::new();
        let frame_tags: Vec<AsepriteFrameTag> = Vec::new();
        let layers: Vec<AsepriteFrameLayer> = Vec::new();
        let slices: Vec<AsepriteFrameSlice> = Vec::new();
        let r = Self { app, version, image, format, size, scale, frame_tags, layers, slices };
        proof {
            assert(r@ =~= default_meta_view());
        }
        r
    }
}

pub struct AsepriteFrameTupleView {
    pub name: Seq<char>,
    pub data: AsepriteFrameData,
}

/// A frame name paired with its geometry and timing, in the order the
/// sheet description listed it.
#[derive(Debug, Clone)]
pub struct AsepriteFrameTuple {
    pub name: String,
    pub data: AsepriteFrameData,
}

impl View for AsepriteFrameTuple {
    type V = AsepriteFrameTupleView;

    open spec fn view(&self) -> AsepriteFrameTupleView {
        AsepriteFrameTupleView { name: self.name@, data: self.data }
    }
}

/// The all-zero frame data a frame tuple starts with.
pub open spec fn default_frame_data() -> AsepriteFrameData {
    AsepriteFrameData {
        frame: AsepriteRect { x: 0, y: 0, w: 0, h: 0 },
        rotated: false,
        trimmed: false,
        sprite_source_size: AsepriteRect { x: 0, y: 0, w: 0, h: 0 },
        source_size: AsepriteSize { w: 0, h: 0 },
        duration: 0,
    }
}

impl AsepriteFrameTuple {
    pub fn new(name: String) -> (r: Self)
        ensures
            r@.name == name@,
            r@.data == default_frame_data(),
    {
        let data = AsepriteFrameData::new();
        Self { name, data }
    }
}

/// Errors of sheet parsing: structurally invalid data, or a failed file
/// read reported by the caller that does the I/O.
#[derive(Debug)]
pub enum AsepriteSheetError {
    Malformed(String),
    IO(String),
}

pub type AsepriteSheetResult<T> = Result<T, AsepriteSheetError>;

pub struct AsepriteSheetView {
    pub frames: Seq<AsepriteFrameTupleView>,
    pub meta: AsepriteMetaView,
}

/// A parsed sheet description: the ordered frames and the metadata.
#[derive(Debug, Clone)]
pub struct AsepriteSheet {
    pub frames: Vec<AsepriteFrameTuple>,
    pub meta: AsepriteMeta,
}

impl View for AsepriteSheet {
    type V = AsepriteSheetView;

    open spec fn view(&self) -> AsepriteSheetView {
        AsepriteSheetView {
            frames: self.frames@.map_values(|t: AsepriteFrameTuple| t@),
            meta: self.meta@,
        }
    }
}

impl AsepriteSheet {
    pub fn new() -> (r: Self)
        ensures
            r@.frames.len() == 0,
            r@.meta == default_meta_view(),
    {
        let frames: Vec<AsepriteFrameTuple> = Vec::new();
        let meta = AsepriteMeta::new();
        let r = Self { frames, meta };
        proof {
            assert(r@.frames =~= Seq::<AsepriteFrameTupleView>::empty());
        }
        r
    }
}

/// The size a `{"w": _, "h": _}` tree describes, if well formed.
pub open spec fn size_of_tree(t: JsonValue) -> Option<AsepriteSize> {
    if t is Object {
        let ms = t->Object_0@;
        let w = as_int(lookup_spec(ms, "w"@));
        let h = as_int(lookup_spec(ms, "h"@));
        if w is Some && h is Some && i16::MIN <= w->0 <= i16::MAX && i16::MIN <= h->0
            <= i16::MAX {
            Some(AsepriteSize { w: w->0 as i16, h: h->0 as i16 })
        } else {
            None
        }
    } else {
        None
    }
}

/// The rectangle a `{"x": _, "y": _, "w": _, "h": _}` tree describes.
pub open spec fn rect_of_tree(t: JsonValue) -> Option<AsepriteRect> {
    if t is Object {
        let ms = t->Object_0@;
        let x = as_int(lookup_spec(ms, "x"@));
        let y = as_int(lookup_spec(ms, "y"@));
        let w = as_int(lookup_spec(ms, "w"@));
        let h = as_int(lookup_spec(ms, "h"@));
        if x is Some && y is Some && w is Some && h is Some && i16::MIN <= x->0 <= i16::MAX
            && i16::MIN <= y->0 <= i16::MAX && i16::MIN <= w->0 <= i16::MAX && i16::MIN <= h->0
            <= i16::MAX {
            Some(
                AsepriteRect {
                    x: x->0 as i16,
                    y: y->0 as i16,
                    w: w->0 as i16,
                    h: h->0 as i16,
                },
            )
        } else {
            None
        }
    } else {
        None
    }
}

/// A member that must itself be a rectangle tree.
pub open spec fn rect_member(ms: Seq<(String, JsonValue)>, key: Seq<char>) -> Option<
    AsepriteRect,
> {
    match lookup_spec(ms, key) {
        Some(v) => rect_of_tree(v),
        None => None,
    }
}

/// A member that must itself be a size tree.
pub open spec fn size_member(ms: Seq<(String, JsonValue)>, key: Seq<char>) -> Option<
    AsepriteSize,
> {
    match lookup_spec(ms, key) {
        Some(v) => size_of_tree(v),
        None => None,
    }
}

/// The frame data a frame-entry tree describes: the rectangle pair, the
/// two flags, the source size and the duration, each present and in
/// range.
pub open spec fn frame_data_of_tree(t: JsonValue) -> Option<AsepriteFrameData> {
    if t is Object {
        let ms = t->Object_0@;
        let frame = rect_member(ms, "frame"@);
        let rotated = as_bool(lookup_spec(ms, "rotated"@));
        let trimmed = as_bool(lookup_spec(ms, "trimmed"@));
        let sss = rect_member(ms, "spriteSourceSize"@);
        let ss = size_member(ms, "sourceSize"@);
        let duration = as_int(lookup_spec(ms, "duration"@));
        if frame is Some && rotated is Some && trimmed is Some && sss is Some && ss is Some
            && duration is Some && i32::MIN <= duration->0 <= i32::MAX {
            Some(
                AsepriteFrameData {
                    frame: frame->0,
                    rotated: rotated->0,
                    trimmed: trimmed->0,
                    sprite_source_size: sss->0,
                    source_size: ss->0,
                    duration: duration->0 as i32,
                },
            )
        } else {
            None
        }
    } else {
        None
    }
}

/// The tag entry a tree of the `frameTags` array describes.
pub open spec fn tag_of_tree(t: JsonValue) -> Option<AsepriteFrameTagView> {
    if t is Object {
        let ms = t->Object_0@;
        let name = as_text(lookup_spec(ms, "name"@));
        let from = as_int(lookup_spec(ms, "from"@));
        let to = as_int(lookup_spec(ms, "to"@));
        let direction = as_text(lookup_spec(ms, "direction"@));
        let color = as_text(lookup_spec(ms, "color"@));
        if name is Some && from is Some && to is Some && direction is Some && color is Some && 0
            <= from->0 <= u8::MAX && 0 <= to->0 <= u8::MAX {
            Some(
                AsepriteFrameTagView {
                    name: name->0,
                    from: from->0 as u8,
                    to: to->0 as u8,
                    direction: direction->0,
                    color: color->0,
                },
            )
        } else {
            None
        }
    } else {
        None
    }
}

/// The tag entries of a `frameTags` array: every element must be well
/// formed.
pub open spec fn tags_of_trees(a: Seq<JsonValue>) -> Option<Seq<AsepriteFrameTagView>>
    decreases a.len(),
{
    if a.len() == 0 {
        Some(Seq::empty())
    } else {
        let prefix = tags_of_trees(a.drop_last());
        let last = tag_of_tree(a.last());
        if prefix is Some && last is Some {
            Some(prefix->0.push(last->0))
        } else {
            None
        }
    }
}

pub proof fn lemma_tags_of_trees_abort(a: Seq<JsonValue>, i: int)
    requires
        0 <= i < a.len(),
        tag_of_tree(a[i]) is None,
    ensures
        tags_of_trees(a) is None,
    decreases a.len(),
{
    if i < a.len() - 1 {
        assert(a.drop_last()[i] == a[i]);
        lemma_tags_of_trees_abort(a.drop_last(), i);
    }
}

/// The layer entry a tree of the `layers` array describes.
pub open spec fn layer_of_tree(t: JsonValue) -> Option<AsepriteFrameLayerView> {
    if t is Object {
        let ms = t->Object_0@;
        let name = as_text(lookup_spec(ms, "name"@));
        let opacity = as_int(lookup_spec(ms, "opacity"@));
        let blend_mode = as_text(lookup_spec(ms, "blendMode"@));
        if name is Some && opacity is Some && 0 <= opacity->0 <= u8::MAX && blend_mode is Some {
            Some(
                AsepriteFrameLayerView {
                    name: name->0,
                    opacity: opacity->0 as u8,
                    blend_mode: blend_mode->0,
                },
            )
        } else {
            None
        }
    } else {
        None
    }
}

/// The layer entries of a `layers` array.
pub open spec fn layers_of_trees(a: Seq<JsonValue>) -> Option<Seq<AsepriteFrameLayerView>>
    decreases a.len(),
{
    if a.len() == 0 {
        Some(Seq::empty())
    } else {
        let prefix = layers_of_trees(a.drop_last());
        let last = layer_of_tree(a.last());
        if prefix is Some && last is Some {
            Some(prefix->0.push(last->0))
        } else {
            None
        }
    }
}

pub proof fn lemma_layers_of_trees_abort(a: Seq<JsonValue>, i: int)
    requires
        0 <= i < a.len(),
        layer_of_tree(a[i]) is None,
    ensures
        layers_of_trees(a) is None,
    decreases a.len(),
{
    if i < a.len() - 1 {
        assert(a.drop_last()[i] == a[i]);
        lemma_layers_of_trees_abort(a.drop_last(), i);
    }
}

/// A slice entry: any object is accepted, its contents unread.
pub open spec fn slice_of_tree(t: JsonValue) -> Option<AsepriteFrameSlice> {
    if t is Object {
        Some(AsepriteFrameSlice {  })
    } else {
        None
    }
}

/// The slice entries of a `slices` array.
pub open spec fn slices_of_trees(a: Seq<JsonValue>) -> Option<Seq<AsepriteFrameSlice>>
    decreases a.len(),
{
    if a.len() == 0 {
        Some(Seq::empty())
    } else {
        let prefix = slices_of_trees(a.drop_last());
        let last = slice_of_tree(a.last());
        if prefix is Some && last is Some {
            Some(prefix->0.push(last->0))
        } else {
            None
        }
    }
}

pub proof fn lemma_slices_of_trees_abort(a: Seq<JsonValue>, i: int)
    requires
        0 <= i < a.len(),
        slice_of_tree(a[i]) is None,
    ensures
        slices_of_trees(a) is None,
    decreases a.len(),
{
    if i < a.len() - 1 {
        assert(a.drop_last()[i] == a[i]);
        lemma_slices_of_trees_abort(a.drop_last(), i);
    }
}

/// A member that must itself be an array of the metadata.
pub open spec fn array_member(ms: Seq<(String, JsonValue)>, key: Seq<char>) -> Option<
    Seq<JsonValue>,
> {
    as_array(lookup_spec(ms, key))
}

/// The metadata a `meta` tree describes: every field present with the
/// right type; members this pipeline does not recognize are ignored.
pub open spec fn meta_of_tree(t: JsonValue) -> Option<AsepriteMetaView> {
    if t is Object {
        let ms = t->Object_0@;
        let app = as_text(lookup_spec(ms, "app"@));
        let version = as_text(lookup_spec(ms, "version"@));
        let image = as_text(lookup_spec(ms, "image"@));
        let format = as_text(lookup_spec(ms, "format"@));
        let size = size_member(ms, "size"@);
        let scale = as_text(lookup_spec(ms, "scale"@));
        let frame_tags = array_member(ms, "frameTags"@);
        let layers = array_member(ms, "layers"@);
        let slices = array_member(ms, "slices"@);
        if app is Some && version is Some && image is Some && format is Some && size is Some
            && scale is Some && frame_tags is Some && layers is Some && slices is Some {
            let tags = tags_of_trees(frame_tags->0);
            let lys = layers_of_trees(layers->0);
            let slcs = slices_of_trees(slices->0);
            if tags is Some && lys is Some && slcs is Some {
                Some(
                    AsepriteMetaView {
                        app: app->0,
                        version: version->0,
                        image: image->0,
                        format: format->0,
                        size: size->0,
                        scale: scale->0,
                        frame_tags: tags->0,
                        layers: lys->0,
                        slices: slcs->0,
                    },
                )
            } else {
                None
            }
        } else {
            None
        }
    } else {
        None
    }
}

/// The metadata of a sheet description that carries no `meta` member.
pub open spec fn default_meta_view() -> AsepriteMetaView {
    AsepriteMetaView {
        app: Seq::empty(),
        version: Seq::empty(),
        image: Seq::empty(),
        format: Seq::empty(),
        size: AsepriteSize { w: 0, h: 0 },
        scale: Seq::empty(),
        frame_tags: Seq::empty(),
        layers: Seq::empty(),
        slices: Seq::empty(),
    }
}

/// The frame tuples of the `frames` object: one per member, in order,
/// each value a well-formed frame entry.
pub open spec fn frame_tuples_of_members(ms: Seq<(String, JsonValue)>) -> Option<
    Seq<AsepriteFrameTupleView>,
>
    decreases ms.len(),
{
    if ms.len() == 0 {
        Some(Seq::empty())
    } else {
        let prefix = frame_tuples_of_members(ms.drop_last());
        let last = frame_data_of_tree(ms.last().1);
        if prefix is Some && last is Some {
            Some(prefix->0.push(AsepriteFrameTupleView { name: ms.last().0@, data: last->0 }))
        } else {
            None
        }
    }
}

pub proof fn lemma_frame_tuples_abort(ms: Seq<(String, JsonValue)>, i: int)
    requires
        0 <= i < ms.len(),
        frame_data_of_tree(ms[i].1) is None,
    ensures
        frame_tuples_of_members(ms) is None,
    decreases ms.len(),
{
    if i < ms.len() - 1 {
        assert(ms.drop_last()[i] == ms[i]);
        lemma_frame_tuples_abort(ms.drop_last(), i);
    }
}

/// The sheet a whole description tree describes. The root must be an
/// object; a `frames` member that is an object contributes the frame
/// tuples (a `frames` member of any other type is ignored); a `meta`
/// member contributes the metadata, and a missing one leaves the
/// defaults; any other member is ignored.
pub open spec fn aseprite_sheet_of_tree(t: JsonValue) -> Option<AsepriteSheetView> {
    if t is Object {
        let ms = t->Object_0@;
        let frames = match lookup_spec(ms, "frames"@) {
            Some(JsonValue::Object(fms)) => frame_tuples_of_members(fms@),
            _ => Some(Seq::empty()),
        };
        let meta = match lookup_spec(ms, "meta"@) {
            Some(m) => meta_of_tree(m),
            None => Some(default_meta_view()),
        };
        if frames is Some && meta is Some {
            Some(AsepriteSheetView { frames: frames->0, meta: meta->0 })
        } else {
            None
        }
    } else {
        None
    }
}

/// Reads a size from its tree.
pub fn size_from_tree(t: &JsonValue) -> (r: Option<AsepriteSize>)
    ensures
        match r {
            Some(s) => size_of_tree(*t) == Some(s),
            None => size_of_tree(*t) is None,
        },
{
    match t {
        JsonValue::Object(ms) => {
            let w: i64 = match lookup(ms, "w") {
                Some(JsonValue::Int(i)) => *i,
                _ => { return None },
            };
            let h: i64 = match lookup(ms, "h") {
                Some(JsonValue::Int(i)) => *i,
                _ => { return None },
            };
            if w < i16::MIN as i64 || w > i16::MAX as i64 || h < i16::MIN as i64 || h
                > i16::MAX as i64 {
                return None;
            }
            Some(AsepriteSize::with_size(w as i16, h as i16))
        },
        _ => None,
    }
}

/// Reads a rectangle from its tree.
pub fn rect_from_tree(t: &JsonValue) -> (r: Option<AsepriteRect>)
    ensures
        match r {
            Some(s) => rect_of_tree(*t) == Some(s),
            None => rect_of_tree(*t) is None,
        },
{
    match t {
        JsonValue::Object(ms) => {
            let x: i64 = match lookup(ms, "x") {
                Some(JsonValue::Int(i)) => *i,
                _ => { return None },
            };
            let y: i64 = match lookup(ms, "y") {
                Some(JsonValue::Int(i)) => *i,
                _ => { return None },
            };
            let w: i64 = match lookup(ms, "w") {
                Some(JsonValue::Int(i)) => *i,
                _ => { return None },
            };
            let h: i64 = match lookup(ms, "h") {
                Some(JsonValue::Int(i)) => *i,
                _ => { return None },
            };
            if x < i16::MIN as i64 || x > i16::MAX as i64 || y < i16::MIN as i64 || y
                > i16::MAX as i64 || w < i16::MIN as i64 || w > i16::MAX as i64 || h
                < i16::MIN as i64 || h > i16::MAX as i64 {
                return None;
            }
            Some(AsepriteRect::with_coords_and_size(x as i16, y as i16, w as i16, h as i16))
        },
        _ => None,
    }
}

/// Reads one frame entry from its tree.
pub fn frame_data_from_tree(t: &JsonValue) -> (r: Option<AsepriteFrameData>)
    ensures
        match r {
            Some(d) => frame_data_of_tree(*t) == Some(d),
            None => frame_data_of_tree(*t) is None,
        },
{
    match t {
        JsonValue::Object(ms) => {
            let frame = match lookup(ms, "frame") {
                Some(v) => match rect_from_tree(v) {
                    Some(rc) => rc,
                    None => { return None },
                },
                None => { return None },
            };
            let rotated: bool = match lookup(ms, "rotated") {
                Some(JsonValue::Bool(b)) => *b,
                _ => { return None },
            };
            let trimmed: bool = match lookup(ms, "trimmed") {
                Some(JsonValue::Bool(b)) => *b,
                _ => { return None },
            };
            let sprite_source_size = match lookup(ms, "spriteSourceSize") {
                Some(v) => match rect_from_tree(v) {
                    Some(rc) => rc,
                    None => { return None },
                },
                None => { return None },
            };
            let source_size = match lookup(ms, "sourceSize") {
                Some(v) => match size_from_tree(v) {
                    Some(sz) => sz,
                    None => { return None },
                },
                None => { return None },
            };
            let duration: i64 = match lookup(ms, "duration") {
                Some(JsonValue::Int(i)) => *i,
                _ => { return None },
            };
            if duration < i32::MIN as i64 || duration > i32::MAX as i64 {
                return None;
            }
            Some(
                AsepriteFrameData {
                    frame,
                    rotated,
                    trimmed,
                    sprite_source_size,
                    source_size,
                    duration: duration as i32,
                },
            )
        },
        _ => None,
    }
}

/// Reads one tag entry from its tree.
pub fn tag_from_tree(t: &JsonValue) -> (r: Option<AsepriteFrameTag>)
    ensures
        match r {
            Some(g) => tag_of_tree(*t) == Some(g@),
            None => tag_of_tree(*t) is None,
        },
{
    match t {
        JsonValue::Object(ms) => {
            let name: String = match lookup(ms, "name") {
                Some(JsonValue::Text(s)) => s.clone(),
                _ => { return None },
            };
            let from: i64 = match lookup(ms, "from") {
                Some(JsonValue::Int(i)) => *i,
                _ => { return None },
            };
            let to: i64 = match lookup(ms, "to") {
                Some(JsonValue::Int(i)) => *i,
                _ => { return None },
            };
            let direction: String = match lookup(ms, "direction") {
                Some(JsonValue::Text(s)) => s.clone(),
                _ => { return None },
            };
            let color: String = match lookup(ms, "color") {
                Some(JsonValue::Text(s)) => s.clone(),
                _ => { return None },
            };
            if from < 0 || from > u8::MAX as i64 || to < 0 || to > u8::MAX as i64 {
                return None;
            }
            Some(AsepriteFrameTag { name, from: from as u8, to: to as u8, direction, color })
        },
        _ => None,
    }
}

/// Reads the `frameTags` array.
pub fn tags_from_trees(a: &Vec<JsonValue>) -> (r: Option<Vec<AsepriteFrameTag>>)
    ensures
        match r {
            Some(gs) => tags_of_trees(a@) == Some(
                gs@.map_values(|g: AsepriteFrameTag| g@),
            ),
            None => tags_of_trees(a@) is None,
        },
{
    let n = a.len();
    let mut out: Vec<AsepriteFrameTag> = Vec::new();
    let mut i: usize = 0;
    proof {
        assert(out@.map_values(|g: AsepriteFrameTag| g@) =~= Seq::<
            AsepriteFrameTagView,
        >::empty());
    }
    while i < n
        invariant
            i <= n,
            n == a@.len(),
            tags_of_trees(a@.take(i as int)) == Some(out@.map_values(|g: AsepriteFrameTag| g@)),
        decreases n - i,
    {
        proof {
            assert(a@.take(i + 1).drop_last() =~= a@.take(i as int));
            assert(a@.take(i + 1).last() == a@[i as int]);
        }
        match tag_from_tree(&a[i]) {
            Some(g) => {
                let ghost prev = out@;
                out.push(g);
                proof {
                    assert(out@.map_values(|g: AsepriteFrameTag| g@) =~= prev.map_values(
                        |g: AsepriteFrameTag| g@,
                    ).push(g@));
                }
            },
            None => {
                proof {
                    lemma_tags_of_trees_abort(a@, i as int);
                }
                return None;
            },
        }
        i = i + 1;
    }
    proof {
        assert(a@.take(n as int) =~= a@);
    }
    Some(out)
}

/// Reads one layer entry from its tree.
pub fn layer_from_tree(t: &JsonValue) -> (r: Option<AsepriteFrameLayer>)
    ensures
        match r {
            Some(l) => layer_of_tree(*t) == Some(l@),
            None => layer_of_tree(*t) is None,
        },
{
    match t {
        JsonValue::Object(ms) => {
            let name: String = match lookup(ms, "name") {
                Some(JsonValue::Text(s)) => s.clone(),
                _ => { return None },
            };
            let opacity: i64 = match lookup(ms, "opacity") {
                Some(JsonValue::Int(i)) => *i,
                _ => { return None },
            };
            let blend_mode: String = match lookup(ms, "blendMode") {
                Some(JsonValue::Text(s)) => s.clone(),
                _ => { return None },
            };
            if opacity < 0 || opacity > u8::MAX as i64 {
                return None;
            }
            Some(AsepriteFrameLayer { name, opacity: opacity as u8, blend_mode })
        },
        _ => None,
    }
}

/// Reads the `layers` array.
pub fn layers_from_trees(a: &Vec<JsonValue>) -> (r: Option<Vec<AsepriteFrameLayer>>)
    ensures
        match r {
            Some(ls) => layers_of_trees(a@) == Some(
                ls@.map_values(|l: AsepriteFrameLayer| l@),
            ),
            None => layers_of_trees(a@) is None,
        },
{
    let n = a.len();
    let mut out: Vec<AsepriteFrameLayer> = Vec::new();
    let mut i: usize = 0;
    proof {
        assert(out@.map_values(|l: AsepriteFrameLayer| l@) =~= Seq::<
            AsepriteFrameLayerView,
        >::empty());
    }
    while i < n
        invariant
            i <= n,
            n == a@.len(),
            layers_of_trees(a@.take(i as int)) == Some(
                out@.map_values(|l: AsepriteFrameLayer| l@),
            ),
        decreases n - i,
    {
        proof {
            assert(a@.take(i + 1).drop_last() =~= a@.take(i as int));
            assert(a@.take(i + 1).last() == a@[i as int]);
        }
        match layer_from_tree(&a[i]) {
            Some(l) => {
                let ghost prev = out@;
                out.push(l);
                proof {
                    assert(out@.map_values(|l: AsepriteFrameLayer| l@) =~= prev.map_values(
                        |l: AsepriteFrameLayer| l@,
                    ).push(l@));
                }
            },
            None => {
                proof {
                    lemma_layers_of_trees_abort(a@, i as int);
                }
                return None;
            },
        }
        i = i + 1;
    }
    proof {
        assert(a@.take(n as int) =~= a@);
    }
    Some(out)
}

/// Reads the `slices` array; each entry must be an object.
pub fn slices_from_trees(a: &Vec<JsonValue>) -> (r: Option<Vec<AsepriteFrameSlice>>)
    ensures
        match r {
            Some(ss) => slices_of_trees(a@) == Some(ss@),
            None => slices_of_trees(a@) is None,
        },
{
    let n = a.len();
    let mut out: Vec<AsepriteFrameSlice> = Vec::new();
    let mut i: usize = 0;
    while i < n
        invariant
            i <= n,
            n == a@.len(),
            slices_of_trees(a@.take(i as int)) == Some(out@),
        decreases n - i,
    {
        proof {
            assert(a@.take(i + 1).drop_last() =~= a@.take(i as int));
            assert(a@.take(i + 1).last() == a@[i as int]);
        }
        match &a[i] {
            JsonValue::Object(_) => {
                out.push(AsepriteFrameSlice {  });
            },
            _ => {
                proof {
                    lemma_slices_of_trees_abort(a@, i as int);
                }
                return None;
            },
        }
        i = i + 1;
    }
    proof {
        assert(a@.take(n as int) =~= a@);
    }
    Some(out)
}

/// Reads the sheet metadata from its tree.
pub fn meta_from_tree(t: &JsonValue) -> (r: Option<AsepriteMeta>)
    ensures
        match r {
            Some(m) => meta_of_tree(*t) == Some(m@),
            None => meta_of_tree(*t) is None,
        },
{
    match t {
        JsonValue::Object(ms) => {
            let app: String = match lookup(ms, "app") {
                Some(JsonValue::Text(s)) => s.clone(),
                _ => { return None },
            };
            let version: String = match lookup(ms, "version") {
                Some(JsonValue::Text(s)) => s.clone(),
                _ => { return None },
            };
            let image: String = match lookup(ms, "image") {
                Some(JsonValue::Text(s)) => s.clone(),
                _ => { return None },
            };
            let format: String = match lookup(ms, "format") {
                Some(JsonValue::Text(s)) => s.clone(),
                _ => { return None },
            };
            let size = match lookup(ms, "size") {
                Some(v) => match size_from_tree(v) {
                    Some(sz) => sz,
                    None => { return None },
                },
                None => { return None },
            };
            let scale: String = match lookup(ms, "scale") {
                Some(JsonValue::Text(s)) => s.clone(),
                _ => { return None },
            };
            let frame_tags = match lookup(ms, "frameTags") {
                Some(JsonValue::Array(a)) => match tags_from_trees(a) {
                    Some(gs) => gs,
                    None => { return None },
                },
                _ => { return None },
            };
            let layers = match lookup(ms, "layers") {
                Some(JsonValue::Array(a)) => match layers_from_trees(a) {
                    Some(ls) => ls,
                    None => { return None },
                },
                _ => { return None },
            };
            let slices = match lookup(ms, "slices") {
                Some(JsonValue::Array(a)) => match slices_from_trees(a) {
                    Some(ss) => ss,
                    None => { return None },
                },
                _ => { return None },
            };
            Some(
                AsepriteMeta {
                    app,
                    version,
                    image,
                    format,
                    size,
                    scale,
                    frame_tags,
                    layers,
                    slices,
                },
            )
        },
        _ => None,
    }
}

/// Reads the frame tuples from the members of the `frames` object.
pub fn frame_tuples_from_members(fms: &Vec<(String, JsonValue)>) -> (r: Option<
    Vec<AsepriteFrameTuple>,
>)
    ensures
        match r {
            Some(ts) => frame_tuples_of_members(fms@) == Some(
                ts@.map_values(|t: AsepriteFrameTuple| t@),
            ),
            None => frame_tuples_of_members(fms@) is None,
        },
{
    let n = fms.len();
    let mut out: Vec<AsepriteFrameTuple> = Vec::new();
    let mut i: usize = 0;
    proof {
        assert(out@.map_values(|t: AsepriteFrameTuple| t@) =~= Seq::<
            AsepriteFrameTupleView,
        >::empty());
    }
    while i < n
        invariant
            i <= n,
            n == fms@.len(),
            frame_tuples_of_members(fms@.take(i as int)) == Some(
                out@.map_values(|t: AsepriteFrameTuple| t@),
            ),
        decreases n - i,
    {
        proof {
            assert(fms@.take(i + 1).drop_last() =~= fms@.take(i as int));
            assert(fms@.take(i + 1).last() == fms@[i as int]);
        }
        match frame_data_from_tree(&fms[i].1) {
            Some(data) => {
                let name = fms[i].0.clone();
                let ghost prev = out@;
                out.push(AsepriteFrameTuple { name, data });
                proof {
                    assert(out@.map_values(|t: AsepriteFrameTuple| t@) =~= prev.map_values(
                        |t: AsepriteFrameTuple| t@,
                    ).push(AsepriteFrameTupleView { name: fms@[i as int].0@, data }));
                }
            },
            None => {
                proof {
                    lemma_frame_tuples_abort(fms@, i as int);
                }
                return None;
            },
        }
        i = i + 1;
    }
    proof {
        assert(fms@.take(n as int) =~= fms@);
    }
    Some(out)
}

/// Reads a whole sheet description from its tree.
pub fn sheet_from_tree(t: &JsonValue) -> (r: Option<AsepriteSheet>)
    ensures
        match r {
            Some(sheet) => aseprite_sheet_of_tree(*t) == Some(sheet@),
            None => aseprite_sheet_of_tree(*t) is None,
        },
{
    match t {
        JsonValue::Object(ms) => {
            let frames: Vec<AsepriteFrameTuple> = match lookup(ms, "frames") {
                Some(JsonValue::Object(fms)) => match frame_tuples_from_members(fms) {
                    Some(ts) => ts,
                    None => { return None },
                },
                _ => Vec::new(),
            };
            let meta: AsepriteMeta = match lookup(ms, "meta") {
                Some(m) => match meta_from_tree(m) {
                    Some(m) => m,
                    None => { return None },
                },
                None => AsepriteMeta::new(),
            };
            let sheet = AsepriteSheet { frames, meta };
            proof {
                if (lookup_spec(ms@, "frames"@) matches Some(JsonValue::Object(fv))) {
                } else {
                    assert(sheet@.frames =~= Seq::<AsepriteFrameTupleView>::empty());
                }
            }
            Some(sheet)
        },
        _ => None,
    }
}

impl AsepriteSheet {
    /// Parses a sheet description from JSON text. The text must be a
    /// JSON object; its `frames` and `meta` members are read as the
    /// schema above says, and every other member is ignored. A text that
    /// is not valid JSON, a non-object root, or an ill-formed frame or
    /// meta entry is a malformed-input error: no partial sheet is
    /// returned. Reading the file is the caller's part; a failed read is
    /// reported as [`AsepriteSheetError::IO`] there.
    pub fn from_json_str(s: &str) -> (r: AsepriteSheetResult<AsepriteSheet>)
        ensures
            match r {
                Ok(sheet) => json_tree_of(s@) is Some && aseprite_sheet_of_tree(
                    json_tree_of(s@)->0,
                ) == Some(sheet@),
                Err(e) => e is Malformed && (json_tree_of(s@) is None || aseprite_sheet_of_tree(
                    json_tree_of(s@)->0,
                ) is None),
            },
    {
        let t = match parse_json(s) {
            Ok(t) => t,
            Err(_) => {
                return Err(
                    AsepriteSheetError::Malformed("failed to parse sheet JSON".to_owned()),
                );
            },
        };
        match sheet_from_tree(&t) {
            Some(sheet) => Ok(sheet),
            None => Err(AsepriteSheetError::Malformed("invalid sheet structure".to_owned())),
        }
    }
}

/// The animation tag of a frame name: the characters strictly between
/// the first `(` and the next `)` after it, trimmed of surrounding
/// whitespace; nothing when the name has no such pair.
pub open spec fn anim_name_spec(name: Seq<char>) -> Option<Seq<char>> {
    let open = strutil::find_char_from(name, '(', 0);
    if open < name.len() {
        let close = strutil::find_char_from(name, ')', open + 1);
        if close < name.len() {
            Some(strutil::trim_spec(name.subrange(open + 1, close)))
        } else {
            None
        }
    } else {
        None
    }
}

/// Extracts the animation tag from a frame name.
pub fn from_aseprite_frame_name_to_animation_name<'a>(frame_name: &'a str) -> (r: Option<
    &'a str,
>)
    ensures
        match r {
            Some(s) => anim_name_spec(frame_name@) == Some(s@),
            None => anim_name_spec(frame_name@) is None,
        },
{
    let n = frame_name.unicode_len();
    let open = strutil::find_char(frame_name, '(', 0);
    if open == n {
        return None;
    }
    let close = strutil::find_char(frame_name, ')', open + 1);
    if close == n {
        return None;
    }
    let inner = frame_name.substring_char(open + 1, close);
    Some(strutil::trim(inner))
}

/// Derives `T` from a parsed sheet description, given the resolved
/// containing folder of the sheet file.
pub trait FromAsepriteSheet<T>: Sized {
    /// Exactly when and what the derivation yields.
    spec fn from_sheet_ok(containing_folder: Seq<char>, sheet: AsepriteSheetView, r: Option<T>) -> bool;

    /// The derivation. The caller resolves `containing_folder` (an
    /// absolute path where the image reference is relative).
    fn from_aseprite_sheet(containing_folder: &str, sheet: &AsepriteSheet) -> (r: Option<T>)
        ensures
            Self::from_sheet_ok(containing_folder@, sheet@, r),
    ;
}

/// The sprite-sheet asset a sheet description derives to: rejected when
/// a pixel dimension is not positive or the resolved image path has no
/// stem; otherwise named after the image's file stem, with the image
/// path resolved against the containing folder where it is relative.
pub open spec fn derived_sprite_sheet(folder: Seq<char>, s: AsepriteSheetView) -> Option<
    SidSpriteSheetAssetView,
> {
    let meta = s.meta;
    if meta.size.w <= 0 || meta.size.h <= 0 {
        None
    } else {
        let path = if strutil::spec_is_absolute(meta.image) {
            meta.image
        } else {
            strutil::path_join_spec(folder, meta.image)
        };
        match strutil::file_stem_spec(path) {
            Some(stem) => Some(
                SidSpriteSheetAssetView {
                    name: stem,
                    image_path: meta.image,
                    image_from_path: path,
                    width: meta.size.w as SidSpriteSheetDim,
                    height: meta.size.h as SidSpriteSheetDim,
                    format: meta.format,
                },
            ),
            None => None,
        }
    }
}

impl FromAsepriteSheet<SidSpriteSheetAsset> for SidSpriteSheetAsset {
    open spec fn from_sheet_ok(
        containing_folder: Seq<char>,
        sheet: AsepriteSheetView,
        r: Option<SidSpriteSheetAsset>,
    ) -> bool {
        match r {
            Some(a) => derived_sprite_sheet(containing_folder, sheet) == Some(a@),
            None => derived_sprite_sheet(containing_folder, sheet) is None,
        }
    }

    fn from_aseprite_sheet(containing_folder: &str, sheet: &AsepriteSheet) -> (r: Option<
        SidSpriteSheetAsset,
    >) {
        let meta = &sheet.meta;
        let width = meta.size.w;
        let height = meta.size.h;
        if width <= 0 || height <= 0 {
            return None;
        }
        let image_name = meta.image.clone();
        let path: String = if strutil::path_is_absolute(meta.image.as_str()) {
            meta.image.clone()
        } else {
            strutil::path_join(containing_folder, meta.image.as_str())
        };
        let name: String = match strutil::file_stem(path.as_str()) {
            Some(name) => name,
            None => {
                return None;
            },
        };
        let format = meta.format.clone();
        Some(
            SidSpriteSheetAsset::with_data(
                name,
                image_name,
                path,
                width as SidSpriteSheetDim,
                height as SidSpriteSheetDim,
                format,
            ),
        )
    }
}

/// A derived sprite-sheet asset is named after the image reference's
/// file stem, whether the image path was given as absolute or as
/// relative to the containing folder.
pub proof fn lemma_derived_name_is_image_stem(folder: Seq<char>, s: AsepriteSheetView)
    requires
        derived_sprite_sheet(folder, s) is Some,
    ensures
        strutil::file_stem_spec(s.meta.image) is Some,
        derived_sprite_sheet(folder, s)->0.name == strutil::file_stem_spec(s.meta.image)->0,
{
    let img = s.meta.image;
    if !strutil::spec_is_absolute(img) {
        let pre = folder + seq!['/'];
        let joined = strutil::path_join_spec(folder, img);
        assert(joined =~= pre + img);
        strutil::lemma_last_index_of_concat(pre, img, '/');
        assert(pre.last() == '/');
        assert(strutil::last_index_of(pre, '/') == pre.len() - 1);
        strutil::lemma_last_index_of_bounds(img, '/');
        if strutil::last_index_of(img, '/') >= 0 {
            assert(strutil::file_name_spec(joined) =~= strutil::file_name_spec(img));
        } else {
            assert(strutil::file_name_spec(joined) =~= img);
            assert(strutil::file_name_spec(img) =~= img);
        }
        assert(strutil::file_name_spec(joined) == strutil::file_name_spec(img));
    }
}

/// Derives `T` from the frame tuples of a sheet and its derived
/// sprite-sheet asset.
pub trait FromAsepriteFrameTuplesAndSidSpriteSheet<T>: Sized {
    /// Exactly when and what the derivation yields.
    spec fn from_tuples_ok(
        tuples: Seq<AsepriteFrameTupleView>,
        sheet: SidSpriteSheetAssetView,
        r: Option<T>,
    ) -> bool;

    fn from_aseprite_frame_tuples_and_sid_sprite_sheet(
        aseprite_tuples: &Vec<AsepriteFrameTuple>,
        sheet: &SidSpriteSheetAsset,
    ) -> (r: Option<T>)
        ensures
            Self::from_tuples_ok(
                aseprite_tuples@.map_values(|t: AsepriteFrameTuple| t@),
                sheet@,
                r,
            ),
    ;
}

/// The frame record one frame entry converts to: its rectangle and
/// duration must fit the fixed-width target types, else nothing.
pub open spec fn derived_frame(d: AsepriteFrameData) -> Option<SidAnimationFrameAsset> {
    if 0 <= d.frame.x && 0 <= d.frame.y && 0 <= d.frame.w && 0 <= d.frame.h && 0 <= d.duration
        <= u16::MAX {
        Some(
            SidAnimationFrameAsset {
                pos: SidAnimationFramePos {
                    x: d.frame.x as u16,
                    y: d.frame.y as u16,
                },
                dims: SidAnimationFrameDims {
                    width: d.frame.w as u16,
                    height: d.frame.h as u16,
                },
                duration: d.duration as u16,
            },
        )
    } else {
        None
    }
}

/// The frame records of the kept tuples: every one must convert, or the
/// whole definition fails.
pub open spec fn derived_frames(ts: Seq<AsepriteFrameTupleView>) -> Option<
    Seq<SidAnimationFrameAsset>,
>
    decreases ts.len(),
{
    if ts.len() == 0 {
        Some(Seq::empty())
    } else {
        let prefix = derived_frames(ts.drop_last());
        let last = derived_frame(ts.last().data);
        if prefix is Some && last is Some {
            Some(prefix->0.push(last->0))
        } else {
            None
        }
    }
}

/// A successful conversion keeps one record per tuple.
pub proof fn lemma_derived_frames_len(ts: Seq<AsepriteFrameTupleView>)
    requires
        derived_frames(ts) is Some,
    ensures
        derived_frames(ts)->0.len() == ts.len(),
    decreases ts.len(),
{
    if ts.len() > 0 {
        lemma_derived_frames_len(ts.drop_last());
    }
}

pub proof fn lemma_derived_frames_abort(ts: Seq<AsepriteFrameTupleView>, i: int)
    requires
        0 <= i < ts.len(),
        derived_frame(ts[i].data) is None,
    ensures
        derived_frames(ts) is None,
    decreases ts.len(),
{
    if i < ts.len() - 1 {
        assert(ts.drop_last()[i] == ts[i]);
        lemma_derived_frames_abort(ts.drop_last(), i);
    }
}

/// The number of frames an animation definition keeps: the input count,
/// capped.
pub open spec fn capped_frame_count(len: int) -> int {
    if len <= sid::SID_MAX_ANIMATION_FRAME_COUNT {
        len
    } else {
        sid::SID_MAX_ANIMATION_FRAME_COUNT as int
    }
}

/// The animation definition derived from the frame tuples: the first
/// `min(input length, cap)` tuples are converted — excess tuples are
/// dropped, never an error — and one unconvertible kept tuple fails the
/// whole definition. The definition and its sheet reference both carry
/// the sheet's name.
pub open spec fn derived_animation_def(
    ts: Seq<AsepriteFrameTupleView>,
    sheet: SidSpriteSheetAssetView,
) -> Option<SidAnimationDefAssetView> {
    let kept = ts.take(capped_frame_count(ts.len() as int));
    match derived_frames(kept) {
        Some(fs) => Some(
            SidAnimationDefAssetView {
                frame_count: kept.len() as SidAnimationFrameIndex,
                frames: fs,
                name: sheet.name,
                sheet_name: sheet.name,
            },
        ),
        None => None,
    }
}

/// A derived animation definition keeps `min(input length, cap)`
/// frames: whether the derivation succeeds depends on the kept tuples
/// alone — excess tuples are dropped, never an error — and on success
/// the frame count is exactly that minimum.
pub proof fn lemma_animation_def_frame_cap(
    ts: Seq<AsepriteFrameTupleView>,
    sheet: SidSpriteSheetAssetView,
)
    ensures
        derived_animation_def(ts, sheet) is Some <==> derived_frames(
            ts.take(capped_frame_count(ts.len() as int)),
        ) is Some,
        derived_animation_def(ts, sheet) matches Some(d) ==> d.frame_count
            == capped_frame_count(ts.len() as int) && d.frames.len() == capped_frame_count(
            ts.len() as int,
        ),
{
    let kept = ts.take(capped_frame_count(ts.len() as int));
    if derived_frames(kept) is Some {
        lemma_derived_frames_len(kept);
    }
}

impl FromAsepriteFrameTuplesAndSidSpriteSheet<
    SidAnimationDefAsset,
> for SidAnimationDefAsset {
    open spec fn from_tuples_ok(
        tuples: Seq<AsepriteFrameTupleView>,
        sheet: SidSpriteSheetAssetView,
        r: Option<SidAnimationDefAsset>,
    ) -> bool {
        match r {
            Some(a) => derived_animation_def(tuples, sheet) == Some(a@) && a@.wf(),
            None => derived_animation_def(tuples, sheet) is None,
        }
    }

    fn from_aseprite_frame_tuples_and_sid_sprite_sheet(
        aseprite_tuples: &Vec<AsepriteFrameTuple>,
        sheet: &SidSpriteSheetAsset,
    ) -> (r: Option<SidAnimationDefAsset>) {
        let ghost tsv = aseprite_tuples@.map_values(|t: AsepriteFrameTuple| t@);
        let cap = SidAnimationDefAsset::max_frame_count();
        let count: usize = if aseprite_tuples.len() <= cap as usize {
            aseprite_tuples.len()
        } else {
            cap as usize
        };
        let mut frames: Vec<SidAnimationFrameAsset> = Vec::new();
        let mut i: usize = 0;
        proof {
            assert(tsv.take(count as int).take(0) =~= Seq::<AsepriteFrameTupleView>::empty());
        }
        while i < count
            invariant
                i <= count,
                count == capped_frame_count(tsv.len() as int),
                count <= aseprite_tuples@.len(),
                tsv == aseprite_tuples@.map_values(|t: AsepriteFrameTuple| t@),
                derived_frames(tsv.take(count as int).take(i as int)) == Some(frames@),
            decreases count - i,
        {
            let ghost kept = tsv.take(count as int);
            proof {
                assert(kept.take(i + 1).drop_last() =~= kept.take(i as int));
                assert(kept.take(i + 1).last() == tsv[i as int]);
            }
            let data = &aseprite_tuples[i].data;
            let frame = &data.frame;
            if frame.x < 0 || frame.y < 0 || frame.w < 0 || frame.h < 0 || data.duration < 0
                || data.duration > u16::MAX as i32 {
                proof {
                    assert(kept[i as int] == tsv[i as int]);
                    lemma_derived_frames_abort(kept, i as int);
                }
                return None;
            }
            let pos = SidAnimationFramePos::with_coords(frame.x as u16, frame.y as u16);
            let dim = SidAnimationFrameDims::with_width_and_height(
                frame.w as u16,
                frame.h as u16,
            );
            let duration: u16 = data.duration as u16;
            let frame_asset = SidAnimationFrameAsset::with_data(pos, dim, duration);
            frames.push(frame_asset);
            i = i + 1;
        }
        proof {
            assert(tsv.take(count as int).take(count as int) =~= tsv.take(count as int));
            lemma_derived_frames_len(tsv.take(count as int));
        }
        let sheet_name = sheet.name.clone();
        let name = sheet_name.clone();
        let animation_def = SidAnimationDefAsset::with_data(
            count as SidAnimationFrameIndex,
            frames,
            name,
            sheet_name,
        );
        Some(animation_def)
    }
}

/// The animation tags of all frames, in order; nothing where any frame
/// name has no tag.
pub open spec fn frame_tags_of(frames: Seq<AsepriteFrameTupleView>) -> Option<Seq<Seq<char>>>
    decreases frames.len(),
{
    if frames.len() == 0 {
        Some(Seq::empty())
    } else {
        let prefix = frame_tags_of(frames.drop_last());
        let last = anim_name_spec(frames.last().name);
        if prefix is Some && last is Some {
            Some(prefix->0.push(last->0))
        } else {
            None
        }
    }
}

pub proof fn lemma_frame_tags_abort(frames: Seq<AsepriteFrameTupleView>, i: int)
    requires
        0 <= i < frames.len(),
        anim_name_spec(frames[i].name) is None,
    ensures
        frame_tags_of(frames) is None,
    decreases frames.len(),
{
    if i < frames.len() - 1 {
        assert(frames.drop_last()[i] == frames[i]);
        lemma_frame_tags_abort(frames.drop_last(), i);
    }
}

/// The animation covering the run of `tag` over the frame indices
/// `[start, end)` of the definition `def_name`, named
/// `{def_name}_{tag}`.
pub open spec fn run_anim_view(
    def_name: Seq<char>,
    tag: Seq<char>,
    start: int,
    end: int,
) -> SidAnimationAssetView {
    SidAnimationAssetView {
        offset: start as SidAnimationFrameIndex,
        length: (end - start) as SidAnimationFrameIndex,
        name: def_name + seq!['_'] + tag,
        def_name: def_name,
    }
}

/// The animations grouped from a sheet's tag sequence: one per maximal
/// run of equal consecutive tags, in frame order; a tag change closes
/// the run, and the final run is always closed.
pub open spec fn derived_animations(def_name: Seq<char>, tags: Seq<Seq<char>>) -> Seq<
    SidAnimationAssetView,
>
    decreases tags.len(),
{
    if tags.len() == 0 {
        Seq::empty()
    } else if tags.len() == 1 {
        seq![run_anim_view(def_name, tags[0], 0, 1)]
    } else {
        let prev = derived_animations(def_name, tags.drop_last());
        if tags[tags.len() - 1] == tags[tags.len() - 2] {
            let open_run = prev.last();
            prev.update(
                prev.len() - 1,
                SidAnimationAssetView {
                    offset: open_run.offset,
                    length: (tags.len() - open_run.offset) as SidAnimationFrameIndex,
                    name: open_run.name,
                    def_name: open_run.def_name,
                },
            )
        } else {
            prev.push(
                run_anim_view(def_name, tags.last(), tags.len() - 1, tags.len() as int),
            )
        }
    }
}

/// The grouped animations tile the frame range exactly: the first
/// starts at frame zero, each next one starts where the previous ended,
/// and the last ends at the frame count.
pub proof fn lemma_derived_animations_cover(def_name: Seq<char>, tags: Seq<Seq<char>>)
    requires
        0 < tags.len() <= u16::MAX,
    ensures
        derived_animations(def_name, tags).len() >= 1,
        derived_animations(def_name, tags)[0].offset == 0,
        derived_animations(def_name, tags).last().offset + derived_animations(
            def_name,
            tags,
        ).last().length == tags.len(),
        forall|i: int|
            0 <= i < derived_animations(def_name, tags).len() - 1 ==> #[trigger] derived_animations(
                def_name,
                tags,
            )[i].offset + derived_animations(def_name, tags)[i].length == derived_animations(
                def_name,
                tags,
            )[i + 1].offset,
    decreases tags.len(),
{
    if tags.len() > 1 {
        lemma_derived_animations_cover(def_name, tags.drop_last());
        let prev = derived_animations(def_name, tags.drop_last());
        let cur = derived_animations(def_name, tags);
        assert(forall|i: int| 0 <= i < prev.len() - 1 ==> #[trigger] cur[i] == prev[i]);
        assert(cur[0].offset == 0);
    }
}

/// Groups a sheet's frames into animations over its derived definition.
/// Walking the frames in their original order, each maximal run of
/// frames with one tag becomes one animation `{definition}_{tag}` over
/// that index range. A sheet with no frames yields no animations; a
/// frame name without a tag, or more frames than a 16-bit index range
/// can span, is a malformed-input error and yields none.
pub fn from_aseprite_sheet_to_sid_animations(
    sheet: &AsepriteSheet,
    def: &SidAnimationDefAsset,
) -> (r: AsepriteSheetResult<Vec<SidAnimationAsset>>)
    ensures
        match r {
            Ok(v) => sheet@.frames.len() <= u16::MAX && frame_tags_of(sheet@.frames) is Some
                && v@.map_values(|a: SidAnimationAsset| a@) == derived_animations(
                def@.name,
                frame_tags_of(sheet@.frames)->0,
            ),
            Err(e) => e is Malformed && (sheet@.frames.len() > u16::MAX || frame_tags_of(
                sheet@.frames,
            ) is None),
        },
{
    let ghost framesv = sheet@.frames;
    let n = sheet.frames.len();
    if n > u16::MAX as usize {
        return Err(AsepriteSheetError::Malformed("too many frames to group".to_owned()));
    }
    let mut tags: Vec<String> = Vec::new();
    let mut i: usize = 0;
    proof {
        assert(framesv.take(0) =~= Seq::<AsepriteFrameTupleView>::empty());
        assert(tags@.map_values(|s: String| s@) =~= Seq::<Seq<char>>::empty());
    }
    while i < n
        invariant
            i <= n,
            n == framesv.len(),
            framesv == sheet@.frames,
            tags@.len() == i,
            frame_tags_of(framesv.take(i as int)) == Some(tags@.map_values(|s: String| s@)),
        decreases n - i,
    {
        proof {
            assert(framesv.take(i + 1).drop_last() =~= framesv.take(i as int));
            assert(framesv.take(i + 1).last() == framesv[i as int]);
        }
        match from_aseprite_frame_name_to_animation_name(sheet.frames[i].name.as_str()) {
            Some(tag) => {
                let ghost prev = tags@;
                tags.push(tag.to_owned());
                proof {
                    assert(tags@.map_values(|s: String| s@) =~= prev.map_values(
                        |s: String| s@,
                    ).push(tag@));
                }
            },
            None => {
                proof {
                    lemma_frame_tags_abort(framesv, i as int);
                }
                return Err(
                    AsepriteSheetError::Malformed("malformed animation name".to_owned()),
                );
            },
        }
        i = i + 1;
    }
    proof {
        assert(framesv.take(n as int) =~= framesv);
    }
    let ghost tagsv = tags@.map_values(|s: String| s@);
    let mut out: Vec<SidAnimationAsset> = Vec::new();
    if n == 0 {
        proof {
            assert(out@.map_values(|a: SidAnimationAsset| a@) =~= derived_animations(
                def@.name,
                tagsv,
            ));
        }
        return Ok(out);
    }
    let mut start: usize = 0;
    let mut j: usize = 1;
    proof {
        assert(tagsv.take(1).len() == 1);
        assert(tagsv.take(1)[0] == tagsv[0]);
        assert(derived_animations(def@.name, tagsv.take(1)) =~= Seq::<
            SidAnimationAssetView,
        >::empty().push(run_anim_view(def@.name, tagsv[0], 0, 1)));
        assert(out@.map_values(|a: SidAnimationAsset| a@) =~= Seq::<
            SidAnimationAssetView,
        >::empty());
    }
    while j < n
        invariant
            1 <= j <= n,
            start < j,
            n == tagsv.len(),
            n <= u16::MAX,
            tags@.len() == n,
            tagsv == tags@.map_values(|s: String| s@),
            derived_animations(def@.name, tagsv.take(j as int)) == out@.map_values(
                |a: SidAnimationAsset| a@,
            ).push(run_anim_view(def@.name, tagsv[start as int], start as int, j as int)),
        decreases n - j,
    {
        proof {
            assert(tagsv.take(j + 1).drop_last() =~= tagsv.take(j as int));
            assert(tagsv.take(j + 1).last() == tagsv[j as int]);
            assert(tagsv.take(j + 1)[j - 1] == tagsv[j - 1]);
        }
        let ghost out_prev = out@.map_values(|a: SidAnimationAsset| a@);
        if tags[j] == tags[j - 1] {
            proof {
                assert(derived_animations(def@.name, tagsv.take(j + 1)) =~= out_prev.push(
                    run_anim_view(def@.name, tagsv[start as int], start as int, j + 1),
                ));
            }
        } else {
            let name = def.name.clone().concat("_").concat(tags[start].as_str());
            proof {
                reveal_strlit("_");
                assert("_"@ =~= seq!['_']);
                assert(name@ =~= def@.name + seq!['_'] + tagsv[start as int]);
            }
            let asset = SidAnimationAsset::from_def(
                def,
                name,
                start as u16,
                (j - start) as u16,
            );
            proof {
                assert(asset@ == run_anim_view(
                    def@.name,
                    tagsv[start as int],
                    start as int,
                    j as int,
                ));
            }
            out.push(asset);
            proof {
                assert(out@.map_values(|a: SidAnimationAsset| a@) =~= out_prev.push(asset@));
                assert(derived_animations(def@.name, tagsv.take(j + 1)) =~= out@.map_values(
                    |a: SidAnimationAsset| a@,
                ).push(run_anim_view(def@.name, tagsv[j as int], j as int, j + 1)));
            }
            start = j;
        }
        j = j + 1;
    }
    proof {
        assert(tagsv.take(n as int) =~= tagsv);
    }
    let ghost out_prev = out@.map_values(|a: SidAnimationAsset| a@);
    let name = def.name.clone().concat("_").concat(tags[start].as_str());
    proof {
        reveal_strlit("_");
        assert("_"@ =~= seq!['_']);
        assert(name@ =~= def@.name + seq!['_'] + tagsv[start as int]);
    }
    let asset = SidAnimationAsset::from_def(def, name, start as u16, (n - start) as u16);
    proof {
        assert(asset@ == run_anim_view(def@.name, tagsv[start as int], start as int, n as int));
    }
    out.push(asset);
    proof {
        assert(out@.map_values(|a: SidAnimationAsset| a@) =~= out_prev.push(asset@));
    }
    Ok(out)
}

/// What one sheet-description text converts to, given the resolved
/// containing folder: the sprite-sheet asset, the animation definition,
/// and the grouped animations — or nothing where any stage rejects the
/// sheet.
pub open spec fn converted_assets_of(text: Seq<char>, folder: Seq<char>) -> Option<
    (SidSpriteSheetAssetView, SidAnimationDefAssetView, Seq<SidAnimationAssetView>),
> {
    match json_tree_of(text) {
        Some(t) => match aseprite_sheet_of_tree(t) {
            Some(sv) => match derived_sprite_sheet(folder, sv) {
                Some(sheet) => match derived_animation_def(sv.frames, sheet) {
                    Some(defv) => if sv.frames.len() <= u16::MAX && frame_tags_of(sv.frames)
                        is Some {
                        Some(
                            (
                                sheet,
                                defv,
                                derived_animations(defv.name, frame_tags_of(sv.frames)->0),
                            ),
                        )
                    } else {
                        None
                    },
                    None => None,
                },
                None => None,
            },
            None => None,
        },
        None => None,
    }
}

/// Converts one sheet-description text into its three asset kinds: the
/// compute core of the stage-one driver, which reads the file, resolves
/// the containing folder, and writes what this returns. A sheet any
/// stage rejects yields nothing and is skipped by the driver.
pub fn from_aseprite_sheet_text_to_sid_assets(text: &str, containing_folder: &str) -> (r:
    Option<(SidSpriteSheetAsset, SidAnimationDefAsset, Vec<SidAnimationAsset>)>)
    ensures
        match r {
            Some(assets) => converted_assets_of(text@, containing_folder@) == Some(
                (
                    assets.0@,
                    assets.1@,
                    assets.2@.map_values(|a: SidAnimationAsset| a@),
                ),
            ) && assets.1@.wf(),
            None => converted_assets_of(text@, containing_folder@) is None,
        },
{
    let sheet = match AsepriteSheet::from_json_str(text) {
        Ok(sheet) => sheet,
        Err(_) => {
            return None;
        },
    };
    let sheet_asset = match SidSpriteSheetAsset::from_aseprite_sheet(containing_folder, &sheet) {
        Some(a) => a,
        None => {
            return None;
        },
    };
    let def = match SidAnimationDefAsset::from_aseprite_frame_tuples_and_sid_sprite_sheet(
        &sheet.frames,
        &sheet_asset,
    ) {
        Some(d) => d,
        None => {
            return None;
        },
    };
    let anims = match from_aseprite_sheet_to_sid_animations(&sheet, &def) {
        Ok(v) => v,
        Err(_) => {
            return None;
        },
    };
    Some((sheet_asset, def, anims))
}

} // verus!
