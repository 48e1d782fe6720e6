//! The three derived asset kinds — sprite sheet, animation definition,
//! animation — with their intermediate JSON-tree form.
//!
//! Each asset can be turned into a JSON tree (the intermediate file
//! format) and read back from one; reading back a tree produced here
//! recovers the asset exactly, which keeps repacking the same assets
//! byte-identical.

use vstd::prelude::*;

use crate::json::JsonValue;
use crate::json::as_array;
use crate::json::as_int;
use crate::json::as_object;
use crate::json::as_text;
use crate::json::lemma_lookup_head;
use crate::json::lemma_lookup_skip;
use crate::json::lookup;
use crate::json::lookup_spec;
use crate::sid;
use crate::sid::SidAnimationFrameCoord;
use crate::sid::SidAnimationFrameDim;
use crate::sid::SidAnimationFrameDuration;
use crate::sid::SidAnimationFrameIndex;
use crate::sid::SidSpriteSheetDim;

verus! {

/// Errors scoped to one asset: structurally invalid data, or a failed
/// file operation reported by the caller that does the I/O.
#[derive(Debug)]
pub enum SidAssetError {
    Malformed(String),
    IO(String),
}

pub type SidAssetResult<T> = Result<T, SidAssetError>;

/// An asset that is written to the intermediate stage under a namespace
/// folder, as `{name}.json`.
pub trait SidPackedAsset {
    spec fn namespace_spec() -> Seq<char>;

    /// The fixed namespace folder label of this asset kind.
    fn namespace() -> (r: &'static str)
        ensures
            r@ == Self::namespace_spec(),
    ;

    /// The asset's name, which the intermediate file is named after.
    spec fn spec_name(&self) -> Seq<char>;

    /// Whether `t` is exactly the intermediate JSON tree of this asset.
    spec fn tree_ok(&self, t: JsonValue) -> bool;

    /// Builds the asset's intermediate JSON tree.
    fn to_tree(&self) -> (t: JsonValue)
        ensures
            self.tree_ok(t),
    ;

    /// The intermediate file name, `{name}.json`.
    fn file_name(&self) -> (r: String)
        ensures
            r@ == self.spec_name() + ".json"@,
    ;
}

pub struct SidSpriteSheetAssetView {
    pub name: Seq<char>,
    pub image_path: Seq<char>,
    pub image_from_path: Seq<char>,
    pub width: SidSpriteSheetDim,
    pub height: SidSpriteSheetDim,
    pub format: Seq<char>,
}

/// A sprite-sheet asset: the source image (as found, and relative to the
/// namespace folder), its pixel dimensions, and its pixel-format label.
#[derive(Debug, Clone)]
pub struct SidSpriteSheetAsset {
    pub name: String,
    pub image_path: String,
    pub image_from_path: String,
    pub width: SidSpriteSheetDim,
    pub height: SidSpriteSheetDim,
    pub format: String,
}

impl View for SidSpriteSheetAsset {
    type V = SidSpriteSheetAssetView;

    open spec fn view(&self) -> SidSpriteSheetAssetView {
        SidSpriteSheetAssetView {
            name: self.name@,
            image_path: self.image_path@,
            image_from_path: self.image_from_path@,
            width: self.width,
            height: self.height,
            format: self.format@,
        }
    }
}

impl SidSpriteSheetAsset {
    pub fn new() -> (r: Self)
        ensures
            r@.name.len() == 0,
            r@.image_path.len() == 0,
            r@.image_from_path.len() == 0,
            r@.width == 0,
            r@.height == 0,
            r@.format.len() == 0,
    {
        Self::with_data(String::new(), String::new(), String::new(), 0, 0, String::new())
    }

    pub fn with_data(
        name: String,
        image_path: String,
        image_from_path: String,
        width: SidSpriteSheetDim,
        height: SidSpriteSheetDim,
        format: String,
    ) -> (r: Self)
        ensures
            r@.name == name@,
            r@.image_path == image_path@,
            r@.image_from_path == image_from_path@,
            r@.width == width,
            r@.height == height,
            r@.format == format@,
    {
        Self { name, image_path, image_from_path, width, height, format }
    }
}

/// A frame's position on the sheet image.
#[derive(Debug, Clone, Copy, PartialEq, Eq, Structural)]
pub struct SidAnimationFramePos {
    pub x: SidAnimationFrameCoord,
    pub y: SidAnimationFrameCoord,
}

impl SidAnimationFramePos {
    pub fn new() -> (r: Self)
        ensures
            r == (Self { x: 0, y: 0 }),
    {
        Self::with_coords(0, 0)
    }

    pub fn with_coords(x: SidAnimationFrameCoord, y: SidAnimationFrameCoord) -> (r: Self)
        ensures
            r == (Self { x, y }),
    {
        Self { x, y }
    }
}

/// A frame's pixel dimensions.
#[derive(Debug, Clone, Copy, PartialEq, Eq, Structural)]
pub struct SidAnimationFrameDims {
    pub width: SidAnimationFrameDim,
    pub height: SidAnimationFrameDim,
}

impl SidAnimationFrameDims {
    pub fn new() -> (r: Self)
        ensures
            r == (Self { width: 0, height: 0 }),
    {
        Self::with_width_and_height(0, 0)
    }

    pub fn with_width_and_height(
        width: SidAnimationFrameDim,
        height: SidAnimationFrameDim,
    ) -> (r: Self)
        ensures
            r == (Self { width, height }),
    {
        Self { width, height }
    }
}

/// One frame record of an animation definition.
#[derive(Debug, Clone, Copy, PartialEq, Eq, Structural)]
pub struct SidAnimationFrameAsset {
    pub pos: SidAnimationFramePos,
    pub dims: SidAnimationFrameDims,
    pub duration: SidAnimationFrameDuration,
}

impl SidAnimationFrameAsset {
    pub fn new() -> (r: Self)
        ensures
            r == (Self {
                pos: SidAnimationFramePos { x: 0, y: 0 },
                dims: SidAnimationFrameDims { width: 0, height: 0 },
                duration: 0,
            }),
    {
        Self::with_data(SidAnimationFramePos::new(), SidAnimationFrameDims::new(), 0)
    }

    pub fn with_data(
        pos: SidAnimationFramePos,
        dim: SidAnimationFrameDims,
        duration: SidAnimationFrameDuration,
    ) -> (r: Self)
        ensures
            r == (Self { pos, dims: dim, duration }),
    {
        Self { pos, dims: dim, duration }
    }
}

pub struct SidAnimationDefAssetView {
    pub frame_count: SidAnimationFrameIndex,
    pub frames: Seq<SidAnimationFrameAsset>,
    pub name: Seq<char>,
    pub sheet_name: Seq<char>,
}

/// An animation definition: the ordered frame records of one sheet,
/// capped at the service's maximum frame count, with the owning sheet's
/// name for cross-reference.
#[derive(Debug, Clone)]
pub struct SidAnimationDefAsset {
    pub frame_count: SidAnimationFrameIndex,
    pub frames: Vec<SidAnimationFrameAsset>,
    pub name: String,
    pub sheet_name: String,
}

impl View for SidAnimationDefAsset {
    type V = SidAnimationDefAssetView;

    open spec fn view(&self) -> SidAnimationDefAssetView {
        SidAnimationDefAssetView {
            frame_count: self.frame_count,
            frames: self.frames@,
            name: self.name@,
            sheet_name: self.sheet_name@,
        }
    }
}

impl SidAnimationDefAssetView {
    /// The frame count field matches the frame records.
    pub open spec fn wf(self) -> bool {
        self.frame_count == self.frames.len()
    }
}

impl SidAnimationDefAsset {
    pub fn max_frame_count() -> (r: SidAnimationFrameIndex)
        ensures
            r == sid::SID_MAX_ANIMATION_FRAME_COUNT,
    {
        sid::get_max_animation_frame_count()
    }

    pub fn new() -> (r: Self)
        ensures
            r@.frame_count == 0,
            r@.frames.len() == 0,
            r@.name.len() == 0,
            r@.sheet_name.len() == 0,
    {
        Self::with_data(0, Vec::new(), String::new(), String::new())
    }

    pub fn with_data(
        frame_count: SidAnimationFrameIndex,
        frames: Vec<SidAnimationFrameAsset>,
        name: String,
        sheet_name: String,
    ) -> (r: Self)
        ensures
            r@.frame_count == frame_count,
            r@.frames == frames@,
            r@.name == name@,
            r@.sheet_name == sheet_name@,
    {
        Self { frame_count, frames, name, sheet_name }
    }
}

pub struct SidAnimationAssetView {
    pub offset: SidAnimationFrameIndex,
    pub length: SidAnimationFrameIndex,
    pub name: Seq<char>,
    pub def_name: Seq<char>,
}

/// An animation: a contiguous frame-index range into an animation
/// definition, with its own name and the owning definition's name.
#[derive(Debug, Clone)]
pub struct SidAnimationAsset {
    pub offset: SidAnimationFrameIndex,
    pub length: SidAnimationFrameIndex,
    pub name: String,
    pub def_name: String,
}

impl View for SidAnimationAsset {
    type V = SidAnimationAssetView;

    open spec fn view(&self) -> SidAnimationAssetView {
        SidAnimationAssetView {
            offset: self.offset,
            length: self.length,
            name: self.name@,
            def_name: self.def_name@,
        }
    }
}

impl SidAnimationAsset {
    pub fn new() -> (r: Self)
        ensures
            r@.offset == 0,
            r@.length == 0,
            r@.name.len() == 0,
            r@.def_name.len() == 0,
    {
        Self::with_data(0, 0, String::new(), String::new())
    }

    pub fn with_data(
        offset: SidAnimationFrameIndex,
        length: SidAnimationFrameIndex,
        name: String,
        def_name: String,
    ) -> (r: Self)
        ensures
            r@.offset == offset,
            r@.length == length,
            r@.name == name@,
            r@.def_name == def_name@,
    {
        Self { offset, length, name, def_name }
    }

    /// An animation over a definition: the definition's name is carried
    /// over as the cross-reference.
    pub fn from_def(
        def: &SidAnimationDefAsset,
        name: String,
        offset: SidAnimationFrameIndex,
        length: SidAnimationFrameIndex,
    ) -> (r: Self)
        ensures
            r@.offset == offset,
            r@.length == length,
            r@.name == name@,
            r@.def_name == def@.name,
    {
        let def_name = def.name.clone();
        SidAnimationAsset::with_data(offset, length, name, def_name)
    }
}

/// The sprite-sheet asset an intermediate tree describes, if the tree is
/// well formed: the recognized members must be present with the right
/// types and ranges; other members are ignored. The source-image path
/// found while converting is not part of the intermediate file, so it
/// reads back empty.
pub open spec fn sprite_sheet_of_tree(t: JsonValue) -> Option<SidSpriteSheetAssetView> {
    if t is Object {
        let ms = t->Object_0@;
        let name = as_text(lookup_spec(ms, "name"@));
        let image_path = as_text(lookup_spec(ms, "imagePath"@));
        let width = as_int(lookup_spec(ms, "width"@));
        let height = as_int(lookup_spec(ms, "height"@));
        let format = as_text(lookup_spec(ms, "format"@));
        if name is Some && image_path is Some && format is Some && width is Some && height is Some
            && 0 <= width->0 <= u32::MAX && 0 <= height->0 <= u32::MAX {
            Some(
                SidSpriteSheetAssetView {
                    name: name->0,
                    image_path: image_path->0,
                    image_from_path: Seq::empty(),
                    width: width->0 as SidSpriteSheetDim,
                    height: height->0 as SidSpriteSheetDim,
                    format: format->0,
                },
            )
        } else {
            None
        }
    } else {
        None
    }
}

/// The frame record a tree of the `frames` array describes, if well
/// formed.
pub open spec fn frame_of_tree(t: JsonValue) -> Option<SidAnimationFrameAsset> {
    if t is Object {
        let ms = t->Object_0@;
        let pos = as_object(lookup_spec(ms, "pos"@));
        let dims = as_object(lookup_spec(ms, "dims"@));
        let duration = as_int(lookup_spec(ms, "duration"@));
        if pos is Some && dims is Some && duration is Some && 0 <= duration->0 <= u16::MAX {
            let x = as_int(lookup_spec(pos->0, "x"@));
            let y = as_int(lookup_spec(pos->0, "y"@));
            let w = as_int(lookup_spec(dims->0, "width"@));
            let h = as_int(lookup_spec(dims->0, "height"@));
            if x is Some && y is Some && w is Some && h is Some && 0 <= x->0 <= u16::MAX && 0 <= y->0
                <= u16::MAX && 0 <= w->0 <= u16::MAX && 0 <= h->0 <= u16::MAX {
                Some(
                    SidAnimationFrameAsset {
                        pos: SidAnimationFramePos {
                            x: x->0 as SidAnimationFrameCoord,
                            y: y->0 as SidAnimationFrameCoord,
                        },
                        dims: SidAnimationFrameDims {
                            width: w->0 as SidAnimationFrameDim,
                            height: h->0 as SidAnimationFrameDim,
                        },
                        duration: duration->0 as SidAnimationFrameDuration,
                    },
                )
            } else {
                None
            }
        } else {
            None
        }
    } else {
        None
    }
}

/// The frame records of a `frames` array: every element must describe a
/// frame, or the whole array is rejected.
pub open spec fn frames_of_trees(a: Seq<JsonValue>) -> Option<Seq<SidAnimationFrameAsset>>
    decreases a.len(),
{
    if a.len() == 0 {
        Some(Seq::empty())
    } else {
        let prefix = frames_of_trees(a.drop_last());
        let last = frame_of_tree(a.last());
        if prefix is Some && last is Some {
            Some(prefix->0.push(last->0))
        } else {
            None
        }
    }
}

/// One rejected frame rejects the whole array.
pub proof fn lemma_frames_of_trees_abort(a: Seq<JsonValue>, i: int)
    requires
        0 <= i < a.len(),
        frame_of_tree(a[i]) is None,
    ensures
        frames_of_trees(a) is None,
    decreases a.len(),
{
    if i < a.len() - 1 {
        assert(a.drop_last()[i] == a[i]);
        lemma_frames_of_trees_abort(a.drop_last(), i);
    }
}

/// The animation definition an intermediate tree describes, if well
/// formed: its frame count field must match its frame records.
pub open spec fn animation_def_of_tree(t: JsonValue) -> Option<SidAnimationDefAssetView> {
    if t is Object {
        let ms = t->Object_0@;
        let fc = as_int(lookup_spec(ms, "frameCount"@));
        let fa = as_array(lookup_spec(ms, "frames"@));
        let name = as_text(lookup_spec(ms, "name"@));
        let sheet_name = as_text(lookup_spec(ms, "sheetName"@));
        if fc is Some && 0 <= fc->0 <= u16::MAX && fa is Some && name is Some && sheet_name
            is Some {
            let frames = frames_of_trees(fa->0);
            if frames is Some && frames->0.len() == fc->0 {
                Some(
                    SidAnimationDefAssetView {
                        frame_count: fc->0 as SidAnimationFrameIndex,
                        frames: frames->0,
                        name: name->0,
                        sheet_name: sheet_name->0,
                    },
                )
            } else {
                None
            }
        } else {
            None
        }
    } else {
        None
    }
}

/// The animation an intermediate tree describes, if well formed.
pub open spec fn animation_of_tree(t: JsonValue) -> Option<SidAnimationAssetView> {
    if t is Object {
        let ms = t->Object_0@;
        let offset = as_int(lookup_spec(ms, "offset"@));
        let length = as_int(lookup_spec(ms, "length"@));
        let name = as_text(lookup_spec(ms, "name"@));
        let def_name = as_text(lookup_spec(ms, "defName"@));
        if offset is Some && 0 <= offset->0 <= u16::MAX && length is Some && 0 <= length->0
            <= u16::MAX && name is Some && def_name is Some {
            Some(
                SidAnimationAssetView {
                    offset: offset->0 as SidAnimationFrameIndex,
                    length: length->0 as SidAnimationFrameIndex,
                    name: name->0,
                    def_name: def_name->0,
                },
            )
        } else {
            None
        }
    } else {
        None
    }
}

/// Reads a sprite-sheet asset back from its intermediate tree.
pub fn sprite_sheet_from_tree(t: &JsonValue) -> (r: Option<SidSpriteSheetAsset>)
    ensures
        match r {
            Some(a) => sprite_sheet_of_tree(*t) == Some(a@),
            None => sprite_sheet_of_tree(*t) is None,
        },
{
    match t {
        JsonValue::Object(ms) => {
            let name: String = match lookup(ms, "name") {
                Some(JsonValue::Text(s)) => s.clone(),
                _ => { return None },
            };
            let image_path: String = match lookup(ms, "imagePath") {
                Some(JsonValue::Text(s)) => s.clone(),
                _ => { return None },
            };
            let w: i64 = match lookup(ms, "width") {
                Some(JsonValue::Int(i)) => *i,
                _ => { return None },
            };
            let h: i64 = match lookup(ms, "height") {
                Some(JsonValue::Int(i)) => *i,
                _ => { return None },
            };
            let format: String = match lookup(ms, "format") {
                Some(JsonValue::Text(s)) => s.clone(),
                _ => { return None },
            };
            if w < 0 || w > u32::MAX as i64 || h < 0 || h > u32::MAX as i64 {
                return None;
            }
            Some(
                SidSpriteSheetAsset::with_data(
                    name,
                    image_path,
                    String::new(),
                    w as SidSpriteSheetDim,
                    h as SidSpriteSheetDim,
                    format,
                ),
            )
        },
        _ => None,
    }
}

/// Reads one frame record back from a tree of the `frames` array.
pub fn frame_from_tree(t: &JsonValue) -> (r: Option<SidAnimationFrameAsset>)
    ensures
        match r {
            Some(f) => frame_of_tree(*t) == Some(f),
            None => frame_of_tree(*t) is None,
        },
{
    match t {
        JsonValue::Object(ms) => {
            let pos = match lookup(ms, "pos") {
                Some(JsonValue::Object(ps)) => ps,
                _ => { return None },
            };
            let dims = match lookup(ms, "dims") {
                Some(JsonValue::Object(ds)) => ds,
                _ => { return None },
            };
            let duration: i64 = match lookup(ms, "duration") {
                Some(JsonValue::Int(i)) => *i,
                _ => { return None },
            };
            if duration < 0 || duration > u16::MAX as i64 {
                return None;
            }
            let x: i64 = match lookup(pos, "x") {
                Some(JsonValue::Int(i)) => *i,
                _ => { return None },
            };
            let y: i64 = match lookup(pos, "y") {
                Some(JsonValue::Int(i)) => *i,
                _ => { return None },
            };
            let w: i64 = match lookup(dims, "width") {
                Some(JsonValue::Int(i)) => *i,
                _ => { return None },
            };
            let h: i64 = match lookup(dims, "height") {
                Some(JsonValue::Int(i)) => *i,
                _ => { return None },
            };
            if x < 0 || x > u16::MAX as i64 || y < 0 || y > u16::MAX as i64 || w < 0 || w
                > u16::MAX as i64 || h < 0 || h > u16::MAX as i64 {
                return None;
            }
            Some(
                SidAnimationFrameAsset::with_data(
                    SidAnimationFramePos::with_coords(
                        x as SidAnimationFrameCoord,
                        y as SidAnimationFrameCoord,
                    ),
                    SidAnimationFrameDims::with_width_and_height(
                        w as SidAnimationFrameDim,
                        h as SidAnimationFrameDim,
                    ),
                    duration as SidAnimationFrameDuration,
                ),
            )
        },
        _ => None,
    }
}

/// Reads the frame records back from the `frames` array.
pub fn frames_from_trees(a: &Vec<JsonValue>) -> (r: Option<Vec<SidAnimationFrameAsset>>)
    ensures
        match r {
            Some(fs) => frames_of_trees(a@) == Some(fs@),
            None => frames_of_trees(a@) is None,
        },
{
    let n = a.len();
    let mut out: Vec<SidAnimationFrameAsset> = Vec::new();
    let mut i: usize = 0;
    while i < n
        invariant
            i <= n,
            n == a@.len(),
            frames_of_trees(a@.take(i as int)) == Some(out@),
        decreases n - i,
    {
        proof {
            assert(a@.take(i + 1).drop_last() =~= a@.take(i as int));
            assert(a@.take(i + 1).last() == a@[i as int]);
        }
        match frame_from_tree(&a[i]) {
            Some(f) => {
                out.push(f);
            },
            None => {
                proof {
                    lemma_frames_of_trees_abort(a@, i as int);
                }
                return None;
            },
        }
        i = i + 1;
    }
    proof {
        assert(a@.take(n as int) =~= a@);
    }
    Some(out)
}

/// Reads an animation definition back from its intermediate tree.
pub fn animation_def_from_tree(t: &JsonValue) -> (r: Option<SidAnimationDefAsset>)
    ensures
        match r {
            Some(a) => animation_def_of_tree(*t) == Some(a@) && a@.wf(),
            None => animation_def_of_tree(*t) is None,
        },
{
    match t {
        JsonValue::Object(ms) => {
            let fc: i64 = match lookup(ms, "frameCount") {
                Some(JsonValue::Int(i)) => *i,
                _ => { return None },
            };
            if fc < 0 || fc > u16::MAX as i64 {
                return None;
            }
            let fa = match lookup(ms, "frames") {
                Some(JsonValue::Array(a)) => a,
                _ => { return None },
            };
            let name: String = match lookup(ms, "name") {
                Some(JsonValue::Text(s)) => s.clone(),
                _ => { return None },
            };
            let sheet_name: String = match lookup(ms, "sheetName") {
                Some(JsonValue::Text(s)) => s.clone(),
                _ => { return None },
            };
            let frames = match frames_from_trees(fa) {
                Some(fs) => fs,
                None => { return None },
            };
            if frames.len() != fc as usize {
                return None;
            }
            Some(
                SidAnimationDefAsset::with_data(
                    fc as SidAnimationFrameIndex,
                    frames,
                    name,
                    sheet_name,
                ),
            )
        },
        _ => None,
    }
}

/// Exactly the members of a frame-position tree, in order.
pub open spec fn is_pos_members(ps: Seq<(String, JsonValue)>, p: SidAnimationFramePos) -> bool {
    &&& ps.len() == 2
    &&& ps[0].0@ == "x"@
    &&& ps[0].1 matches JsonValue::Int(i) && i == p.x
    &&& ps[1].0@ == "y"@
    &&& ps[1].1 matches JsonValue::Int(i) && i == p.y
}

/// Exactly the members of a frame-dimensions tree, in order.
pub open spec fn is_dims_members(ds: Seq<(String, JsonValue)>, d: SidAnimationFrameDims) -> bool {
    &&& ds.len() == 2
    &&& ds[0].0@ == "width"@
    &&& ds[0].1 matches JsonValue::Int(i) && i == d.width
    &&& ds[1].0@ == "height"@
    &&& ds[1].1 matches JsonValue::Int(i) && i == d.height
}

/// Exactly the intermediate tree of one frame record, members in order.
pub open spec fn is_frame_tree(t: JsonValue, f: SidAnimationFrameAsset) -> bool {
    let ms = t->Object_0@;
    &&& t is Object
    &&& ms.len() == 3
    &&& ms[0].0@ == "pos"@
    &&& ms[0].1 matches JsonValue::Object(ps) && is_pos_members(ps@, f.pos)
    &&& ms[1].0@ == "dims"@
    &&& ms[1].1 matches JsonValue::Object(ds) && is_dims_members(ds@, f.dims)
    &&& ms[2].0@ == "duration"@
    &&& ms[2].1 matches JsonValue::Int(i) && i == f.duration
}

/// Exactly the intermediate tree of a sprite-sheet asset, members in
/// order.
pub open spec fn is_sprite_sheet_tree(t: JsonValue, v: SidSpriteSheetAssetView) -> bool {
    let ms = t->Object_0@;
    &&& t is Object
    &&& ms.len() == 5
    &&& ms[0].0@ == "name"@
    &&& ms[0].1 matches JsonValue::Text(s) && s@ == v.name
    &&& ms[1].0@ == "imagePath"@
    &&& ms[1].1 matches JsonValue::Text(s) && s@ == v.image_path
    &&& ms[2].0@ == "width"@
    &&& ms[2].1 matches JsonValue::Int(i) && i == v.width
    &&& ms[3].0@ == "height"@
    &&& ms[3].1 matches JsonValue::Int(i) && i == v.height
    &&& ms[4].0@ == "format"@
    &&& ms[4].1 matches JsonValue::Text(s) && s@ == v.format
}

/// Exactly the intermediate tree of an animation definition, members in
/// order.
pub open spec fn is_animation_def_tree(t: JsonValue, v: SidAnimationDefAssetView) -> bool {
    let ms = t->Object_0@;
    &&& t is Object
    &&& ms.len() == 4
    &&& ms[0].0@ == "frameCount"@
    &&& ms[0].1 matches JsonValue::Int(i) && i == v.frame_count
    &&& ms[1].0@ == "frames"@
    &&& ms[1].1 matches JsonValue::Array(fa) && fa@.len() == v.frames.len() && (forall|i: int|
        0 <= i < v.frames.len() ==> is_frame_tree(#[trigger] fa@[i], v.frames[i]))
    &&& ms[2].0@ == "name"@
    &&& ms[2].1 matches JsonValue::Text(s) && s@ == v.name
    &&& ms[3].0@ == "sheetName"@
    &&& ms[3].1 matches JsonValue::Text(s) && s@ == v.sheet_name
}

/// Exactly the intermediate tree of an animation, members in order.
pub open spec fn is_animation_tree(t: JsonValue, v: SidAnimationAssetView) -> bool {
    let ms = t->Object_0@;
    &&& t is Object
    &&& ms.len() == 4
    &&& ms[0].0@ == "offset"@
    &&& ms[0].1 matches JsonValue::Int(i) && i == v.offset
    &&& ms[1].0@ == "length"@
    &&& ms[1].1 matches JsonValue::Int(i) && i == v.length
    &&& ms[2].0@ == "name"@
    &&& ms[2].1 matches JsonValue::Text(s) && s@ == v.name
    &&& ms[3].0@ == "defName"@
    &&& ms[3].1 matches JsonValue::Text(s) && s@ == v.def_name
}

/// Builds the intermediate tree of one frame record.
pub fn frame_to_tree(f: &SidAnimationFrameAsset) -> (t: JsonValue)
    ensures
        is_frame_tree(t, *f),
{
    let mut ps: Vec<(String, JsonValue)> = Vec::new();
    ps.push(("x".to_owned(), JsonValue::Int(f.pos.x as i64)));
    ps.push(("y".to_owned(), JsonValue::Int(f.pos.y as i64)));
    let mut ds: Vec<(String, JsonValue)> = Vec::new();
    ds.push(("width".to_owned(), JsonValue::Int(f.dims.width as i64)));
    ds.push(("height".to_owned(), JsonValue::Int(f.dims.height as i64)));
    let mut ms: Vec<(String, JsonValue)> = Vec::new();
    ms.push(("pos".to_owned(), JsonValue::Object(ps)));
    ms.push(("dims".to_owned(), JsonValue::Object(ds)));
    ms.push(("duration".to_owned(), JsonValue::Int(f.duration as i64)));
    JsonValue::Object(ms)
}

/// A well-formed frame tree reads back to its frame record.
pub proof fn lemma_frame_tree_parses(t: JsonValue, f: SidAnimationFrameAsset)
    requires
        is_frame_tree(t, f),
    ensures
        frame_of_tree(t) == Some(f),
{
    broadcast use vstd::string::group_string_axioms;

    reveal_strlit("pos");
    reveal_strlit("dims");
    reveal_strlit("duration");
    reveal_strlit("x");
    reveal_strlit("y");
    reveal_strlit("width");
    reveal_strlit("height");
    assert("pos"@.len() == 3);
    assert("dims"@.len() == 4);
    assert("duration"@.len() == 8);
    assert("width"@.len() == 5);
    assert("height"@.len() == 6);
    assert("pos"@ != "dims"@);
    assert("pos"@ != "duration"@);
    assert("dims"@ != "duration"@);
    assert("x"@ != "y"@) by {
        assert("x"@[0] == 'x');
        assert("y"@[0] == 'y');
    }
    assert("width"@ != "height"@);
    reveal_strlit("x");
    reveal_strlit("y");
    reveal_strlit("width");
    reveal_strlit("height");
    let ms = t->Object_0@;
    lemma_lookup_head(ms, "pos"@);
    lemma_lookup_skip(ms, "dims"@);
    lemma_lookup_head(ms.drop_first(), "dims"@);
    lemma_lookup_skip(ms, "duration"@);
    lemma_lookup_skip(ms.drop_first(), "duration"@);
    lemma_lookup_head(ms.drop_first().drop_first(), "duration"@);
    let ps = ms[0].1->Object_0@;
    lemma_lookup_head(ps, "x"@);
    lemma_lookup_skip(ps, "y"@);
    lemma_lookup_head(ps.drop_first(), "y"@);
    let ds = ms[1].1->Object_0@;
    lemma_lookup_head(ds, "width"@);
    lemma_lookup_skip(ds, "height"@);
    lemma_lookup_head(ds.drop_first(), "height"@);
}

/// Frame trees of the given shapes read back to the given records.
pub proof fn lemma_frames_of_trees_from_shapes(
    fa: Seq<JsonValue>,
    fs: Seq<SidAnimationFrameAsset>,
)
    requires
        fa.len() == fs.len(),
        forall|i: int| 0 <= i < fs.len() ==> is_frame_tree(#[trigger] fa[i], fs[i]),
    ensures
        frames_of_trees(fa) == Some(fs),
    decreases fa.len(),
{
    if fa.len() == 0 {
        assert(fs =~= Seq::<SidAnimationFrameAsset>::empty());
    } else {
        lemma_frames_of_trees_from_shapes(fa.drop_last(), fs.drop_last());
        lemma_frame_tree_parses(fa.last(), fs.last());
        assert(fs.drop_last().push(fs.last()) =~= fs);
    }
}

/// A well-formed sprite-sheet tree reads back to its asset, with the
/// source-image path left empty.
pub proof fn lemma_sprite_sheet_tree_parses(t: JsonValue, v: SidSpriteSheetAssetView)
    requires
        is_sprite_sheet_tree(t, v),
        v.image_from_path.len() == 0,
    ensures
        sprite_sheet_of_tree(t) == Some(v),
{
    broadcast use vstd::string::group_string_axioms;

    reveal_strlit("name");
    reveal_strlit("imagePath");
    reveal_strlit("width");
    reveal_strlit("height");
    reveal_strlit("format");
    assert("name"@.len() == 4);
    assert("imagePath"@.len() == 9);
    assert("width"@.len() == 5);
    assert("height"@.len() == 6);
    assert("format"@.len() == 6);
    assert("name"@ != "imagePath"@);
    assert("name"@ != "width"@);
    assert("name"@ != "height"@);
    assert("name"@ != "format"@);
    assert("imagePath"@ != "width"@);
    assert("imagePath"@ != "height"@);
    assert("imagePath"@ != "format"@);
    assert("width"@ != "height"@);
    assert("width"@ != "format"@);
    assert("height"@ != "format"@) by {
        assert("height"@[0] == 'h');
        assert("format"@[0] == 'f');
    }
    let ms = t->Object_0@;
    lemma_lookup_head(ms, "name"@);
    lemma_lookup_skip(ms, "imagePath"@);
    lemma_lookup_head(ms.drop_first(), "imagePath"@);
    lemma_lookup_skip(ms, "width"@);
    lemma_lookup_skip(ms.drop_first(), "width"@);
    lemma_lookup_head(ms.drop_first().drop_first(), "width"@);
    lemma_lookup_skip(ms, "height"@);
    lemma_lookup_skip(ms.drop_first(), "height"@);
    lemma_lookup_skip(ms.drop_first().drop_first(), "height"@);
    lemma_lookup_head(ms.drop_first().drop_first().drop_first(), "height"@);
    lemma_lookup_skip(ms, "format"@);
    lemma_lookup_skip(ms.drop_first(), "format"@);
    lemma_lookup_skip(ms.drop_first().drop_first(), "format"@);
    lemma_lookup_skip(ms.drop_first().drop_first().drop_first(), "format"@);
    lemma_lookup_head(ms.drop_first().drop_first().drop_first().drop_first(), "format"@);
    assert(v.image_from_path =~= Seq::<char>::empty());
}

/// A well-formed animation-definition tree whose count matches its
/// records reads back to its asset.
pub proof fn lemma_animation_def_tree_parses(t: JsonValue, v: SidAnimationDefAssetView)
    requires
        is_animation_def_tree(t, v),
        v.wf(),
    ensures
        animation_def_of_tree(t) == Some(v),
{
    broadcast use vstd::string::group_string_axioms;

    reveal_strlit("frameCount");
    reveal_strlit("frames");
    reveal_strlit("name");
    reveal_strlit("sheetName");
    assert("frameCount"@.len() == 10);
    assert("frames"@.len() == 6);
    assert("name"@.len() == 4);
    assert("sheetName"@.len() == 9);
    assert("frameCount"@ != "frames"@);
    assert("frameCount"@ != "name"@);
    assert("frameCount"@ != "sheetName"@);
    assert("frames"@ != "name"@);
    assert("frames"@ != "sheetName"@);
    assert("name"@ != "sheetName"@);
    let ms = t->Object_0@;
    lemma_lookup_head(ms, "frameCount"@);
    lemma_lookup_skip(ms, "frames"@);
    lemma_lookup_head(ms.drop_first(), "frames"@);
    lemma_lookup_skip(ms, "name"@);
    lemma_lookup_skip(ms.drop_first(), "name"@);
    lemma_lookup_head(ms.drop_first().drop_first(), "name"@);
    lemma_lookup_skip(ms, "sheetName"@);
    lemma_lookup_skip(ms.drop_first(), "sheetName"@);
    lemma_lookup_skip(ms.drop_first().drop_first(), "sheetName"@);
    lemma_lookup_head(ms.drop_first().drop_first().drop_first(), "sheetName"@);
    let fa = ms[1].1->Array_0@;
    lemma_frames_of_trees_from_shapes(fa, v.frames);
}

/// A well-formed animation tree reads back to its asset.
pub proof fn lemma_animation_tree_parses(t: JsonValue, v: SidAnimationAssetView)
    requires
        is_animation_tree(t, v),
    ensures
        animation_of_tree(t) == Some(v),
{
    broadcast use vstd::string::group_string_axioms;

    reveal_strlit("offset");
    reveal_strlit("length");
    reveal_strlit("name");
    reveal_strlit("defName");
    assert("offset"@.len() == 6);
    assert("length"@.len() == 6);
    assert("name"@.len() == 4);
    assert("defName"@.len() == 7);
    assert("offset"@ != "length"@) by {
        assert("offset"@[0] == 'o');
        assert("length"@[0] == 'l');
    }
    assert("offset"@ != "name"@);
    assert("offset"@ != "defName"@);
    assert("length"@ != "name"@);
    assert("length"@ != "defName"@);
    assert("name"@ != "defName"@);
    let ms = t->Object_0@;
    lemma_lookup_head(ms, "offset"@);
    lemma_lookup_skip(ms, "length"@);
    lemma_lookup_head(ms.drop_first(), "length"@);
    lemma_lookup_skip(ms, "name"@);
    lemma_lookup_skip(ms.drop_first(), "name"@);
    lemma_lookup_head(ms.drop_first().drop_first(), "name"@);
    lemma_lookup_skip(ms, "defName"@);
    lemma_lookup_skip(ms.drop_first(), "defName"@);
    lemma_lookup_skip(ms.drop_first().drop_first(), "defName"@);
    lemma_lookup_head(ms.drop_first().drop_first().drop_first(), "defName"@);
}

impl SidPackedAsset for SidSpriteSheetAsset {
    open spec fn namespace_spec() -> Seq<char> {
        "sprite_sheet"@
    }

    fn namespace() -> (r: &'static str) {
        sid::get_sprite_sheet_namespace()
    }

    open spec fn spec_name(&self) -> Seq<char> {
        self.name@
    }

    open spec fn tree_ok(&self, t: JsonValue) -> bool {
        is_sprite_sheet_tree(t, self@)
    }

    fn to_tree(&self) -> (t: JsonValue) {
        let mut ms: Vec<(String, JsonValue)> = Vec::new();
        ms.push(("name".to_owned(), JsonValue::Text(self.name.clone())));
        ms.push(("imagePath".to_owned(), JsonValue::Text(self.image_path.clone())));
        ms.push(("width".to_owned(), JsonValue::Int(self.width as i64)));
        ms.push(("height".to_owned(), JsonValue::Int(self.height as i64)));
        ms.push(("format".to_owned(), JsonValue::Text(self.format.clone())));
        JsonValue::Object(ms)
    }

    fn file_name(&self) -> (r: String) {
        self.name.clone().concat(".json")
    }
}

impl SidPackedAsset for SidAnimationDefAsset {
    open spec fn namespace_spec() -> Seq<char> {
        "animation_def"@
    }

    fn namespace() -> (r: &'static str) {
        sid::get_animation_def_namespace()
    }

    open spec fn spec_name(&self) -> Seq<char> {
        self.name@
    }

    open spec fn tree_ok(&self, t: JsonValue) -> bool {
        is_animation_def_tree(t, self@)
    }

    fn to_tree(&self) -> (t: JsonValue) {
        let n = self.frames.len();
        let mut fa: Vec<JsonValue> = Vec::new();
        let mut i: usize = 0;
        while i < n
            invariant
                i <= n,
                n == self.frames@.len(),
                fa@.len() == i,
                forall|j: int| 0 <= j < i ==> is_frame_tree(#[trigger] fa@[j], self.frames@[j]),
            decreases n - i,
        {
            fa.push(frame_to_tree(&self.frames[i]));
            i = i + 1;
        }
        let mut ms: Vec<(String, JsonValue)> = Vec::new();
        ms.push(("frameCount".to_owned(), JsonValue::Int(self.frame_count as i64)));
        ms.push(("frames".to_owned(), JsonValue::Array(fa)));
        ms.push(("name".to_owned(), JsonValue::Text(self.name.clone())));
        ms.push(("sheetName".to_owned(), JsonValue::Text(self.sheet_name.clone())));
        JsonValue::Object(ms)
    }

    fn file_name(&self) -> (r: String) {
        self.name.clone().concat(".json")
    }
}

impl SidPackedAsset for SidAnimationAsset {
    open spec fn namespace_spec() -> Seq<char> {
        "animation"@
    }

    fn namespace() -> (r: &'static str) {
        sid::get_animation_namespace()
    }

    open spec fn spec_name(&self) -> Seq<char> {
        self.name@
    }

    open spec fn tree_ok(&self, t: JsonValue) -> bool {
        is_animation_tree(t, self@)
    }

    fn to_tree(&self) -> (t: JsonValue) {
        let mut ms: Vec<(String, JsonValue)> = Vec::new();
        ms.push(("offset".to_owned(), JsonValue::Int(self.offset as i64)));
        ms.push(("length".to_owned(), JsonValue::Int(self.length as i64)));
        ms.push(("name".to_owned(), JsonValue::Text(self.name.clone())));
        ms.push(("defName".to_owned(), JsonValue::Text(self.def_name.clone())));
        JsonValue::Object(ms)
    }

    fn file_name(&self) -> (r: String) {
        self.name.clone().concat(".json")
    }
}

/// Reads an animation back from its intermediate tree.
pub fn animation_from_tree(t: &JsonValue) -> (r: Option<SidAnimationAsset>)
    ensures
        match r {
            Some(a) => animation_of_tree(*t) == Some(a@),
            None => animation_of_tree(*t) is None,
        },
{
    match t {
        JsonValue::Object(ms) => {
            let offset: i64 = match lookup(ms, "offset") {
                Some(JsonValue::Int(i)) => *i,
                _ => { return None },
            };
            let length: i64 = match lookup(ms, "length") {
                Some(JsonValue::Int(i)) => *i,
                _ => { return None },
            };
            let name: String = match lookup(ms, "name") {
                Some(JsonValue::Text(s)) => s.clone(),
                _ => { return None },
            };
            let def_name: String = match lookup(ms, "defName") {
                Some(JsonValue::Text(s)) => s.clone(),
                _ => { return None },
            };
            if offset < 0 || offset > u16::MAX as i64 || length < 0 || length > u16::MAX as i64 {
                return None;
            }
            Some(
                SidAnimationAsset::with_data(
                    offset as SidAnimationFrameIndex,
                    length as SidAnimationFrameIndex,
                    name,
                    def_name,
                ),
            )
        },
        _ => None,
    }
}

} // verus!
