//! The binary resource packer: each asset serializes to a fixed
//! little-endian layout, written by the caller to a file named by the
//! decimal value of the asset's numeric identifier.
//!
//! A sprite-sheet resource embeds the raw pixels of its source image;
//! decoding the image is delegated to the image crate behind a trusted
//! wrapper, and everything the layout states about the decoded values is
//! checked here before a byte is produced.

use vstd::prelude::*;

use crate::asset::SidAnimationAsset;
use crate::asset::SidAnimationAssetView;
use crate::asset::SidAnimationDefAsset;
use crate::asset::SidAnimationDefAssetView;
use crate::asset::SidAnimationFrameAsset;
use crate::asset::SidSpriteSheetAsset;
use crate::asset::SidSpriteSheetAssetView;
use crate::asset::animation_def_from_tree;
use crate::asset::animation_def_of_tree;
use crate::asset::animation_from_tree;
use crate::asset::animation_of_tree;
use crate::asset::is_animation_def_tree;
use crate::asset::is_animation_tree;
use crate::asset::lemma_animation_def_tree_parses;
use crate::asset::lemma_animation_tree_parses;
use crate::asset::sprite_sheet_from_tree;
use crate::asset::sprite_sheet_of_tree;
use crate::bytes::le16_spec;
use crate::bytes::le32_spec;
use crate::bytes::le32i_spec;
use crate::bytes::le64_spec;
use crate::bytes::push_le16;
use crate::bytes::push_le32;
use crate::bytes::push_le32i;
use crate::bytes::push_le64;
use crate::json::JsonValue;
use crate::json::json_tree_of;
use crate::json::parse_json;
use crate::sid;
use crate::sid::SidAnimationDefId;
use crate::sid::SidAnimationId;
use crate::sid::SidSpriteSheetId;
use crate::sid::sid_string_id;
use crate::strutil;

verus! {

/// Errors of resource packing: an image whose pixel format the layout
/// cannot carry, or a failed file operation or malformed file contents.
#[derive(Debug)]
pub enum SidAssetSerializationError {
    UnsupportedFormat(String),
    IO(String),
}

pub type SidAssetSerializationResult<T> = Result<T, SidAssetSerializationError>;

/// The pixel formats the sprite-sheet resource layout distinguishes:
/// 8-bit interleaved RGB, 8-bit interleaved RGBA, and everything else.
#[derive(Debug, Clone, Copy, PartialEq, Eq, Structural)]
pub enum SidImageColor {
    Rgb8,
    Rgba8,
    Other,
}

/// Channels per pixel of a decoded format the layout supports.
pub open spec fn channel_count_of(c: SidImageColor) -> u8 {
    match c {
        SidImageColor::Rgb8 => 3,
        SidImageColor::Rgba8 => 4,
        SidImageColor::Other => 0,
    }
}

/// The pixel-format code a sprite-sheet resource carries.
pub open spec fn format_code_of(c: SidImageColor) -> i32 {
    match c {
        SidImageColor::Rgb8 => sid::sid_texture_format::SID_TEXTURE_FORMAT_RGB8.spec_code(),
        SidImageColor::Rgba8 => sid::sid_texture_format::SID_TEXTURE_FORMAT_RGBA8.spec_code(),
        SidImageColor::Other => sid::sid_texture_format::SID_TEXTURE_FORMAT_UNKNOWN.spec_code(),
    }
}

pub struct DecodedImageView {
    pub width: u32,
    pub height: u32,
    pub color: SidImageColor,
    pub pixels: Seq<u8>,
}

/// A decoded source image as plain values: dimensions, pixel format,
/// and the raw interleaved pixel bytes.
pub struct DecodedImage {
    pub width: u32,
    pub height: u32,
    pub color: SidImageColor,
    pub pixels: Vec<u8>,
}

impl View for DecodedImage {
    type V = DecodedImageView;

    open spec fn view(&self) -> DecodedImageView {
        DecodedImageView {
            width: self.width,
            height: self.height,
            color: self.color,
            pixels: self.pixels@,
        }
    }
}

/// What an encoded image decodes to, or `None` where it cannot be
/// decoded: a function of the encoded bytes alone.
pub uninterp spec fn decoded_image_of(data: Seq<u8>) -> Option<DecodedImageView>;

/// Declares image::ImageError, the opaque error of a failed decode.
#[verifier::external_type_specification]
#[verifier::external_body]
pub struct ExImageError(image::ImageError);

/// Relies on image::load_from_memory: decoding is a function of the
/// encoded bytes alone. The result's dimensions, pixel format
/// (image::DynamicImage::color, folded to the formats the layout
/// distinguishes) and raw buffer (image::DynamicImage::as_bytes) are
/// handed out as plain values; nothing is assumed about how they relate.
#[verifier::external_body]
fn decode_image(data: &[u8]) -> (r: Result<DecodedImage, image::ImageError>)
    ensures
        match r {
            Ok(d) => decoded_image_of(data@) == Some(d@),
            Err(_) => decoded_image_of(data@) is None,
        },
{
    let img = match image::load_from_memory(data) {
        Ok(img) => img,
        Err(e) => return Err(e),
    };
    let (width, height) = image::GenericImageView::dimensions(&img);
    let color = match img.color() {
        image::ColorType::Rgb8 => SidImageColor::Rgb8,
        image::ColorType::Rgba8 => SidImageColor::Rgba8,
        _ => SidImageColor::Other,
    };
    Ok(DecodedImage { width, height, color, pixels: img.as_bytes().to_vec() })
}

/// The fixed layout of a sprite-sheet resource: identifier, image
/// dimensions, channel count, pixel-format code, raw pixel byte count,
/// then the raw pixels.
pub open spec fn sprite_sheet_resource_layout(
    v: SidSpriteSheetAssetView,
    d: DecodedImageView,
) -> Seq<u8> {
    le32_spec(sid_string_id(v.name)) + le32_spec(d.width) + le32_spec(d.height) + seq![
        channel_count_of(d.color),
    ] + le32i_spec(format_code_of(d.color)) + le64_spec(d.pixels.len() as u64) + d.pixels
}

/// One frame record of an animation-definition resource.
pub open spec fn frame_record_bytes(f: SidAnimationFrameAsset) -> Seq<u8> {
    le16_spec(f.pos.x) + le16_spec(f.pos.y) + le16_spec(f.dims.width) + le16_spec(f.dims.height)
        + le16_spec(f.duration)
}

/// The frame records of an animation-definition resource, in order.
pub open spec fn frames_bytes(fs: Seq<SidAnimationFrameAsset>) -> Seq<u8>
    decreases fs.len(),
{
    if fs.len() == 0 {
        Seq::empty()
    } else {
        frames_bytes(fs.drop_last()) + frame_record_bytes(fs.last())
    }
}

/// The fixed layout of an animation-definition resource: identifier,
/// owning sheet identifier, frame count, then the frame records.
pub open spec fn animation_def_resource_layout(v: SidAnimationDefAssetView) -> Seq<u8> {
    le32_spec(sid_string_id(v.name)) + le32_spec(sid_string_id(v.sheet_name)) + le16_spec(
        v.frame_count,
    ) + frames_bytes(v.frames)
}

/// The fixed layout of an animation resource: identifier, owning
/// definition identifier, offset, length.
pub open spec fn animation_resource_layout(v: SidAnimationAssetView) -> Seq<u8> {
    le32_spec(sid_string_id(v.name)) + le32_spec(sid_string_id(v.def_name)) + le16_spec(v.offset)
        + le16_spec(v.length)
}

/// An asset that serializes to a fixed binary resource layout.
pub trait SerializeSidAsset {
    /// What the asset itself must satisfy before serializing.
    spec fn resource_req(&self) -> bool;

    /// Exactly when serialization succeeds and which bytes it yields.
    spec fn resource_ok(
        &self,
        image_data: Seq<u8>,
        r: SidAssetSerializationResult<Vec<u8>>,
    ) -> bool;

    /// Serializes the asset to its binary resource layout. Only the
    /// sprite sheet reads `image_data` (the encoded bytes of its source
    /// image); the caller writes the result to a file named by the
    /// decimal identifier.
    fn write_resource(&self, image_data: &[u8]) -> (r: SidAssetSerializationResult<Vec<u8>>)
        requires
            self.resource_req(),
        ensures
            self.resource_ok(image_data@, r),
    ;
}

impl SerializeSidAsset for SidSpriteSheetAsset {
    open spec fn resource_req(&self) -> bool {
        true
    }

    open spec fn resource_ok(
        &self,
        image_data: Seq<u8>,
        r: SidAssetSerializationResult<Vec<u8>>,
    ) -> bool {
        let dec = decoded_image_of(image_data);
        match r {
            Ok(b) => dec matches Some(d) && d.color != SidImageColor::Other && d.pixels.len()
                == d.width as nat * d.height as nat * channel_count_of(d.color) as nat && b@
                == sprite_sheet_resource_layout(self@, d),
            Err(SidAssetSerializationError::UnsupportedFormat(_)) => dec matches Some(d)
                && d.color == SidImageColor::Other,
            Err(SidAssetSerializationError::IO(_)) => dec is None || (dec matches Some(d)
                && d.color != SidImageColor::Other && d.pixels.len() != d.width as nat
                * d.height as nat * channel_count_of(d.color) as nat),
        }
    }

    fn write_resource(&self, image_data: &[u8]) -> (r: SidAssetSerializationResult<Vec<u8>>) {
        let id: SidSpriteSheetId = sid::generate_sprite_sheet_id(self.name.as_str());
        let d = match decode_image(image_data) {
            Ok(d) => d,
            Err(_) => {
                return Err(
                    SidAssetSerializationError::IO("unable to decode the image".to_owned()),
                );
            },
        };
        let channel_count: u8 = match d.color {
            SidImageColor::Rgb8 => 3,
            SidImageColor::Rgba8 => 4,
            SidImageColor::Other => {
                return Err(
                    SidAssetSerializationError::UnsupportedFormat(
                        "unknown or unsupported format".to_owned(),
                    ),
                );
            },
        };
        let raw_format: i32 = match d.color {
            SidImageColor::Rgb8 => sid::sid_texture_format::SID_TEXTURE_FORMAT_RGB8.code(),
            SidImageColor::Rgba8 => sid::sid_texture_format::SID_TEXTURE_FORMAT_RGBA8.code(),
            SidImageColor::Other => sid::sid_texture_format::SID_TEXTURE_FORMAT_UNKNOWN.code(),
        };
        let pixel_len: usize = d.pixels.len();
        let texture_size: u64 = match (d.width as u64).checked_mul(d.height as u64) {
            Some(wh) => match wh.checked_mul(channel_count as u64) {
                Some(total) => total,
                None => {
                    return Err(
                        SidAssetSerializationError::IO(
                            "decoded pixel buffer does not match the dimensions".to_owned(),
                        ),
                    );
                },
            },
            None => {
                proof {
                    let w = d@.width as nat;
                    let h = d@.height as nat;
                    let c = channel_count_of(d@.color) as nat;
                    assert(w * h * c >= w * h) by (nonlinear_arith)
                        requires
                            c >= 1,
                    ;
                }
                return Err(
                    SidAssetSerializationError::IO(
                        "decoded pixel buffer does not match the dimensions".to_owned(),
                    ),
                );
            },
        };
        if (pixel_len as u64) != texture_size {
            return Err(
                SidAssetSerializationError::IO(
                    "decoded pixel buffer does not match the dimensions".to_owned(),
                ),
            );
        }
        let mut out: Vec<u8> = Vec::new();
        push_le32(&mut out, id);
        push_le32(&mut out, d.width);
        push_le32(&mut out, d.height);
        out.push(channel_count);
        push_le32i(&mut out, raw_format);
        push_le64(&mut out, texture_size);
        let mut pixels = d.pixels;
        out.append(&mut pixels);
        proof {
            assert(out@ =~= sprite_sheet_resource_layout(self@, d@));
        }
        Ok(out)
    }
}

impl SerializeSidAsset for SidAnimationDefAsset {
    /// The frame count field must match the frame records, as the
    /// layout writes the count and then every record.
    open spec fn resource_req(&self) -> bool {
        self@.wf()
    }

    open spec fn resource_ok(
        &self,
        image_data: Seq<u8>,
        r: SidAssetSerializationResult<Vec<u8>>,
    ) -> bool {
        r matches Ok(b) && b@ == animation_def_resource_layout(self@)
    }

    fn write_resource(&self, image_data: &[u8]) -> (r: SidAssetSerializationResult<Vec<u8>>) {
        let id: SidAnimationDefId = sid::generate_animation_def_id(self.name.as_str());
        let sheet_id: SidSpriteSheetId = sid::generate_sprite_sheet_id(self.sheet_name.as_str());
        let mut out: Vec<u8> = Vec::new();
        push_le32(&mut out, id);
        push_le32(&mut out, sheet_id);
        push_le16(&mut out, self.frame_count);
        let ghost prefix = out@;
        let n = self.frames.len();
        let mut i: usize = 0;
        proof {
            assert(frames_bytes(self.frames@.take(0)) =~= Seq::<u8>::empty());
            assert(out@ =~= prefix + frames_bytes(self.frames@.take(0)));
        }
        while i < n
            invariant
                i <= n,
                n == self.frames@.len(),
                out@ == prefix + frames_bytes(self.frames@.take(i as int)),
            decreases n - i,
        {
            proof {
                assert(self.frames@.take(i + 1).drop_last() =~= self.frames@.take(i as int));
                assert(self.frames@.take(i + 1).last() == self.frames@[i as int]);
            }
            let frame = &self.frames[i];
            push_le16(&mut out, frame.pos.x);
            push_le16(&mut out, frame.pos.y);
            push_le16(&mut out, frame.dims.width);
            push_le16(&mut out, frame.dims.height);
            push_le16(&mut out, frame.duration);
            proof {
                assert(out@ =~= prefix + frames_bytes(self.frames@.take(i + 1)));
            }
            i = i + 1;
        }
        proof {
            assert(self.frames@.take(n as int) =~= self.frames@);
            assert(out@ =~= animation_def_resource_layout(self@));
        }
        Ok(out)
    }
}

impl SerializeSidAsset for SidAnimationAsset {
    open spec fn resource_req(&self) -> bool {
        true
    }

    open spec fn resource_ok(
        &self,
        image_data: Seq<u8>,
        r: SidAssetSerializationResult<Vec<u8>>,
    ) -> bool {
        r matches Ok(b) && b@ == animation_resource_layout(self@)
    }

    fn write_resource(&self, image_data: &[u8]) -> (r: SidAssetSerializationResult<Vec<u8>>) {
        let id: SidAnimationId = sid::generate_animation_id(self.name.as_str());
        let def_id: SidAnimationDefId = sid::generate_animation_def_id(self.def_name.as_str());
        let mut out: Vec<u8> = Vec::new();
        push_le32(&mut out, id);
        push_le32(&mut out, def_id);
        push_le16(&mut out, self.offset);
        push_le16(&mut out, self.length);
        proof {
            assert(out@ =~= animation_resource_layout(self@));
        }
        Ok(out)
    }
}

/// What a sprite-sheet intermediate text and its encoded source image
/// pack to: the asset's identifier and the resource bytes, or nothing
/// where the text or the image is rejected.
pub open spec fn packed_sprite_sheet_of(text: Seq<char>, image_data: Seq<u8>) -> Option<
    (SidSpriteSheetId, Seq<u8>),
> {
    match json_tree_of(text) {
        Some(t) => match sprite_sheet_of_tree(t) {
            Some(v) => match decoded_image_of(image_data) {
                Some(d) => if d.color != SidImageColor::Other && d.pixels.len()
                    == d.width as nat * d.height as nat * channel_count_of(d.color) as nat {
                    Some((sid_string_id(v.name), sprite_sheet_resource_layout(v, d)))
                } else {
                    None
                },
                None => None,
            },
            None => None,
        },
        None => None,
    }
}

/// What an animation-definition intermediate text packs to.
pub open spec fn packed_animation_def_of(text: Seq<char>) -> Option<
    (SidAnimationDefId, Seq<u8>),
> {
    match json_tree_of(text) {
        Some(t) => match animation_def_of_tree(t) {
            Some(v) => Some((sid_string_id(v.name), animation_def_resource_layout(v))),
            None => None,
        },
        None => None,
    }
}

/// What an animation intermediate text packs to.
pub open spec fn packed_animation_of(text: Seq<char>) -> Option<(SidAnimationId, Seq<u8>)> {
    match json_tree_of(text) {
        Some(t) => match animation_of_tree(t) {
            Some(v) => Some((sid_string_id(v.name), animation_resource_layout(v))),
            None => None,
        },
        None => None,
    }
}

/// Packs one sprite-sheet intermediate file: its text, and the encoded
/// bytes of the source image it references. On success the caller
/// writes the bytes to a file named by the decimal identifier.
pub fn pack_sprite_sheet(text: &str, image_data: &[u8]) -> (r: SidAssetSerializationResult<
    (SidSpriteSheetId, Vec<u8>),
>)
    ensures
        match r {
            Ok(p) => packed_sprite_sheet_of(text@, image_data@) == Some((p.0, p.1@)),
            Err(_) => packed_sprite_sheet_of(text@, image_data@) is None,
        },
{
    let t = match parse_json(text) {
        Ok(t) => t,
        Err(_) => {
            return Err(
                SidAssetSerializationError::IO("malformed sprite sheet asset file".to_owned()),
            );
        },
    };
    let asset = match sprite_sheet_from_tree(&t) {
        Some(a) => a,
        None => {
            return Err(
                SidAssetSerializationError::IO("malformed sprite sheet asset file".to_owned()),
            );
        },
    };
    let id = sid::generate_sprite_sheet_id(asset.name.as_str());
    match asset.write_resource(image_data) {
        Ok(b) => Ok((id, b)),
        Err(e) => Err(e),
    }
}

/// Packs one animation-definition intermediate file.
pub fn pack_animation_def(text: &str) -> (r: SidAssetSerializationResult<
    (SidAnimationDefId, Vec<u8>),
>)
    ensures
        match r {
            Ok(p) => packed_animation_def_of(text@) == Some((p.0, p.1@)),
            Err(_) => packed_animation_def_of(text@) is None,
        },
{
    let t = match parse_json(text) {
        Ok(t) => t,
        Err(_) => {
            return Err(
                SidAssetSerializationError::IO(
                    "malformed animation definition asset file".to_owned(),
                ),
            );
        },
    };
    let asset = match animation_def_from_tree(&t) {
        Some(a) => a,
        None => {
            return Err(
                SidAssetSerializationError::IO(
                    "malformed animation definition asset file".to_owned(),
                ),
            );
        },
    };
    let id = sid::generate_animation_def_id(asset.name.as_str());
    let empty: Vec<u8> = Vec::new();
    match asset.write_resource(empty.as_slice()) {
        Ok(b) => Ok((id, b)),
        Err(e) => Err(e),
    }
}

/// Packs one animation intermediate file.
pub fn pack_animation(text: &str) -> (r: SidAssetSerializationResult<
    (SidAnimationId, Vec<u8>),
>)
    ensures
        match r {
            Ok(p) => packed_animation_of(text@) == Some((p.0, p.1@)),
            Err(_) => packed_animation_of(text@) is None,
        },
{
    let t = match parse_json(text) {
        Ok(t) => t,
        Err(_) => {
            return Err(
                SidAssetSerializationError::IO("malformed animation asset file".to_owned()),
            );
        },
    };
    let asset = match animation_from_tree(&t) {
        Some(a) => a,
        None => {
            return Err(
                SidAssetSerializationError::IO("malformed animation asset file".to_owned()),
            );
        },
    };
    let id = sid::generate_animation_id(asset.name.as_str());
    let empty: Vec<u8> = Vec::new();
    match asset.write_resource(empty.as_slice()) {
        Ok(b) => Ok((id, b)),
        Err(e) => Err(e),
    }
}

/// The path of the source image a sprite-sheet intermediate file
/// references: the image path itself where absolute, else resolved
/// beside the intermediate file.
pub open spec fn texture_path_spec(asset_file: Seq<char>, image: Seq<char>) -> Seq<char> {
    if strutil::spec_is_absolute(image) {
        image
    } else {
        let cut = strutil::last_index_of(asset_file, '/');
        if cut >= 0 {
            asset_file.take(cut) + seq!['/'] + image
        } else {
            image
        }
    }
}

/// Resolves the source image of a sprite-sheet intermediate file
/// against the file's containing folder.
pub fn texture_source_path(asset_file: &str, image: &str) -> (r: String)
    ensures
        r@ == texture_path_spec(asset_file@, image@),
{
    if strutil::path_is_absolute(image) {
        return image.to_owned();
    }
    match strutil::rfind_char(asset_file, '/') {
        Some(cut) => {
            proof {
                strutil::lemma_last_index_of_bounds(asset_file@, '/');
            }
            let folder = asset_file.substring_char(0, cut);
            let joined = strutil::path_join(folder, image);
            proof {
                assert(joined@ =~= texture_path_spec(asset_file@, image@));
            }
            joined
        },
        None => image.to_owned(),
    }
}

/// Whether a directory entry's extension marks an intermediate asset
/// file of this kind.
pub fn extension_compatible(extension: &str) -> (r: bool)
    ensures
        r == (extension@ == "json"@),
{
    let e: String = extension.to_owned();
    let j: String = String::from_str("json");
    e == j
}

/// Packing is a pure function of the parsed asset: an
/// animation-definition asset read back from its own intermediate tree
/// packs to byte-identical resource contents, identifiers included.
pub proof fn lemma_animation_def_repack(t: JsonValue, a: SidAnimationDefAsset)
    requires
        is_animation_def_tree(t, a@),
        a@.wf(),
    ensures
        animation_def_of_tree(t) == Some(a@),
        animation_def_resource_layout(animation_def_of_tree(t)->0)
            == animation_def_resource_layout(a@),
{
    lemma_animation_def_tree_parses(t, a@);
}

/// The same for an animation asset: a round trip through its
/// intermediate tree leaves the packed resource byte-identical.
pub proof fn lemma_animation_repack(t: JsonValue, a: SidAnimationAsset)
    requires
        is_animation_tree(t, a@),
    ensures
        animation_of_tree(t) == Some(a@),
        animation_resource_layout(animation_of_tree(t)->0) == animation_resource_layout(a@),
{
    lemma_animation_tree_parses(t, a@);
}

/// A sprite-sheet resource's raw pixel byte count equals
/// `width * height * channel count`, and the width, height and byte
/// count written into the layout decode back to what was packed.
pub proof fn lemma_sprite_sheet_resource_round_trip(
    v: SidSpriteSheetAssetView,
    d: DecodedImageView,
)
    requires
        d.pixels.len() == d.width as nat * d.height as nat * channel_count_of(d.color) as nat,
        d.pixels.len() <= u64::MAX,
    ensures
        ({
            let b = sprite_sheet_resource_layout(v, d);
            &&& b.len() == 25 + d.pixels.len()
            &&& crate::bytes::le32_decode(b.subrange(4, 8)) == d.width
            &&& crate::bytes::le32_decode(b.subrange(8, 12)) == d.height
            &&& crate::bytes::le64_decode(b.subrange(17, 25)) == d.pixels.len() as u64
            &&& crate::bytes::le64_decode(b.subrange(17, 25)) == d.width as nat
                * d.height as nat * channel_count_of(d.color) as nat
            &&& b.subrange(25, b.len() as int) == d.pixels
        }),
{
    let b = sprite_sheet_resource_layout(v, d);
    assert(b.subrange(4, 8) =~= le32_spec(d.width));
    assert(b.subrange(8, 12) =~= le32_spec(d.height));
    assert(b.subrange(17, 25) =~= le64_spec(d.pixels.len() as u64));
    assert(b.subrange(25, b.len() as int) =~= d.pixels);
    crate::bytes::lemma_le32_round_trip(d.width);
    crate::bytes::lemma_le32_round_trip(d.height);
    crate::bytes::lemma_le64_round_trip(d.pixels.len() as u64);
}

} // verus!
