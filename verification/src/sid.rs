//! Identifier service: stable numeric identifiers for asset names, the
//! fixed namespace labels that partition the asset space, and the frame
//! count cap for animation definitions.
//!
//! Identifiers are produced by a 32-bit FNV-1a-style fold over the
//! characters of the name, so that the same name always maps to the same
//! identifier, in both pipeline stages and across runs.

use vstd::prelude::*;

verus! {

pub type SidStringId = u32;

pub type SidSpriteSheetId = SidStringId;

pub type SidSpriteSheetDim = u32;

pub type SidAnimationDefId = SidStringId;

pub type SidAnimationId = SidStringId;

pub type SidAnimationFrameDim = u16;

pub type SidAnimationFrameCoord = u16;

pub type SidAnimationFrameIndex = u16;

pub type SidAnimationFrameDuration = u16;

pub type UIndex = u64;

/// Cap on the number of frames an animation definition may carry.
pub const SID_MAX_ANIMATION_FRAME_COUNT: u16 = 4096;

/// FNV-1a offset basis (32-bit).
pub const SID_ID_BASIS: u32 = 0x811c_9dc5;

/// FNV-1a prime (32-bit).
pub const SID_ID_PRIME: u32 = 0x0100_0193;

/// One step of the identifier fold: mix one character into the hash state.
pub open spec fn sid_id_step(h: u32, c: char) -> u32 {
    vstd::wrapping::u32_specs::wrapping_mul(h ^ (c as u32), SID_ID_PRIME)
}

/// The identifier of a name: the FNV-1a-style fold over its characters.
pub open spec fn sid_string_id(s: Seq<char>) -> u32
    decreases s.len(),
{
    if s.len() == 0 {
        SID_ID_BASIS
    } else {
        sid_id_step(sid_string_id(s.drop_last()), s.last())
    }
}

/// Computes the numeric identifier of a name.
pub fn generate_string_id(name: &str) -> (id: SidStringId)
    ensures
        id == sid_string_id(name@),
{
    let n = name.unicode_len();
    let mut h: u32 = SID_ID_BASIS;
    let mut i: usize = 0;
    while i < n
        invariant
            i <= n,
            n == name@.len(),
            h == sid_string_id(name@.take(i as int)),
        decreases n - i,
    {
        let c = name.get_char(i);
        h = (h ^ (c as u32)).wrapping_mul(SID_ID_PRIME);
        proof {
            assert(name@.take(i + 1).drop_last() =~= name@.take(i as int));
            assert(name@.take(i + 1).last() == name@[i as int]);
        }
        i = i + 1;
    }
    proof {
        assert(name@.take(n as int) =~= name@);
    }
    h
}

pub fn get_animation_namespace() -> (r: &'static str)
    ensures
        r@ == "animation"@,
{
    "animation"
}

pub fn get_animation_def_namespace() -> (r: &'static str)
    ensures
        r@ == "animation_def"@,
{
    "animation_def"
}

pub fn get_sprite_sheet_namespace() -> (r: &'static str)
    ensures
        r@ == "sprite_sheet"@,
{
    "sprite_sheet"
}

pub fn get_max_animation_frame_count() -> (r: SidAnimationFrameIndex)
    ensures
        r == SID_MAX_ANIMATION_FRAME_COUNT,
{
    SID_MAX_ANIMATION_FRAME_COUNT
}

pub fn generate_animation_def_id(name: &str) -> (id: SidAnimationDefId)
    ensures
        id == sid_string_id(name@),
{
    generate_string_id(name)
}

pub fn generate_animation_id(name: &str) -> (id: SidAnimationId)
    ensures
        id == sid_string_id(name@),
{
    generate_string_id(name)
}

pub fn generate_sprite_sheet_id(name: &str) -> (id: SidSpriteSheetId)
    ensures
        id == sid_string_id(name@),
{
    generate_string_id(name)
}

/// Pixel format codes of the sprite-sheet binary resource.
#[allow(non_camel_case_types)]
#[derive(Debug, Copy, Clone, PartialEq, Eq, Structural)]
pub enum sid_texture_format {
    SID_TEXTURE_FORMAT_UNKNOWN,
    SID_TEXTURE_FORMAT_RGB8,
    SID_TEXTURE_FORMAT_RGBA8,
}

impl sid_texture_format {
    /// The i32 code written into a sprite-sheet resource.
    pub open spec fn spec_code(self) -> i32 {
        match self {
            sid_texture_format::SID_TEXTURE_FORMAT_UNKNOWN => 0,
            sid_texture_format::SID_TEXTURE_FORMAT_RGB8 => 1,
            sid_texture_format::SID_TEXTURE_FORMAT_RGBA8 => 2,
        }
    }

    pub fn code(self) -> (r: i32)
        ensures
            r == self.spec_code(),
    {
        match self {
            sid_texture_format::SID_TEXTURE_FORMAT_UNKNOWN => 0,
            sid_texture_format::SID_TEXTURE_FORMAT_RGB8 => 1,
            sid_texture_format::SID_TEXTURE_FORMAT_RGBA8 => 2,
        }
    }
}

} // verus!
