//! Pixel codec between the sequential red/green/blue/alpha order in which
//! images are loaded and the alpha-first order of the tray protocol.

use vstd::prelude::*;

verus! {

/// Why a pixel buffer was refused.
#[derive(Debug, Clone, Copy, PartialEq, Eq, Structural)]
pub enum BadIcon {
    /// The buffer does not hold a whole number of four-byte pixels;
    /// `byte_count` is its length.
    InvalidByteCount { byte_count: usize },
}

/// The alpha-first order of pixels given as red, green, blue, alpha: every
/// pixel keeps its place, and inside each pixel the alpha byte moves from
/// the last position to the first.
pub open spec fn rgba_to_argb(rgba: Seq<u8>) -> Seq<u8> {
    Seq::new(
        rgba.len(),
        |k: int|
            if k % 4 == 0 {
                rgba[k + 3]
            } else {
                rgba[k - 1]
            },
    )
}

/// The inverse reordering: inside each pixel the alpha byte moves from the
/// first position to the last.
pub open spec fn argb_to_rgba(argb: Seq<u8>) -> Seq<u8> {
    Seq::new(
        argb.len(),
        |k: int|
            if k % 4 == 3 {
                argb[k - 3]
            } else {
                argb[k + 1]
            },
    )
}

/// Pixel `p` of `out` is pixel `p` of `rgba` with its alpha byte moved to
/// the front.
spec fn pixel_is_argb(out: Seq<u8>, rgba: Seq<u8>, p: int) -> bool {
    &&& out[4 * p] == rgba[4 * p + 3]
    &&& out[4 * p + 1] == rgba[4 * p]
    &&& out[4 * p + 2] == rgba[4 * p + 1]
    &&& out[4 * p + 3] == rgba[4 * p + 2]
}

/// Pixel `p` is the same four bytes in both buffers.
spec fn pixel_is_same(out: Seq<u8>, other: Seq<u8>, p: int) -> bool {
    &&& out[4 * p] == other[4 * p]
    &&& out[4 * p + 1] == other[4 * p + 1]
    &&& out[4 * p + 2] == other[4 * p + 2]
    &&& out[4 * p + 3] == other[4 * p + 3]
}

/// An icon as the tray protocol wants it: alpha-first pixels and signed
/// dimensions. It always holds whole pixels.
#[derive(Debug, PartialEq, Eq)]
pub struct PlatformIcon {
    argb: Vec<u8>,
    width: i32,
    height: i32,
}

/// What an icon holds, as mathematical values.
pub struct IconView {
    pub argb: Seq<u8>,
    pub width: i32,
    pub height: i32,
}

impl IconView {
    /// The buffer holds whole four-byte pixels.
    pub open spec fn is_whole(self) -> bool {
        self.argb.len() % 4 == 0
    }
}

/// The icon that pixels in red/green/blue/alpha order and unsigned
/// dimensions make.
pub open spec fn encoded(rgba: Seq<u8>, width: u32, height: u32) -> IconView {
    IconView { argb: rgba_to_argb(rgba), width: width as i32, height: height as i32 }
}

/// The pixels and dimensions that an icon gives back.
pub open spec fn decoded(icon: IconView) -> (Seq<u8>, u32, u32) {
    (argb_to_rgba(icon.argb), icon.width as u32, icon.height as u32)
}

impl View for PlatformIcon {
    type V = IconView;

    closed spec fn view(&self) -> IconView {
        IconView { argb: self.argb@, width: self.width, height: self.height }
    }
}

impl PlatformIcon {
    #[verifier::type_invariant]
    spec fn holds_whole_pixels(self) -> bool {
        self.argb@.len() % 4 == 0
    }

    /// Builds an icon from pixels in red/green/blue/alpha order.
    ///
    /// The buffer must hold whole pixels; otherwise it is refused with its
    /// exact length. The dimensions are stored as the tray protocol's signed
    /// integers, by reinterpreting their bits.
    pub fn from_rgba(rgba: Vec<u8>, width: u32, height: u32) -> (result: Result<Self, BadIcon>)
        ensures
            rgba@.len() % 4 != 0 ==> result == Err::<Self, BadIcon>(
                BadIcon::InvalidByteCount { byte_count: rgba@.len() as usize },
            ),
            rgba@.len() % 4 == 0 ==> result is Ok && result->Ok_0@ == encoded(
                rgba@,
                width,
                height,
            ),
    {
        if rgba.len() % 4 != 0 {
            return Err(BadIcon::InvalidByteCount { byte_count: rgba.len() });
        }
        let ghost given = rgba@;
        let mut bytes = rgba;
        let groups: usize = bytes.len() / 4;
        let mut i: usize = 0;
        while i < groups
            invariant
                groups * 4 == given.len(),
                given.len() <= usize::MAX,
                i <= groups,
                bytes@.len() == given.len(),
                forall|p: int| 0 <= p < i ==> #[trigger] pixel_is_argb(bytes@, given, p),
                forall|p: int| i <= p < groups ==> #[trigger] pixel_is_same(bytes@, given, p),
            decreases groups - i,
        {
            let ghost before = bytes@;
            assert(pixel_is_same(before, given, i as int));
            let j: usize = i * 4;
            let a: u8 = bytes[j + 3];
            let b: u8 = bytes[j + 2];
            let g: u8 = bytes[j + 1];
            let r: u8 = bytes[j];
            bytes.set(j + 3, b);
            bytes.set(j + 2, g);
            bytes.set(j + 1, r);
            bytes.set(j, a);
            assert forall|p: int| 0 <= p < i + 1 implies #[trigger] pixel_is_argb(
                bytes@,
                given,
                p,
            ) by {
                if p < i {
                    assert(pixel_is_argb(before, given, p));
                }
            }
            assert forall|p: int| i + 1 <= p < groups implies #[trigger] pixel_is_same(
                bytes@,
                given,
                p,
            ) by {
                assert(pixel_is_same(before, given, p));
            }
            i = i + 1;
        }
        assert forall|k: int| 0 <= k < given.len() implies bytes@[k] == rgba_to_argb(
            given,
        )[k] by {
            assert(pixel_is_argb(bytes@, given, k / 4));
        }
        assert(bytes@ =~= rgba_to_argb(given));
        Ok(
            Self {
                argb: bytes,
                width: #[verifier::truncate] (width as i32),
                height: #[verifier::truncate] (height as i32),
            },
        )
    }

    /// Gives the pixels back in red/green/blue/alpha order, with the
    /// dimensions as unsigned integers again.
    pub fn into_rgba(self) -> (result: (Vec<u8>, u32, u32))
        ensures
            self@.is_whole(),
            (result.0@, result.1, result.2) == decoded(self@),
    {
        proof {
            use_type_invariant(&self);
        }
        let ghost given = self.argb@;
        let width: i32 = self.width;
        let height: i32 = self.height;
        let mut bytes = self.argb;
        let groups: usize = bytes.len() / 4;
        let mut i: usize = 0;
        while i < groups
            invariant
                groups * 4 == given.len(),
                given.len() <= usize::MAX,
                i <= groups,
                bytes@.len() == given.len(),
                forall|p: int| 0 <= p < i ==> #[trigger] pixel_is_argb(given, bytes@, p),
                forall|p: int| i <= p < groups ==> #[trigger] pixel_is_same(bytes@, given, p),
            decreases groups - i,
        {
            let ghost before = bytes@;
            assert(pixel_is_same(before, given, i as int));
            let j: usize = i * 4;
            let a: u8 = bytes[j];
            let r: u8 = bytes[j + 1];
            let g: u8 = bytes[j + 2];
            let b: u8 = bytes[j + 3];
            bytes.set(j, r);
            bytes.set(j + 1, g);
            bytes.set(j + 2, b);
            bytes.set(j + 3, a);
            assert forall|p: int| 0 <= p < i + 1 implies #[trigger] pixel_is_argb(
                given,
                bytes@,
                p,
            ) by {
                if p < i {
                    assert(pixel_is_argb(given, before, p));
                }
            }
            assert forall|p: int| i + 1 <= p < groups implies #[trigger] pixel_is_same(
                bytes@,
                given,
                p,
            ) by {
                assert(pixel_is_same(before, given, p));
            }
            i = i + 1;
        }
        assert forall|k: int| 0 <= k < given.len() implies bytes@[k] == argb_to_rgba(
            given,
        )[k] by {
            assert(pixel_is_argb(given, bytes@, k / 4));
        }
        assert(bytes@ =~= argb_to_rgba(given));
        (bytes, #[verifier::truncate] (width as u32), #[verifier::truncate] (height as u32))
    }
}

impl PlatformIcon {
    /// The pixels, alpha first.
    pub fn argb(&self) -> (bytes: &Vec<u8>)
        ensures
            bytes@ == self@.argb,
            self@.is_whole(),
    {
        proof {
            use_type_invariant(self);
        }
        &self.argb
    }

    /// The width in pixels, as the tray protocol's signed integer.
    pub fn width(&self) -> (width: i32)
        ensures
            width == self@.width,
    {
        self.width
    }

    /// The height in pixels, as the tray protocol's signed integer.
    pub fn height(&self) -> (height: i32)
        ensures
            height == self@.height,
    {
        self.height
    }
}

impl Clone for PlatformIcon {
    fn clone(&self) -> (copy: Self)
        ensures
            copy@ == self@,
    {
        proof {
            use_type_invariant(self);
        }
        let argb = self.argb.clone();
        PlatformIcon { argb, width: self.width, height: self.height }
    }
}

/// Decoding undoes encoding: whole pixels that are made into an icon come
/// back byte for byte, and so do the dimensions, whatever their size.
pub proof fn lemma_decode_undoes_encode(rgba: Seq<u8>, width: u32, height: u32)
    requires
        rgba.len() % 4 == 0,
    ensures
        encoded(rgba, width, height).is_whole(),
        decoded(encoded(rgba, width, height)) == (rgba, width, height),
{
    assert(argb_to_rgba(rgba_to_argb(rgba)) =~= rgba);
    assert((width as i32) as u32 == width) by (bit_vector);
    assert((height as i32) as u32 == height) by (bit_vector);
}

/// Encoding undoes decoding: the pixels and dimensions that an icon gives
/// back make the same icon again.
pub proof fn lemma_encode_undoes_decode(icon: IconView)
    requires
        icon.is_whole(),
    ensures
        encoded(decoded(icon).0, decoded(icon).1, decoded(icon).2) == icon,
{
    let width = icon.width;
    let height = icon.height;
    assert(rgba_to_argb(argb_to_rgba(icon.argb)) =~= icon.argb);
    assert((width as u32) as i32 == width) by (bit_vector);
    assert((height as u32) as i32 == height) by (bit_vector);
}

} // verus!
