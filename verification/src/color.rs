//! Colours with 8-bit channels.

use vstd::prelude::*;

verus! {

/// An RGBA colour with 8-bit channels.
#[derive(Copy, Clone, PartialOrd, Ord, PartialEq, Eq, Debug, Structural)]
pub struct Rgba8 {
    pub r: u8,
    pub g: u8,
    pub b: u8,
    pub a: u8,
}

/// A BGRA colour with 8-bit channels, used when dealing with framebuffers.
#[derive(Copy, Clone, PartialEq, Eq, Debug, Structural)]
pub struct Bgra8 {
    pub b: u8,
    pub g: u8,
    pub r: u8,
    pub a: u8,
}

/// The four bytes of `x`, least significant first.
pub open spec fn le_bytes(x: u32) -> Seq<u8> {
    seq![
        (x & 0xff) as u8,
        ((x >> 8) & 0xff) as u8,
        ((x >> 16) & 0xff) as u8,
        ((x >> 24) & 0xff) as u8,
    ]
}

/// The four bytes of `x`, most significant first.
pub open spec fn be_bytes(x: u32) -> Seq<u8> {
    seq![
        ((x >> 24) & 0xff) as u8,
        ((x >> 16) & 0xff) as u8,
        ((x >> 8) & 0xff) as u8,
        (x & 0xff) as u8,
    ]
}

/// `u32::to_ne_bytes`: the four bytes of the number in the order in which
/// the machine keeps them in memory, which is one of the two byte orders.
#[verifier::external_body]
fn u32_to_ne_bytes(x: u32) -> (bytes: [u8; 4])
    ensures
        bytes@ == le_bytes(x) || bytes@ == be_bytes(x),
{
    x.to_ne_bytes()
}

impl Rgba8 {
    pub fn new(r: u8, g: u8, b: u8, a: u8) -> (color: Self)
        ensures
            color == (Rgba8 { r, g, b, a }),
    {
        Self { r, g, b, a }
    }

    /// The colours that a run of bytes holds: each group of four bytes is
    /// one colour, in the order red, green, blue, alpha.
    pub open spec fn spec_align(bytes: Seq<u8>) -> Seq<Rgba8> {
        Seq::new(
            (bytes.len() / 4) as nat,
            |i: int|
                Rgba8 {
                    r: bytes[4 * i],
                    g: bytes[4 * i + 1],
                    b: bytes[4 * i + 2],
                    a: bytes[4 * i + 3],
                },
        )
    }

    /// Given a byte slice, returns the [`Rgba8`] values it holds. The
    /// slice must hold whole colours.
    pub fn align(bytes: &[u8]) -> (colors: Vec<Rgba8>)
        requires
            bytes@.len() % 4 == 0,
        ensures
            colors@ == Self::spec_align(bytes@),
    {
        let count: usize = bytes.len() / 4;
        let mut colors: Vec<Rgba8> = Vec::with_capacity(count);
        let mut i: usize = 0;
        while i < count
            invariant
                4 * count == bytes@.len(),
                bytes@.len() <= usize::MAX,
                i <= count,
                colors@.len() == i,
                forall|k: int| 0 <= k < i ==> colors@[k] == Self::spec_align(bytes@)[k],
            decreases count - i,
        {
            let at: usize = 4 * i;
            colors.push(
                Rgba8 { r: bytes[at], g: bytes[at + 1], b: bytes[at + 2], a: bytes[at + 3] },
            );
            i = i + 1;
        }
        assert(colors@ =~= Self::spec_align(bytes@));
        colors
    }
}

impl Default for Rgba8 {
    /// Transparent black.
    fn default() -> (color: Self)
        ensures
            color == (Rgba8 { r: 0, g: 0, b: 0, a: 0 }),
    {
        Rgba8 { r: 0, g: 0, b: 0, a: 0 }
    }
}

impl From<u32> for Rgba8 {
    /// Only the lowest byte of the number is read: it becomes the alpha
    /// channel, and the colour channels are zero.
    fn from(rgba: u32) -> (color: Self) {
        let r: u32 = rgba << 24 & 0xFF;
        let g: u32 = rgba << 16 & 0xFF;
        let b: u32 = rgba << 8 & 0xFF;
        let a: u32 = rgba & 0xFF;
        assert((rgba << 24) & 0xFF == 0) by (bit_vector);
        assert((rgba << 16) & 0xFF == 0) by (bit_vector);
        assert((rgba << 8) & 0xFF == 0) by (bit_vector);
        assert(rgba & 0xFF == rgba % 256) by (bit_vector);
        Self { r: r as u8, g: g as u8, b: b as u8, a: a as u8 }
    }
}

impl vstd::std_specs::convert::FromSpecImpl<u32> for Rgba8 {
    open spec fn obeys_from_spec() -> bool {
        true
    }

    open spec fn from_spec(rgba: u32) -> Self {
        Rgba8 { r: 0, g: 0, b: 0, a: (rgba % 256) as u8 }
    }
}

impl From<Bgra8> for Rgba8 {
    fn from(bgra: Bgra8) -> (color: Self) {
        Rgba8 { r: bgra.r, g: bgra.g, b: bgra.b, a: bgra.a }
    }
}

impl vstd::std_specs::convert::FromSpecImpl<Bgra8> for Rgba8 {
    open spec fn obeys_from_spec() -> bool {
        true
    }

    open spec fn from_spec(bgra: Bgra8) -> Self {
        Rgba8 { r: bgra.r, g: bgra.g, b: bgra.b, a: bgra.a }
    }
}

impl Bgra8 {
    pub fn new(b: u8, g: u8, r: u8, a: u8) -> (color: Self)
        ensures
            color == (Bgra8 { b, g, r, a }),
    {
        Bgra8 { b, g, r, a }
    }

    /// The colour whose channels are the given four bytes, in the order
    /// blue, green, red, alpha.
    pub open spec fn of_bytes(bytes: Seq<u8>) -> Bgra8 {
        Bgra8 { b: bytes[0], g: bytes[1], r: bytes[2], a: bytes[3] }
    }

    /// The colours that a run of bytes holds: each group of four bytes is
    /// one colour, in the order blue, green, red, alpha.
    pub open spec fn spec_align(bytes: Seq<u8>) -> Seq<Bgra8> {
        Seq::new(
            (bytes.len() / 4) as nat,
            |i: int|
                Bgra8 {
                    b: bytes[4 * i],
                    g: bytes[4 * i + 1],
                    r: bytes[4 * i + 2],
                    a: bytes[4 * i + 3],
                },
        )
    }

    /// Given a byte slice, returns the `Bgra8` values it holds. The slice
    /// must hold whole colours.
    pub fn align(bytes: &[u8]) -> (colors: Vec<Bgra8>)
        requires
            bytes@.len() % 4 == 0,
        ensures
            colors@ == Self::spec_align(bytes@),
    {
        let count: usize = bytes.len() / 4;
        let mut colors: Vec<Bgra8> = Vec::with_capacity(count);
        let mut i: usize = 0;
        while i < count
            invariant
                4 * count == bytes@.len(),
                bytes@.len() <= usize::MAX,
                i <= count,
                colors@.len() == i,
                forall|k: int| 0 <= k < i ==> colors@[k] == Self::spec_align(bytes@)[k],
            decreases count - i,
        {
            let at: usize = 4 * i;
            colors.push(
                Bgra8 { b: bytes[at], g: bytes[at + 1], r: bytes[at + 2], a: bytes[at + 3] },
            );
            i = i + 1;
        }
        assert(colors@ =~= Self::spec_align(bytes@));
        colors
    }

    /// The colour that lies in memory where the number lies: its channels
    /// are the bytes of the number in the machine's byte order.
    pub fn from_bits(bits: u32) -> (color: Self)
        ensures
            color == Self::of_bytes(le_bytes(bits)) || color == Self::of_bytes(be_bytes(bits)),
    {
        let bytes = u32_to_ne_bytes(bits);
        Bgra8 { b: bytes[0], g: bytes[1], r: bytes[2], a: bytes[3] }
    }
}

impl Default for Bgra8 {
    /// Transparent black.
    fn default() -> (color: Self)
        ensures
            color == (Bgra8 { b: 0, g: 0, r: 0, a: 0 }),
    {
        Bgra8 { b: 0, g: 0, r: 0, a: 0 }
    }
}

impl From<u32> for Bgra8 {
    /// See [`Bgra8::from_bits`].
    fn from(rgba: u32) -> (color: Self) {
        Bgra8::from_bits(rgba)
    }
}

impl vstd::std_specs::convert::FromSpecImpl<u32> for Bgra8 {
    /// The result depends on the machine's byte order, so it is no
    /// function of the number alone.
    open spec fn obeys_from_spec() -> bool {
        false
    }

    open spec fn from_spec(rgba: u32) -> Self {
        Self::of_bytes(le_bytes(rgba))
    }
}

impl From<Rgba8> for Bgra8 {
    fn from(rgba: Rgba8) -> (color: Self) {
        Bgra8 { b: rgba.b, g: rgba.g, r: rgba.r, a: rgba.a }
    }
}

impl vstd::std_specs::convert::FromSpecImpl<Rgba8> for Bgra8 {
    open spec fn obeys_from_spec() -> bool {
        true
    }

    open spec fn from_spec(rgba: Rgba8) -> Self {
        Bgra8 { b: rgba.b, g: rgba.g, r: rgba.r, a: rgba.a }
    }
}

/// Swapping the channel order twice gives the colour back.
pub proof fn lemma_swizzle_round_trip(color: Rgba8)
    ensures
        <Rgba8 as vstd::std_specs::convert::FromSpec<Bgra8>>::from_spec(
            <Bgra8 as vstd::std_specs::convert::FromSpec<Rgba8>>::from_spec(color),
        ) == color,
{
}

} // verus!
