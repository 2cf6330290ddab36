//! The per-frame payload consumed by the fragment stage.
//!
//! The GPU reads five 32-bit floating-point numbers. This crate never computes
//! with them, so each is carried by its IEEE-754 bit pattern; the caller turns
//! numbers into patterns and back.

use vstd::prelude::*;

verus! {

/// Size in bytes of the packed payload.
pub const PAYLOAD_SIZE: u32 = 20;

/// A single-precision number, held as its bit pattern.
#[derive(Clone, Copy, Debug, PartialEq, Eq, Structural)]
pub struct FloatBits {
    pub bits: u32,
}

/// An axis-aligned rectangle in screen coordinates.
#[derive(Clone, Copy, Debug, PartialEq, Eq, Structural)]
pub struct Rect {
    pub min_x: FloatBits,
    pub min_y: FloatBits,
    pub max_x: FloatBits,
    pub max_y: FloatBits,
}

/// What the effect needs to draw one frame: the noise seed and the rectangle
/// covered by the text overlay.
#[derive(Clone, Copy, Debug, PartialEq, Eq, Structural)]
pub struct RenderParameters {
    pub seed: FloatBits,
    pub overlay_bounds: Rect,
}

/// The two ways a machine lays a 32-bit word out in memory.
pub enum ByteOrder {
    Little,
    Big,
}

/// The four bytes of `word`, least significant first.
pub open spec fn word_bytes_little(word: u32) -> Seq<u8> {
    seq![
        (word % 256) as u8,
        (word / 0x100 % 256) as u8,
        (word / 0x1_0000 % 256) as u8,
        (word / 0x100_0000 % 256) as u8,
    ]
}

/// The four bytes of `word` in the given order.
pub open spec fn word_bytes(order: ByteOrder, word: u32) -> Seq<u8> {
    match order {
        ByteOrder::Little => word_bytes_little(word),
        ByteOrder::Big => word_bytes_little(word).reverse(),
    }
}

/// The word whose bytes in the given order are `bytes[0..4]`.
pub open spec fn word_of_bytes(order: ByteOrder, bytes: Seq<u8>) -> u32 {
    match order {
        ByteOrder::Little => (bytes[0] + bytes[1] * 0x100 + bytes[2] * 0x1_0000 + bytes[3]
            * 0x100_0000) as u32,
        ByteOrder::Big => (bytes[3] + bytes[2] * 0x100 + bytes[1] * 0x1_0000 + bytes[0]
            * 0x100_0000) as u32,
    }
}

/// The words laid out one after another, four bytes each.
pub open spec fn words_bytes(order: ByteOrder, words: Seq<u32>) -> Seq<u8> {
    Seq::new(4 * words.len(), |i: int| word_bytes(order, words[i / 4])[i % 4])
}

impl FloatBits {
    pub fn new(bits: u32) -> (value: FloatBits)
        ensures
            value.bits == bits,
    {
        FloatBits { bits }
    }

    pub fn bits(&self) -> (bits: u32)
        ensures
            bits == self.bits,
    {
        self.bits
    }
}

impl Rect {
    /// The empty rectangle whose two corners are both `(x, y)`.
    pub open spec fn point(x: FloatBits, y: FloatBits) -> Rect {
        Rect { min_x: x, min_y: y, max_x: x, max_y: y }
    }

    pub fn new(min_x: FloatBits, min_y: FloatBits, max_x: FloatBits, max_y: FloatBits) -> (rect:
        Rect)
        ensures
            rect == (Rect { min_x, min_y, max_x, max_y }),
    {
        Rect { min_x, min_y, max_x, max_y }
    }

    /// The rectangle to report for the overlay: the measured one when the text
    /// service found any glyphs, otherwise the empty rectangle at the anchor.
    pub fn measured_or_anchor(measured: Option<Rect>, anchor_x: FloatBits, anchor_y: FloatBits) -> (rect: Rect)
        ensures
            rect == match measured {
                Some(found) => found,
                None => Rect::point(anchor_x, anchor_y),
            },
    {
        match measured {
            Some(found) => found,
            None => Rect { min_x: anchor_x, min_y: anchor_y, max_x: anchor_x, max_y: anchor_y },
        }
    }
}

impl RenderParameters {
    /// The payload as words, in the order the fragment stage reads them.
    pub open spec fn words(self) -> Seq<u32> {
        seq![
            self.seed.bits,
            self.overlay_bounds.min_x.bits,
            self.overlay_bounds.min_y.bits,
            self.overlay_bounds.max_x.bits,
            self.overlay_bounds.max_y.bits,
        ]
    }

    /// The packed payload on a machine of the given byte order.
    pub open spec fn layout(self, order: ByteOrder) -> Seq<u8> {
        words_bytes(order, self.words())
    }

    /// Reads a payload of the given byte order back into parameters.
    pub open spec fn read_back(order: ByteOrder, payload: Seq<u8>) -> RenderParameters {
        RenderParameters {
            seed: FloatBits { bits: word_of_bytes(order, payload.subrange(0, 4)) },
            overlay_bounds: Rect {
                min_x: FloatBits { bits: word_of_bytes(order, payload.subrange(4, 8)) },
                min_y: FloatBits { bits: word_of_bytes(order, payload.subrange(8, 12)) },
                max_x: FloatBits { bits: word_of_bytes(order, payload.subrange(12, 16)) },
                max_y: FloatBits { bits: word_of_bytes(order, payload.subrange(16, 20)) },
            },
        }
    }

    pub fn new(seed: FloatBits, overlay_bounds: Rect) -> (params: RenderParameters)
        ensures
            params == (RenderParameters { seed, overlay_bounds }),
    {
        RenderParameters { seed, overlay_bounds }
    }

    /// Parameters of the current frame, from this frame's seed and this frame's
    /// overlay measurement.
    pub fn for_frame(
        seed: FloatBits,
        measured: Option<Rect>,
        anchor_x: FloatBits,
        anchor_y: FloatBits,
    ) -> (params: RenderParameters)
        ensures
            params.seed == seed,
            params.overlay_bounds == match measured {
                Some(found) => found,
                None => Rect::point(anchor_x, anchor_y),
            },
    {
        RenderParameters {
            seed,
            overlay_bounds: Rect::measured_or_anchor(measured, anchor_x, anchor_y),
        }
    }

    /// Packs the parameters into the 20 bytes pushed to the fragment stage:
    /// seed, then the rectangle's minimum x and y, then its maximum x and y,
    /// each as four bytes in the machine's own byte order.
    pub fn pack(&self) -> (payload: Vec<u8>)
        ensures
            payload@.len() == PAYLOAD_SIZE,
            payload@ == self.layout(ByteOrder::Little) || payload@ == self.layout(ByteOrder::Big),
    {
        let mut words: Vec<u32> = Vec::new();
        words.push(self.seed.bits);
        words.push(self.overlay_bounds.min_x.bits);
        words.push(self.overlay_bounds.min_y.bits);
        words.push(self.overlay_bounds.max_x.bits);
        words.push(self.overlay_bounds.max_y.bits);
        assert(words@ == self.words());
        words_as_bytes(words.as_slice())
    }
}

/// `bytemuck::cast_slice` from 32-bit words to bytes, copied into a vector.
///
/// The cast reinterprets the memory the words occupy. For this pair of types
/// it cannot fail: bytes need no alignment and every word is four whole bytes.
/// The contract claims that the result is the words in order, each as its four
/// bytes, all little-endian or all big-endian, whichever the machine uses.
#[verifier::external_body]
fn words_as_bytes(words: &[u32]) -> (bytes: Vec<u8>)
    ensures
        bytes@ == words_bytes(ByteOrder::Little, words@) || bytes@ == words_bytes(
            ByteOrder::Big,
            words@,
        ),
{
    bytemuck::cast_slice::<u32, u8>(words).to_vec()
}

/// Four bytes written from a word read back as that word.
pub proof fn lemma_word_round_trip(order: ByteOrder, word: u32)
    ensures
        word_bytes(order, word).len() == 4,
        word_of_bytes(order, word_bytes(order, word)) == word,
{
}

/// A payload read back in the byte order it was written in gives the
/// parameters that were packed, so no two parameter values share a payload.
pub proof fn lemma_layout_round_trip(order: ByteOrder, params: RenderParameters)
    ensures
        params.layout(order).len() == PAYLOAD_SIZE,
        RenderParameters::read_back(order, params.layout(order)) == params,
{
    let payload = params.layout(order);
    let words = params.words();
    assert(payload.subrange(0, 4) =~= word_bytes(order, words[0]));
    assert(payload.subrange(4, 8) =~= word_bytes(order, words[1]));
    assert(payload.subrange(8, 12) =~= word_bytes(order, words[2]));
    assert(payload.subrange(12, 16) =~= word_bytes(order, words[3]));
    assert(payload.subrange(16, 20) =~= word_bytes(order, words[4]));
    lemma_word_round_trip(order, words[0]);
    lemma_word_round_trip(order, words[1]);
    lemma_word_round_trip(order, words[2]);
    lemma_word_round_trip(order, words[3]);
    lemma_word_round_trip(order, words[4]);
}

} // verus!
