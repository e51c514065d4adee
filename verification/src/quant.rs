//! Palette derivation through the `color_quant` crate's neural quantization
//! network, treated as an opaque capability: build a palette from a sample
//! set, then look up the nearest palette index for a color. Training and
//! lookup are deterministic functions of their arguments, which the names
//! below record.

use vstd::prelude::*;

verus! {

/// The quantization network of the `color_quant` crate, opaque to the
/// verified pipeline.
#[verifier::external_type_specification]
#[verifier::external_body]
pub struct ExNeuQuant(color_quant::NeuQuant);

/// The number of palette entries the network was built with.
pub uninterp spec fn quant_color_count(q: color_quant::NeuQuant) -> int;

/// The flat RGB palette (three bytes per entry) held by the network.
pub uninterp spec fn quant_palette_rgb(q: color_quant::NeuQuant) -> Seq<u8>;

/// The palette index the network returns for a four-byte RGBA color.
pub uninterp spec fn quant_index(q: color_quant::NeuQuant, color: Seq<u8>) -> int;

/// The palette that training on `samples` produces, as a function of the
/// training arguments alone.
pub uninterp spec fn trained_palette(samplefac: int, colors: int, samples: Seq<u8>) -> Seq<u8>;

/// The palette index that a network trained on `samples` assigns to
/// `color`, as a function of the training arguments and the color alone.
pub uninterp spec fn trained_index(
    samplefac: int,
    colors: int,
    samples: Seq<u8>,
    color: Seq<u8>,
) -> int;

/// Relies on color_quant::NeuQuant::new: trains a quantization network on
/// the RGBA sample bytes. Training is pure arithmetic on its arguments, so
/// the palette and the index assignment are functions of them alone.
/// With `samplefac >= 1` and `1 <= colors <= 256` no input panics: an
/// empty sample set skips the learning loop, and the learning radius
/// arithmetic stays within its integer type.
#[verifier::external_body]
pub(crate) fn quant_new(samplefac: i32, colors: usize, samples: &Vec<u8>) -> (q:
    color_quant::NeuQuant)
    requires
        samplefac >= 1,
        1 <= colors <= 256,
    ensures
        quant_color_count(q) == colors,
        quant_palette_rgb(q) == trained_palette(samplefac as int, colors as int, samples@),
        forall|c: Seq<u8>| #[trigger]
            quant_index(q, c) == trained_index(samplefac as int, colors as int, samples@, c),
{
    color_quant::NeuQuant::new(samplefac, colors, samples.as_slice())
}

/// Relies on color_quant::NeuQuant::index_of: returns the index of the
/// best-matching palette entry for a four-byte RGBA color, always below the
/// number of entries the network was built with.
#[verifier::external_body]
pub(crate) fn quant_index_of(q: &color_quant::NeuQuant, r: u8, g: u8, b: u8, a: u8) -> (idx: usize)
    requires
        quant_color_count(*q) >= 1,
    ensures
        idx as int == quant_index(*q, seq![r, g, b, a]),
        idx < quant_color_count(*q),
{
    q.index_of(&[r, g, b, a])
}

/// Relies on color_quant::NeuQuant::color_map_rgb: returns the palette as a
/// flat RGB byte sequence, three bytes per entry.
#[verifier::external_body]
pub(crate) fn quant_color_map_rgb(q: &color_quant::NeuQuant) -> (palette: Vec<u8>)
    ensures
        palette@ == quant_palette_rgb(*q),
        palette@.len() == 3 * quant_color_count(*q),
{
    q.color_map_rgb()
}

} // verus!
