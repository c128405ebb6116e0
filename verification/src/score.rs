//! The score calculation pipeline: decode the beatmap, run the difficulty
//! pass, run the performance pass, and project the two scalar outputs.

use vstd::prelude::*;

use crate::engine::{
    beatmap_from_bytes, beatmap_ok, engine_pp_bits_full, engine_pp_bits_passed, engine_stars_bits,
    mode_ok, pp_bits_of, stars_bits_of,
};
use crate::options::OptionU32;

verus! {

/// The two scalar outputs of a score calculation, as the raw IEEE-754 bit
/// patterns of the two double-precision values (`pp` first, `stars` second).
#[derive(Clone, Copy, Debug, PartialEq, Eq, Structural)]
pub struct CalculatePerformanceResult {
    pub pp_bits: u64,
    pub stars_bits: u64,
}

impl CalculatePerformanceResult {
    /// Project the two engine outputs into the result aggregate.
    pub fn from_bits(pp_bits: u64, stars_bits: u64) -> (r: Self)
        ensures
            r.pp_bits == pp_bits,
            r.stars_bits == stars_bits,
    {
        CalculatePerformanceResult { pp_bits, stars_bits }
    }
}

impl Default for CalculatePerformanceResult {
    /// The all-zero aggregate; zero bits are the bit pattern of 0.0.
    fn default() -> (r: Self)
        ensures
            r.pp_bits == 0,
            r.stars_bits == 0,
    {
        CalculatePerformanceResult { pp_bits: 0, stars_bits: 0 }
    }
}

/// Why a calculation was refused.
#[derive(Clone, Copy, Debug, PartialEq, Eq, Structural)]
pub enum ScoreError {
    /// The beatmap source was empty; zero-length buffers are invalid input.
    EmptySource,
    /// The engine could not decode a beatmap from the bytes.
    InvalidBeatmap,
    /// The beatmap cannot be brought to the requested mode.
    IncompatibleMode,
}

/// The mode selector the engine is given: the four game modes keep their
/// number, every other selector falls back to the first mode, as the engine's
/// own mode decoding does.
pub open spec fn norm_mode(mode: u32) -> u8 {
    if mode <= 3 {
        mode as u8
    } else {
        0u8
    }
}

/// What a calculation returns, for every input: empty sources and undecodable
/// sources are refused, a source that cannot be brought to the requested mode
/// is refused, and otherwise the result carries exactly the engine's two
/// outputs for the given parameters.
pub open spec fn score_spec(
    source: Seq<u8>,
    mode: u32,
    mods: u32,
    max_combo: u32,
    miss_count: u32,
    passed_objects: Option<u32>,
    accuracy_bits: u64,
) -> Result<CalculatePerformanceResult, ScoreError> {
    if source.len() == 0 {
        Err(ScoreError::EmptySource)
    } else if !beatmap_ok(source) {
        Err(ScoreError::InvalidBeatmap)
    } else if !mode_ok(source, norm_mode(mode)) {
        Err(ScoreError::IncompatibleMode)
    } else {
        Ok(CalculatePerformanceResult {
            pp_bits: pp_bits_of(
                source,
                norm_mode(mode),
                mods,
                max_combo,
                miss_count,
                passed_objects,
                accuracy_bits,
            ),
            stars_bits: stars_bits_of(source, norm_mode(mode), mods),
        })
    }
}

/// Bring a mode selector into the range the engine distinguishes.
pub fn normalized_mode(mode: u32) -> (r: u8)
    ensures
        r == norm_mode(mode),
        r <= 3,
{
    if mode <= 3 {
        mode as u8
    } else {
        0u8
    }
}

/// Calculate performance points and star rating for a beatmap given as a
/// byte buffer.  The result is a function of the arguments alone: successive
/// calls with equal arguments return equal results.
///
/// The parameters are applied to the performance pass in a fixed order: mods,
/// max combo, miss count, the passed-objects bound if one is present, and the
/// accuracy last.
pub fn calculate_score_bytes(
    beatmap_bytes: &[u8],
    mode: u32,
    mods: u32,
    max_combo: u32,
    accuracy_bits: u64,
    miss_count: u32,
    passed_objects: OptionU32,
) -> (r: Result<CalculatePerformanceResult, ScoreError>)
    ensures
        r == score_spec(
            beatmap_bytes@,
            mode,
            mods,
            max_combo,
            miss_count,
            passed_objects@,
            accuracy_bits,
        ),
{
    if beatmap_bytes.len() == 0 {
        return Err(ScoreError::EmptySource);
    }
    let map = match beatmap_from_bytes(beatmap_bytes) {
        Some(map) => map,
        None => {
            return Err(ScoreError::InvalidBeatmap);
        },
    };
    let m = normalized_mode(mode);
    let stars_bits = match engine_stars_bits(&map, m, mods) {
        Some(bits) => bits,
        None => {
            return Err(ScoreError::IncompatibleMode);
        },
    };
    let pp_opt = match passed_objects.to_option() {
        Some(n) => engine_pp_bits_passed(&map, m, mods, max_combo, miss_count, n, accuracy_bits),
        None => engine_pp_bits_full(&map, m, mods, max_combo, miss_count, accuracy_bits),
    };
    let pp_bits = match pp_opt {
        Some(bits) => bits,
        None => {
            return Err(ScoreError::IncompatibleMode);
        },
    };
    Ok(CalculatePerformanceResult::from_bits(pp_bits, stars_bits))
}

/// Law: the star rating depends on the beatmap, the mode selector and the
/// mods alone.  Two calculations over the same source, mode and mods succeed
/// together, and when they succeed their star ratings are identical, whatever
/// the max combo, accuracy, miss count and passed-objects bound were.
pub proof fn lemma_stars_orthogonal(
    source: Seq<u8>,
    mode: u32,
    mods: u32,
    max_combo1: u32,
    max_combo2: u32,
    miss_count1: u32,
    miss_count2: u32,
    passed1: Option<u32>,
    passed2: Option<u32>,
    accuracy_bits1: u64,
    accuracy_bits2: u64,
)
    ensures
        ({
            let r1 = score_spec(source, mode, mods, max_combo1, miss_count1, passed1, accuracy_bits1);
            let r2 = score_spec(source, mode, mods, max_combo2, miss_count2, passed2, accuracy_bits2);
            &&& r1 is Ok <==> r2 is Ok
            &&& r1 matches Ok(a1) ==> (r2 matches Ok(a2) && a1.stars_bits == a2.stars_bits)
        }),
{
}

} // verus!
