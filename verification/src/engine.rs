//! The trusted boundary around the difficulty and performance engine.
//!
//! Everything the engine computes is named by an uninterpreted spec function
//! over the raw bytes of the beatmap: the engine's outputs are deterministic
//! functions of the beatmap source, the selected mode and the scoring
//! parameters alone, so the names are well defined.  The two floating-point
//! outputs (star rating, performance points) are carried as their raw IEEE-754
//! bit patterns in `u64` values.

use vstd::prelude::*;

use rosu_pp::model::mode::GameMode;
use rosu_pp::{Beatmap, Difficulty, GameMods, Performance};

verus! {

/// The engine's parsed beatmap, carried opaquely through the library.
#[verifier::external_type_specification]
#[verifier::external_body]
pub struct ExBeatmap(Beatmap);

/// Whether the engine can decode a beatmap from these bytes.
pub uninterp spec fn beatmap_ok(source: Seq<u8>) -> bool;

/// The bytes a beatmap value was decoded from.
pub uninterp spec fn beatmap_source(map: Beatmap) -> Seq<u8>;

/// Whether a beatmap decoded from these bytes can be brought to the given
/// mode (a map already in that mode always can; only an osu!standard map can
/// be converted to another mode).
pub uninterp spec fn mode_ok(source: Seq<u8>, mode: u8) -> bool;

/// The bit pattern of the star rating the engine computes for a beatmap
/// brought to the given mode, under the given mods.
pub uninterp spec fn stars_bits_of(source: Seq<u8>, mode: u8, mods: u32) -> u64;

/// The bit pattern of the performance points the engine computes for a
/// beatmap brought to the given mode, under the given mods and scoring
/// parameters.  `accuracy_bits` is the bit pattern of the accuracy percentage.
pub uninterp spec fn pp_bits_of(
    source: Seq<u8>,
    mode: u8,
    mods: u32,
    max_combo: u32,
    miss_count: u32,
    passed_objects: Option<u32>,
    accuracy_bits: u64,
) -> u64;

/// Relies on `rosu_pp::Beatmap::from_bytes`: it decodes a beatmap from the
/// given bytes alone, deterministically, and returns `Err` exactly when the
/// byte stream cannot be decoded.
#[verifier::external_body]
pub(crate) fn beatmap_from_bytes(bytes: &[u8]) -> (r: Option<Beatmap>)
    ensures
        r is Some <==> beatmap_ok(bytes@),
        r matches Some(map) ==> beatmap_source(map) == bytes@,
{
    Beatmap::from_bytes(bytes).ok()
}

/// Relies on `rosu_pp::Beatmap::convert_ref` (which fails exactly when the
/// map cannot be brought to the requested mode, independently of the mods),
/// and on `rosu_pp::Difficulty` (`new`, `mods`, `calculate`) together with
/// `DifficultyAttributes::stars`: the star rating is a deterministic function
/// of the beatmap, the mode and the mods alone.
#[verifier::external_body]
pub(crate) fn engine_stars_bits(map: &Beatmap, mode: u8, mods: u32) -> (r: Option<u64>)
    requires
        mode <= 3,
    ensures
        r is Some <==> mode_ok(beatmap_source(*map), mode),
        r matches Some(bits) ==> bits == stars_bits_of(beatmap_source(*map), mode, mods),
{
    let converted = map.convert_ref(GameMode::from(mode), &GameMods::from(mods)).ok()?;
    Some(Difficulty::new().mods(mods).calculate(converted.as_ref()).stars().to_bits())
}

/// Relies on `rosu_pp::Beatmap::convert_ref` as above, and on
/// `rosu_pp::Performance` (`new`, `mods`, `combo`, `misses`, `accuracy`,
/// `calculate`) together with `PerformanceAttributes::pp`: the performance
/// points of a full play are a deterministic function of the beatmap, the
/// mode, the mods and the scoring parameters alone.  Accuracy is applied
/// after the miss count, and `calculate` consumes the configured request.
#[verifier::external_body]
pub(crate) fn engine_pp_bits_full(
    map: &Beatmap,
    mode: u8,
    mods: u32,
    max_combo: u32,
    miss_count: u32,
    accuracy_bits: u64,
) -> (r: Option<u64>)
    requires
        mode <= 3,
    ensures
        r is Some <==> mode_ok(beatmap_source(*map), mode),
        r matches Some(bits) ==> bits == pp_bits_of(
            beatmap_source(*map),
            mode,
            mods,
            max_combo,
            miss_count,
            None,
            accuracy_bits,
        ),
{
    let converted = map.convert_ref(GameMode::from(mode), &GameMods::from(mods)).ok()?;
    let perf = Performance::new(converted.as_ref())
        .mods(mods)
        .combo(max_combo)
        .misses(miss_count)
        .accuracy(bytemuck::cast(accuracy_bits));
    Some(perf.calculate().pp().to_bits())
}

/// Relies on the same engine functions as the full-play variant, with
/// `rosu_pp::Performance::passed_objects` applied before the accuracy: the
/// performance points of a partial play are a deterministic function of the
/// beatmap, the mode, the mods and the scoring parameters alone.
#[verifier::external_body]
pub(crate) fn engine_pp_bits_passed(
    map: &Beatmap,
    mode: u8,
    mods: u32,
    max_combo: u32,
    miss_count: u32,
    passed_objects: u32,
    accuracy_bits: u64,
) -> (r: Option<u64>)
    requires
        mode <= 3,
    ensures
        r is Some <==> mode_ok(beatmap_source(*map), mode),
        r matches Some(bits) ==> bits == pp_bits_of(
            beatmap_source(*map),
            mode,
            mods,
            max_combo,
            miss_count,
            Some(passed_objects),
            accuracy_bits,
        ),
{
    let converted = map.convert_ref(GameMode::from(mode), &GameMods::from(mods)).ok()?;
    let perf = Performance::new(converted.as_ref())
        .mods(mods)
        .combo(max_combo)
        .misses(miss_count)
        .passed_objects(passed_objects)
        .accuracy(bytemuck::cast(accuracy_bits));
    Some(perf.calculate().pp().to_bits())
}

} // verus!
