//! Live generator settings and the partial updates merged into them.

use vstd::prelude::*;

verus! {

/// A double-precision setting held as its IEEE 754 bit pattern. The library
/// stores and copies such values and never computes with them; the renderer
/// reads them back as numbers.
#[derive(Clone, Copy, Debug, PartialEq, Eq)]
pub struct Real(pub u64);

/// Bit pattern of the default width divider (sixty).
pub const WIDTH_DIVIDER_BITS: u64 = 0x404E_0000_0000_0000;

/// Bit pattern of the default height multiplier (four hundred).
pub const HEIGHT_MULTIPLIER_BITS: u64 = 0x4079_0000_0000_0000;

/// Bit pattern of the default segment width (five).
pub const SEGMENT_WIDTH_BITS: u64 = 0x4014_0000_0000_0000;

/// Bit pattern of the default frame time divider (eight).
pub const FRAME_TIME_DIVIDER_BITS: u64 = 0x4020_0000_0000_0000;

/// Default number of noise octaves.
pub const PERLIN_NOISE_OCTAVES: usize = 2;

/// The settings that the renderer and the noise sampler read each frame.
#[derive(Clone, Copy, Debug, PartialEq, Eq)]
pub struct NoiseGeneratorSettings {
    pub width_divider: Real,
    pub height_multiplier: Real,
    pub segment_width: Real,
    pub frame_time_divider: Real,
    pub perlin_noise_octaves: usize,
}

/// A partial settings message: each populated field overrides the live value,
/// each absent one leaves it as it is.
#[derive(Clone, Copy, Debug, PartialEq, Eq)]
pub struct NoiseGeneratorSettingsUpdate {
    pub width_divider: Option<Real>,
    pub height_multiplier: Option<Real>,
    pub segment_width: Option<Real>,
    pub frame_time_divider: Option<Real>,
    pub perlin_noise_octaves: Option<usize>,
}

/// The new value where one is given, else the old one.
pub open spec fn or_keep<T>(new: Option<T>, old: T) -> T {
    match new {
        Some(v) => v,
        None => old,
    }
}

/// The settings at startup.
pub open spec fn default_settings() -> NoiseGeneratorSettings {
    NoiseGeneratorSettings {
        width_divider: Real(WIDTH_DIVIDER_BITS),
        height_multiplier: Real(HEIGHT_MULTIPLIER_BITS),
        segment_width: Real(SEGMENT_WIDTH_BITS),
        frame_time_divider: Real(FRAME_TIME_DIVIDER_BITS),
        perlin_noise_octaves: PERLIN_NOISE_OCTAVES,
    }
}

/// The octave counts that a sequence of updates asks of the noise engine, in
/// order: one for each update that populates the field.
pub open spec fn octave_requests(us: Seq<NoiseGeneratorSettingsUpdate>) -> Seq<usize>
    decreases us.len(),
{
    if us.len() == 0 {
        Seq::empty()
    } else {
        let prior = octave_requests(us.drop_last());
        match us.last().perlin_noise_octaves {
            Some(n) => prior.push(n),
            None => prior,
        }
    }
}

impl NoiseGeneratorSettings {
    /// These settings with one update merged in, field by field.
    pub open spec fn updated(self, u: NoiseGeneratorSettingsUpdate) -> NoiseGeneratorSettings {
        NoiseGeneratorSettings {
            width_divider: or_keep(u.width_divider, self.width_divider),
            height_multiplier: or_keep(u.height_multiplier, self.height_multiplier),
            segment_width: or_keep(u.segment_width, self.segment_width),
            frame_time_divider: or_keep(u.frame_time_divider, self.frame_time_divider),
            perlin_noise_octaves: or_keep(u.perlin_noise_octaves, self.perlin_noise_octaves),
        }
    }

    /// These settings with a sequence of updates merged in, in order.
    pub open spec fn updated_all(self, us: Seq<NoiseGeneratorSettingsUpdate>) -> NoiseGeneratorSettings
        decreases us.len(),
    {
        if us.len() == 0 {
            self
        } else {
            self.updated_all(us.drop_last()).updated(us.last())
        }
    }

    /// Merges one update into these settings: each populated field overwrites
    /// its own field and nothing else.
    pub fn apply(&mut self, u: &NoiseGeneratorSettingsUpdate)
        ensures
            *final(self) == old(self).updated(*u),
    {
        if let Some(v) = u.width_divider {
            self.width_divider = v;
        }
        if let Some(v) = u.height_multiplier {
            self.height_multiplier = v;
        }
        if let Some(v) = u.segment_width {
            self.segment_width = v;
        }
        if let Some(v) = u.frame_time_divider {
            self.frame_time_divider = v;
        }
        if let Some(n) = u.perlin_noise_octaves {
            self.perlin_noise_octaves = n;
        }
    }
}

impl Default for NoiseGeneratorSettings {
    fn default() -> (r: NoiseGeneratorSettings)
        ensures
            r == default_settings(),
    {
        NoiseGeneratorSettings {
            width_divider: Real(WIDTH_DIVIDER_BITS),
            height_multiplier: Real(HEIGHT_MULTIPLIER_BITS),
            segment_width: Real(SEGMENT_WIDTH_BITS),
            frame_time_divider: Real(FRAME_TIME_DIVIDER_BITS),
            perlin_noise_octaves: PERLIN_NOISE_OCTAVES,
        }
    }
}

/// Whether `v` is what a sequence of optional overrides leaves: the last value
/// given, or `fallback` when none is given.
pub open spec fn last_given<T>(vals: Seq<Option<T>>, fallback: T, v: T) -> bool {
    ||| (forall|j: int| 0 <= j < vals.len() ==> vals[j] is None) && v == fallback
    ||| exists|i: int|
        0 <= i < vals.len() && vals[i] == Some(v) && forall|j: int| i < j < vals.len() ==> vals[j] is None
}

/// Overrides applied one after the other, starting from `fallback`.
pub open spec fn override_all<T>(vals: Seq<Option<T>>, fallback: T) -> T
    decreases vals.len(),
{
    if vals.len() == 0 {
        fallback
    } else {
        or_keep(vals.last(), override_all(vals.drop_last(), fallback))
    }
}

proof fn lemma_override_all_is_last_given<T>(vals: Seq<Option<T>>, fallback: T)
    ensures
        last_given(vals, fallback, override_all(vals, fallback)),
    decreases vals.len(),
{
    if vals.len() > 0 {
        let prior = vals.drop_last();
        let n = vals.len() - 1;
        lemma_override_all_is_last_given(prior, fallback);
        let r = override_all(vals, fallback);
        match vals.last() {
            Some(v) => {
                assert(vals[n] == Some(r));
            },
            None => {
                if forall|j: int| 0 <= j < prior.len() ==> prior[j] is None {
                    assert forall|j: int| 0 <= j < vals.len() implies vals[j] is None by {
                        if j < n {
                            assert(vals[j] == prior[j]);
                        }
                    }
                } else {
                    let i = choose|i: int|
                        0 <= i < prior.len() && prior[i] == Some(r) && forall|j: int|
                            i < j < prior.len() ==> prior[j] is None;
                    assert(vals[i] == prior[i]);
                    assert forall|j: int| i < j < vals.len() implies vals[j] is None by {
                        if j < n {
                            assert(vals[j] == prior[j]);
                        }
                    }
                }
            },
        }
    }
}

proof fn lemma_updated_all_fields(s: NoiseGeneratorSettings, us: Seq<NoiseGeneratorSettingsUpdate>)
    ensures
        s.updated_all(us).width_divider == override_all(
            us.map_values(|u: NoiseGeneratorSettingsUpdate| u.width_divider),
            s.width_divider,
        ),
        s.updated_all(us).height_multiplier == override_all(
            us.map_values(|u: NoiseGeneratorSettingsUpdate| u.height_multiplier),
            s.height_multiplier,
        ),
        s.updated_all(us).segment_width == override_all(
            us.map_values(|u: NoiseGeneratorSettingsUpdate| u.segment_width),
            s.segment_width,
        ),
        s.updated_all(us).frame_time_divider == override_all(
            us.map_values(|u: NoiseGeneratorSettingsUpdate| u.frame_time_divider),
            s.frame_time_divider,
        ),
        s.updated_all(us).perlin_noise_octaves == override_all(
            us.map_values(|u: NoiseGeneratorSettingsUpdate| u.perlin_noise_octaves),
            s.perlin_noise_octaves,
        ),
    decreases us.len(),
{
    if us.len() > 0 {
        let prior = us.drop_last();
        lemma_updated_all_fields(s, prior);
        assert(us.map_values(|u: NoiseGeneratorSettingsUpdate| u.width_divider).drop_last()
            =~= prior.map_values(|u: NoiseGeneratorSettingsUpdate| u.width_divider));
        assert(us.map_values(|u: NoiseGeneratorSettingsUpdate| u.height_multiplier).drop_last()
            =~= prior.map_values(|u: NoiseGeneratorSettingsUpdate| u.height_multiplier));
        assert(us.map_values(|u: NoiseGeneratorSettingsUpdate| u.segment_width).drop_last()
            =~= prior.map_values(|u: NoiseGeneratorSettingsUpdate| u.segment_width));
        assert(us.map_values(|u: NoiseGeneratorSettingsUpdate| u.frame_time_divider).drop_last()
            =~= prior.map_values(|u: NoiseGeneratorSettingsUpdate| u.frame_time_divider));
        assert(us.map_values(|u: NoiseGeneratorSettingsUpdate| u.perlin_noise_octaves).drop_last()
            =~= prior.map_values(|u: NoiseGeneratorSettingsUpdate| u.perlin_noise_octaves));
    }
}

/// Merging a sequence of updates in arrival order leaves each field at the
/// last value that an update in the sequence gives it, or at its prior value
/// when none does.
pub proof fn lemma_merge_keeps_last_given(s: NoiseGeneratorSettings, us: Seq<NoiseGeneratorSettingsUpdate>)
    ensures
        last_given(
            us.map_values(|u: NoiseGeneratorSettingsUpdate| u.width_divider),
            s.width_divider,
            s.updated_all(us).width_divider,
        ),
        last_given(
            us.map_values(|u: NoiseGeneratorSettingsUpdate| u.height_multiplier),
            s.height_multiplier,
            s.updated_all(us).height_multiplier,
        ),
        last_given(
            us.map_values(|u: NoiseGeneratorSettingsUpdate| u.segment_width),
            s.segment_width,
            s.updated_all(us).segment_width,
        ),
        last_given(
            us.map_values(|u: NoiseGeneratorSettingsUpdate| u.frame_time_divider),
            s.frame_time_divider,
            s.updated_all(us).frame_time_divider,
        ),
        last_given(
            us.map_values(|u: NoiseGeneratorSettingsUpdate| u.perlin_noise_octaves),
            s.perlin_noise_octaves,
            s.updated_all(us).perlin_noise_octaves,
        ),
{
    lemma_updated_all_fields(s, us);
    lemma_override_all_is_last_given(
        us.map_values(|u: NoiseGeneratorSettingsUpdate| u.width_divider),
        s.width_divider,
    );
    lemma_override_all_is_last_given(
        us.map_values(|u: NoiseGeneratorSettingsUpdate| u.height_multiplier),
        s.height_multiplier,
    );
    lemma_override_all_is_last_given(
        us.map_values(|u: NoiseGeneratorSettingsUpdate| u.segment_width),
        s.segment_width,
    );
    lemma_override_all_is_last_given(
        us.map_values(|u: NoiseGeneratorSettingsUpdate| u.frame_time_divider),
        s.frame_time_divider,
    );
    lemma_override_all_is_last_given(
        us.map_values(|u: NoiseGeneratorSettingsUpdate| u.perlin_noise_octaves),
        s.perlin_noise_octaves,
    );
}

/// Merging one batch of updates and then another is merging both in order:
/// updates split across frames are each applied once, in arrival order, and
/// the octave counts are asked for in that order too.
pub proof fn lemma_merge_across_ticks(
    s: NoiseGeneratorSettings,
    first: Seq<NoiseGeneratorSettingsUpdate>,
    second: Seq<NoiseGeneratorSettingsUpdate>,
)
    ensures
        s.updated_all(first).updated_all(second) == s.updated_all(first + second),
        octave_requests(first) + octave_requests(second) == octave_requests(first + second),
    decreases second.len(),
{
    if second.len() == 0 {
        assert(first + second =~= first);
        assert(octave_requests(first) + octave_requests(second) =~= octave_requests(first));
    } else {
        lemma_merge_across_ticks(s, first, second.drop_last());
        assert((first + second).drop_last() =~= first + second.drop_last());
        assert((first + second).last() == second.last());
        if let Some(n) = second.last().perlin_noise_octaves {
            assert(octave_requests(first) + octave_requests(second)
                =~= (octave_requests(first) + octave_requests(second.drop_last())).push(n));
        }
    }
}

} // verus!
