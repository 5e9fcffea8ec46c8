//! Configuration checks, and the frame schedule of a run.
//!
//! The checks only compare real-valued settings, so each such setting arrives
//! as an order key: an integer that orders as the value does, zero for zero,
//! or `None` for a value that is not finite.
use vstd::prelude::*;

verus! {

/// A configuration that the engine refuses; every one ends a run.
#[derive(Clone, Copy, Debug, PartialEq, Eq, Structural)]
pub enum ConfigError {
    NonPositiveTimestep,
    AngleOutOfRange,
    NonPositiveRayCount,
    NonPositiveIntensity,
    NonPositiveFrequency,
    UnorderedRange,
    NonPositiveCellSize,
    NonPositiveFrameCount,
    TooManyFrames,
    NoSources,
}

/// Checks the ray count of a source; on success the count as a `usize`.
pub fn validate_ray_count(number_of_rays: i32) -> (r: Result<usize, ConfigError>)
    ensures
        number_of_rays > 0 <==> r is Ok,
        r is Ok ==> r->Ok_0 == number_of_rays,
        r is Err ==> r->Err_0 == ConfigError::NonPositiveRayCount,
{
    if number_of_rays <= 0 {
        Err(ConfigError::NonPositiveRayCount)
    } else {
        Ok(number_of_rays as usize)
    }
}

/// A quantity given as an order key is finite and positive.
pub open spec fn positive(key: Option<i64>) -> bool {
    key is Some && key->Some_0 > 0
}

/// Two quantities given as order keys are finite and strictly increasing.
pub open spec fn increasing(low: Option<i64>, high: Option<i64>) -> bool {
    low is Some && high is Some && low->Some_0 < high->Some_0
}

fn is_positive(key: Option<i64>) -> (r: bool)
    ensures
        r == positive(key),
{
    match key {
        Some(k) => k > 0,
        None => false,
    }
}

fn is_increasing(low: Option<i64>, high: Option<i64>) -> (r: bool)
    ensures
        r == increasing(low, high),
{
    match (low, high) {
        (Some(l), Some(h)) => l < h,
        _ => false,
    }
}

/// Checks a source before anything is built from it: its ray count, then its
/// intensity, then its frequency (the last two as order keys). On success the
/// ray count as a `usize`.
pub fn validate_source(number_of_rays: i32, intensity: Option<i64>, frequency: Option<i64>) -> (r:
    Result<usize, ConfigError>)
    ensures
        number_of_rays <= 0 ==> r == Err::<usize, ConfigError>(ConfigError::NonPositiveRayCount),
        number_of_rays > 0 && !positive(intensity) ==> r == Err::<usize, ConfigError>(
            ConfigError::NonPositiveIntensity,
        ),
        number_of_rays > 0 && positive(intensity) && !positive(frequency) ==> r == Err::<
            usize,
            ConfigError,
        >(ConfigError::NonPositiveFrequency),
        number_of_rays > 0 && positive(intensity) && positive(frequency) ==> r == Ok::<
            usize,
            ConfigError,
        >(number_of_rays as usize),
{
    let n = validate_ray_count(number_of_rays)?;
    if !is_positive(intensity) {
        return Err(ConfigError::NonPositiveIntensity);
    }
    if !is_positive(frequency) {
        return Err(ConfigError::NonPositiveFrequency);
    }
    Ok(n)
}

/// A quantity given as an order key is finite and lies within [`low`, `high`].
pub open spec fn within(a: Option<i64>, low: i64, high: i64) -> bool {
    a is Some && low <= a->Some_0 <= high
}

/// Checks that both ends of a source's angle range lie within [`low`, `high`]
/// (the order keys of -pi and pi); all values as order keys.
pub fn validate_angles(start: Option<i64>, end: Option<i64>, low: i64, high: i64) -> (r: Result<
    (),
    ConfigError,
>)
    ensures
        within(start, low, high) && within(end, low, high) <==> r is Ok,
        r is Err ==> r->Err_0 == ConfigError::AngleOutOfRange,
{
    let start_ok = match start {
        Some(a) => low <= a && a <= high,
        None => false,
    };
    let end_ok = match end {
        Some(a) => low <= a && a <= high,
        None => false,
    };
    if start_ok && end_ok {
        Ok(())
    } else {
        Err(ConfigError::AngleOutOfRange)
    }
}

/// Checks the grid: a positive cell size, then strictly ordered x and y
/// ranges (all as order keys).
pub fn validate_grid(
    square_size: Option<i64>,
    x_min: Option<i64>,
    x_max: Option<i64>,
    y_min: Option<i64>,
    y_max: Option<i64>,
) -> (r: Result<(), ConfigError>)
    ensures
        !positive(square_size) ==> r == Err::<(), ConfigError>(ConfigError::NonPositiveCellSize),
        positive(square_size) && !(increasing(x_min, x_max) && increasing(y_min, y_max)) ==> r
            == Err::<(), ConfigError>(ConfigError::UnorderedRange),
        positive(square_size) && increasing(x_min, x_max) && increasing(y_min, y_max) ==> r is Ok,
{
    if !is_positive(square_size) {
        Err(ConfigError::NonPositiveCellSize)
    } else if !is_increasing(x_min, x_max) || !is_increasing(y_min, y_max) {
        Err(ConfigError::UnorderedRange)
    } else {
        Ok(())
    }
}

/// Checks the time step (as an order key).
pub fn validate_timestep(dt: Option<i64>) -> (r: Result<(), ConfigError>)
    ensures
        positive(dt) <==> r is Ok,
        r is Err ==> r->Err_0 == ConfigError::NonPositiveTimestep,
{
    if is_positive(dt) {
        Ok(())
    } else {
        Err(ConfigError::NonPositiveTimestep)
    }
}

/// A run needs at least one source.
pub fn validate_source_count(number_of_sources: usize) -> (r: Result<(), ConfigError>)
    ensures
        number_of_sources > 0 <==> r is Ok,
        r is Err ==> r->Err_0 == ConfigError::NoSources,
{
    if number_of_sources == 0 {
        Err(ConfigError::NoSources)
    } else {
        Ok(())
    }
}

/// What the time loop does at one step.
#[derive(Clone, Copy, Debug, PartialEq, Eq, Structural)]
pub struct StepAction {
    /// Whether the rays are advanced by one time step (every step but the first).
    pub advance: bool,
    /// The index of the frame recorded at this step, if one is.
    pub frame: Option<u32>,
}

/// The schedule of a run: `steps` time steps, a frame every `spacing` steps.
#[derive(Clone, Copy, Debug, PartialEq, Eq, Structural)]
pub struct FramePlan {
    pub steps: u32,
    pub spacing: u32,
}

impl FramePlan {
    pub open spec fn wf(self) -> bool {
        0 < self.spacing <= self.steps
    }

    /// Plans `frames` frames over `steps` time steps (the whole part of
    /// duration / dt): one frame every `steps / frames` steps.
    pub fn new(steps: i32, frames: i32) -> (r: Result<FramePlan, ConfigError>)
        ensures
            frames <= 0 ==> r == Err::<FramePlan, ConfigError>(ConfigError::NonPositiveFrameCount),
            0 < frames && steps < frames ==> r == Err::<FramePlan, ConfigError>(ConfigError::TooManyFrames),
            0 < frames <= steps ==> r is Ok,
            r is Ok ==> ({
                let p = r->Ok_0;
                &&& p.wf()
                &&& p.steps == steps
                &&& p.spacing == steps / frames
            }),
    {
        if frames <= 0 {
            Err(ConfigError::NonPositiveFrameCount)
        } else if steps < frames {
            Err(ConfigError::TooManyFrames)
        } else {
            let s = steps as u32;
            let f = frames as u32;
            assert(s / f >= 1) by (nonlinear_arith)
                requires
                    0 < f <= s,
            ;
            assert(s / f <= s) by (nonlinear_arith)
                requires
                    0 < f <= s,
            ;
            Ok(FramePlan { steps: s, spacing: s / f })
        }
    }

    pub open spec fn spec_step_action(self, step: u32) -> StepAction {
        StepAction {
            advance: step != 0,
            frame: if step % self.spacing == 0 {
                Some((step / self.spacing) as u32)
            } else {
                None
            },
        }
    }

    /// The action at time step `step`: every step but the first advances the
    /// rays, and every `spacing`-th step records a frame.
    pub fn step_action(&self, step: u32) -> (r: StepAction)
        requires
            self.wf(),
            step < self.steps,
        ensures
            r == self.spec_step_action(step),
    {
        let frame = if step % self.spacing == 0 {
            Some(step / self.spacing)
        } else {
            None
        };
        StepAction { advance: step != 0, frame }
    }
}

} // verus!
