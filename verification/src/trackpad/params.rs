//! Panel dimensions and tuning parameters.
use crate::math;
use crate::time::Duration;
use vstd::prelude::*;

verus! {

/// Panel parameters. The same values stand in the HID descriptor and clamp the
/// coordinates that are reported, so the host never rescales.
///
/// The logical maxima are the chip's coordinate range; the physical extents
/// let hosts compute the density of the panel.
#[derive(Clone, Copy, Debug, PartialEq, Eq, Structural)]
pub struct TrackpadDimensions {
    pub logical_max_x: u16,
    pub logical_max_y: u16,
    /// Panel width in tenths of a millimetre.
    pub physical_dmm_x: u16,
    /// Panel height in tenths of a millimetre.
    pub physical_dmm_y: u16,
}

/// Whole chip units per millimetre of an axis that spans `logical_max` chip
/// units over `physical_dmm` tenths of a millimetre; zero for an axis without
/// physical extent.
pub open spec fn cu_per_mm(logical_max: u16, physical_dmm: u16) -> int {
    if physical_dmm == 0 {
        0
    } else {
        logical_max * 10 / physical_dmm as int
    }
}

/// The dimensions of a panel with its extent in whole millimetres.
pub open spec fn mm_dimensions(
    logical_max_x: u16,
    logical_max_y: u16,
    mm_x: u16,
    mm_y: u16,
) -> TrackpadDimensions {
    TrackpadDimensions {
        logical_max_x,
        logical_max_y,
        physical_dmm_x: math::lesser(mm_x * 10, u16::MAX as int) as u16,
        physical_dmm_y: math::lesser(mm_y * 10, u16::MAX as int) as u16,
    }
}

/// Ten times `mm`, or the greatest `u16` where that does not fit.
fn tenths(mm: u16) -> (dmm: u16)
    ensures
        dmm == math::lesser(mm * 10, u16::MAX as int),
{
    if mm > u16::MAX / 10 {
        u16::MAX
    } else {
        mm * 10
    }
}

/// The body of [`TrackpadDimensions::cu_per_mm_x`] and its sibling.
fn chip_units_per_mm(logical_max: u16, physical_dmm: u16) -> (units: u32)
    ensures
        units == cu_per_mm(logical_max, physical_dmm),
{
    if physical_dmm == 0 {
        0
    } else {
        (logical_max as u32 * 10) / physical_dmm as u32
    }
}

impl TrackpadDimensions {
    /// Dimensions with the physical extent given in whole millimetres.
    /// Extents beyond the field saturate.
    pub fn from_mm(logical_max_x: u16, logical_max_y: u16, mm_x: u16, mm_y: u16) -> (dims: Self)
        ensures
            dims == mm_dimensions(logical_max_x, logical_max_y, mm_x, mm_y),
            dims.logical_max_x == logical_max_x,
            dims.logical_max_y == logical_max_y,
            dims.physical_dmm_x == math::lesser(mm_x * 10, u16::MAX as int),
            dims.physical_dmm_y == math::lesser(mm_y * 10, u16::MAX as int),
    {
        Self {
            logical_max_x,
            logical_max_y,
            physical_dmm_x: tenths(mm_x),
            physical_dmm_y: tenths(mm_y),
        }
    }

    /// Chip units per millimetre along X. Zero on a panel without width, which
    /// turns off what depends on it.
    pub fn cu_per_mm_x(self) -> (units: u32)
        ensures
            units == cu_per_mm(self.logical_max_x, self.physical_dmm_x),
    {
        chip_units_per_mm(self.logical_max_x, self.physical_dmm_x)
    }

    /// Chip units per millimetre along Y. Zero on a panel without height.
    pub fn cu_per_mm_y(self) -> (units: u32)
        ensures
            units == cu_per_mm(self.logical_max_y, self.physical_dmm_y),
    {
        chip_units_per_mm(self.logical_max_y, self.physical_dmm_y)
    }
}

/// Tunable parameters of a trackpad. Everything that a report needs is computed
/// here once, so that each frame costs a multiply, a shift and a compare.
#[derive(Clone, Copy, Debug)]
pub struct TrackpadParams {
    pub dims: TrackpadDimensions,
    /// Squared tap-deviation budget, in square chip units.
    pub tap_max_dev_chip_sq: u32,
    /// Longest touch that still counts as a tap.
    pub tap_time: Duration,
    /// Shortest stationary one-finger touch that latches button 1.
    pub hold_time: Duration,
    /// Cursor scale on each axis: `(chip units * num) >> shift`.
    pub scale_num_x: u16,
    pub scale_num_y: u16,
    /// Right shift shared by both axes.
    pub scale_shift: u8,
}

/// The tap budget of `mm` millimetres in chip units, capped at the range of a
/// coordinate.
pub open spec fn tap_budget(dims: TrackpadDimensions, mm: u16) -> int {
    math::lesser(cu_per_mm(dims.logical_max_x, dims.physical_dmm_x) * mm, u16::MAX as int)
}

/// The parameters of a panel with budget and times in millimetres and milliseconds.
pub open spec fn mm_params(
    dims: TrackpadDimensions,
    tap_max_dev_mm: u16,
    tap_time_ms: u16,
    hold_time_ms: u16,
    scale: (u16, u16, u8),
) -> TrackpadParams {
    let budget = tap_budget(dims, tap_max_dev_mm);
    TrackpadParams {
        dims,
        tap_max_dev_chip_sq: (budget * budget) as u32,
        tap_time: Duration { ticks: (tap_time_ms * 1000) as u64 },
        hold_time: Duration { ticks: (hold_time_ms * 1000) as u64 },
        scale_num_x: scale.0,
        scale_num_y: scale.1,
        scale_shift: scale.2,
    }
}

impl TrackpadParams {
    /// Parameters for a panel: a tap budget in millimetres, the tap and hold
    /// times in milliseconds, and the cursor scale as numerators for X and Y
    /// with their shared shift.
    pub fn from_mm(
        dims: TrackpadDimensions,
        tap_max_dev_mm: u16,
        tap_time_ms: u16,
        hold_time_ms: u16,
        scale: (u16, u16, u8),
    ) -> (params: Self)
        requires
            cu_per_mm(dims.logical_max_x, dims.physical_dmm_x) * tap_max_dev_mm <= u32::MAX,
        ensures
            params == mm_params(dims, tap_max_dev_mm, tap_time_ms, hold_time_ms, scale),
            params.dims == dims,
            params.tap_max_dev_chip_sq == tap_budget(dims, tap_max_dev_mm) * tap_budget(
                dims,
                tap_max_dev_mm,
            ),
            params.tap_time.ticks == tap_time_ms * 1000,
            params.hold_time.ticks == hold_time_ms * 1000,
            (params.scale_num_x, params.scale_num_y, params.scale_shift) == scale,
    {
        let in_chip_units: u32 = dims.cu_per_mm_x() * tap_max_dev_mm as u32;
        let budget: u32 = if in_chip_units > u16::MAX as u32 {
            u16::MAX as u32
        } else {
            in_chip_units
        };
        assert(0 <= cu_per_mm(dims.logical_max_x, dims.physical_dmm_x) * tap_max_dev_mm)
            by (nonlinear_arith)
            requires
                0 <= cu_per_mm(dims.logical_max_x, dims.physical_dmm_x),
                0 <= tap_max_dev_mm,
        ;
        assert(budget * budget <= u32::MAX) by (nonlinear_arith)
            requires
                budget <= 65535,
        ;
        Self {
            dims,
            tap_max_dev_chip_sq: budget * budget,
            tap_time: Duration::from_millis(tap_time_ms as u64),
            hold_time: Duration::from_millis(hold_time_ms as u64),
            scale_num_x: scale.0,
            scale_num_y: scale.1,
            scale_shift: scale.2,
        }
    }
}

/// A panel keeps its coordinate range, and its extent in tenths of a millimetre is
/// ten times that in millimetres, as far as the field reaches.
pub proof fn dimensions_keep_their_axes(max_x: u16, max_y: u16, mm_x: u16, mm_y: u16)
    ensures
        ({
            let dims = mm_dimensions(max_x, max_y, mm_x, mm_y);
            &&& dims.logical_max_x == max_x && dims.logical_max_y == max_y
            &&& dims.physical_dmm_x == 10 * mm_x || mm_x > 6553 && dims.physical_dmm_x == 65535
            &&& dims.physical_dmm_y == 10 * mm_y || mm_y > 6553 && dims.physical_dmm_y == 65535
        }),
{
}

/// Chip units per millimetre fill the axis: that many for each millimetre are no
/// more than the coordinate range, and one more for each would be more. An axis
/// without extent has none.
pub proof fn chip_units_fill_the_axis(logical_max: u16, physical_dmm: u16)
    ensures
        physical_dmm == 0 ==> cu_per_mm(logical_max, physical_dmm) == 0,
        physical_dmm > 0 ==> {
            let units = cu_per_mm(logical_max, physical_dmm);
            units * physical_dmm <= 10 * logical_max < (units + 1) * physical_dmm
        },
{
    if physical_dmm > 0 {
        let v = logical_max * 10;
        let p = physical_dmm as int;
        let q = v / p;
        assert(q * p <= v < (q + 1) * p) by (nonlinear_arith)
            requires
                p > 0,
                q == v / p,
        ;
    }
}

/// Tap time, hold time and scale are those that were asked for, a millisecond being
/// a thousand ticks; the tap budget is the square of the millimetres in chip units
/// along X, as far as a coordinate reaches.
pub proof fn parameters_keep_their_places(
    dims: TrackpadDimensions,
    tap_max_dev_mm: u16,
    tap_time_ms: u16,
    hold_time_ms: u16,
    scale: (u16, u16, u8),
)
    requires
        cu_per_mm(dims.logical_max_x, dims.physical_dmm_x) * tap_max_dev_mm <= 65535,
    ensures
        ({
            let params = mm_params(dims, tap_max_dev_mm, tap_time_ms, hold_time_ms, scale);
            let reach = cu_per_mm(dims.logical_max_x, dims.physical_dmm_x) * tap_max_dev_mm;
            &&& params.dims == dims
            &&& params.tap_max_dev_chip_sq == reach * reach
            &&& params.tap_time.ticks == 1000 * tap_time_ms
            &&& params.hold_time.ticks == 1000 * hold_time_ms
            &&& params.scale_num_x == scale.0
            &&& params.scale_num_y == scale.1
            &&& params.scale_shift == scale.2
        }),
{
    let units = cu_per_mm(dims.logical_max_x, dims.physical_dmm_x);
    chip_units_fill_the_axis(dims.logical_max_x, dims.physical_dmm_x);
    let reach = units * tap_max_dev_mm;
    assert(units >= 0);
    assert(0 <= reach) by (nonlinear_arith)
        requires
            units >= 0,
            reach == units * tap_max_dev_mm,
    ;
    assert(0 <= reach * reach <= 0xFFFF_FFFF) by (nonlinear_arith)
        requires
            0 <= reach <= 65535,
    ;
}

/// A budget beyond the reach of a coordinate is cut off there.
pub proof fn great_budgets_are_cut_off(dims: TrackpadDimensions, mm: u16)
    requires
        cu_per_mm(dims.logical_max_x, dims.physical_dmm_x) * mm > 65535,
    ensures
        tap_budget(dims, mm) == 65535,
{
}

} // verus!
