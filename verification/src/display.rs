use vstd::prelude::*;

use crate::air_quality::{quality_of, AirQuality};
use crate::config::HISTORY_POINTS;
use crate::state::SensorPhase;

pub mod boot_animation;

verus! {

// ---------------------------------------------------------------------------
// History sparkline.
// ---------------------------------------------------------------------------

/// Lowest ppm of the sparkline's fixed scale (bottom row).
pub const PPM_MIN: i32 = 400;

/// Highest ppm of the sparkline's fixed scale (top row).
pub const PPM_MAX: i32 = 2000;

/// An axis-aligned rectangle on the panel: top-left corner and size in pixels.
#[derive(Debug, Clone, Copy, PartialEq, Eq, Structural)]
pub struct Area {
    pub x: i32,
    pub y: i32,
    pub width: u32,
    pub height: u32,
}

/// One bar of the history sparkline: a vertical line in column `x` from row
/// `top` down to row `bottom`.
#[derive(Debug, Clone, Copy, PartialEq, Eq, Structural)]
pub struct Bar {
    pub x: i32,
    pub top: i32,
    pub bottom: i32,
}

/// A pixel position on the panel.
#[derive(Debug, Clone, Copy, PartialEq, Eq, Structural)]
pub struct Pixel {
    pub x: i32,
    pub y: i32,
}

/// Left edge of the area inside the 1px outline.
pub open spec fn inner_x(a: Area) -> int {
    a.x + 1
}

/// Top edge of the area inside the 1px outline.
pub open spec fn inner_y(a: Area) -> int {
    a.y + 1
}

/// Width inside the 1px outline (the size is read as an `i32`, as the panel
/// coordinates are).
pub open spec fn inner_w(a: Area) -> int {
    (a.width as i32) - 2
}

/// Height inside the 1px outline.
pub open spec fn inner_h(a: Area) -> int {
    (a.height as i32) - 2
}

/// A reading limited to the sparkline's scale.
pub open spec fn clamp_ppm(p: u16) -> int {
    if p < PPM_MIN {
        PPM_MIN as int
    } else if p > PPM_MAX {
        PPM_MAX as int
    } else {
        p as int
    }
}

/// Column of the `i`-th of `len` points: the points are right-aligned on a
/// grid of `HISTORY_POINTS` evenly spaced columns spanning the inner width.
pub open spec fn column(a: Area, len: int, i: int) -> int {
    inner_x(a) + ((HISTORY_POINTS - len + i) * (inner_w(a) - 1)) / (HISTORY_POINTS - 1)
}

/// Row of a reading: `PPM_MIN` on the bottom inner row, `PPM_MAX` on the top
/// one, linear (rounded towards the bottom) in between.
pub open spec fn row(a: Area, p: u16) -> int {
    inner_y(a) + inner_h(a) - 1 - ((clamp_ppm(p) - PPM_MIN) * (inner_h(a) - 1)) / (PPM_MAX
        - PPM_MIN)
}

/// Bottom inner row of an area: where every bar of the sparkline starts.
pub open spec fn bottom_row(a: Area) -> int {
    inner_y(a) + inner_h(a) - 1
}

/// The bars of the sparkline for `points` (oldest first): one vertical bar per
/// point, in the point's column, from the point's row down to the bottom inner
/// row; nothing when there is no point or no room inside the outline.
pub open spec fn sparkline(points: Seq<u16>, a: Area) -> Seq<Bar> {
    if points.len() == 0 || inner_w(a) <= 0 || inner_h(a) <= 0 {
        Seq::empty()
    } else {
        Seq::new(
            points.len(),
            |i: int|
                Bar {
                    x: column(a, points.len() as int, i) as i32,
                    top: row(a, points[i]) as i32,
                    bottom: bottom_row(a) as i32,
                },
        )
    }
}

/// The panel coordinates of the sparkline stay within `i32` (otherwise the
/// arithmetic that places its bars would overflow).
pub open spec fn sparkline_fits(len: int, a: Area) -> bool {
    len > 0 ==> {
        &&& a.x < i32::MAX
        &&& a.y < i32::MAX
        &&& (a.width as i32) >= i32::MIN + 2
        &&& (a.height as i32) >= i32::MIN + 2
        &&& (inner_w(a) > 0 && inner_h(a) > 0) ==> {
            &&& (HISTORY_POINTS - 1) * (inner_w(a) - 1) <= i32::MAX
            &&& (PPM_MAX - PPM_MIN) * (inner_h(a) - 1) <= i32::MAX
            &&& a.x + inner_w(a) <= i32::MAX
            &&& a.y + 1 + inner_h(a) <= i32::MAX
        }
    }
}

proof fn lemma_column_bounds(a: Area, len: int, i: int)
    requires
        0 <= i < len <= HISTORY_POINTS,
        inner_w(a) > 0,
    ensures
        inner_x(a) <= column(a, len, i) <= inner_x(a) + inner_w(a) - 1,
        0 <= (HISTORY_POINTS - len + i) * (inner_w(a) - 1) <= (HISTORY_POINTS - 1) * (
        inner_w(a) - 1),
{
    let k = HISTORY_POINTS - len + i;
    let w = inner_w(a) - 1;
    assert(0 <= k * w <= 59 * w) by (nonlinear_arith)
        requires
            0 <= k <= 59,
            w >= 0,
    ;
    assert(0 <= (k * w) / 59 <= w) by (nonlinear_arith)
        requires
            0 <= k * w <= 59 * w,
            w >= 0,
    ;
}

proof fn lemma_row_bounds(a: Area, p: u16)
    requires
        inner_h(a) > 0,
    ensures
        inner_y(a) <= row(a, p) <= inner_y(a) + inner_h(a) - 1,
        0 <= (clamp_ppm(p) - PPM_MIN) * (inner_h(a) - 1) <= (PPM_MAX - PPM_MIN) * (inner_h(a)
            - 1),
{
    let c = clamp_ppm(p) - PPM_MIN;
    let h = inner_h(a) - 1;
    assert(0 <= c * h <= 1600 * h) by (nonlinear_arith)
        requires
            0 <= c <= 1600,
            h >= 0,
    ;
    assert(0 <= (c * h) / 1600 <= h) by (nonlinear_arith)
        requires
            0 <= c * h <= 1600 * h,
            h >= 0,
    ;
}

/// Places the retained points (oldest first) as the bars of the history
/// sparkline inside `area`: one vertical bar per point, right-aligned on a grid
/// of `HISTORY_POINTS` columns, its height scaled over the fixed
/// `PPM_MIN..=PPM_MAX` range. The caller draws the 1px outline of `area` and a
/// 1px vertical line for each bar.
pub fn sparkline_bars(points: &Vec<u16>, area: Area) -> (v: Vec<Bar>)
    requires
        points.len() <= HISTORY_POINTS,
        sparkline_fits(points.len() as int, area),
    ensures
        v@ == sparkline(points@, area),
{
    let len = points.len() as i32;
    let mut out: Vec<Bar> = Vec::new();
    if len == 0 {
        return out;
    }
    let full_len = HISTORY_POINTS as i32;
    let ix = area.x + 1;
    let iy = area.y + 1;
    let iw = #[verifier::truncate] (area.width as i32) - 2;
    let ih = #[verifier::truncate] (area.height as i32) - 2;
    if iw <= 0 || ih <= 0 {
        return out;
    }
    let start = full_len - len;
    let mut i: usize = 0;
    while i < points.len()
        invariant
            len == points.len(),
            0 < len <= HISTORY_POINTS,
            full_len == HISTORY_POINTS,
            start == HISTORY_POINTS - len,
            ix == inner_x(area),
            iy == inner_y(area),
            iw == inner_w(area),
            ih == inner_h(area),
            iw > 0,
            ih > 0,
            sparkline_fits(len as int, area),
            i <= points.len(),
            out@.len() == i,
            forall|j: int|
                0 <= j < i ==> #[trigger] out@[j] == (Bar {
                    x: column(area, len as int, j) as i32,
                    top: row(area, points@[j]) as i32,
                    bottom: bottom_row(area) as i32,
                }),
        decreases points.len() - i,
    {
        proof {
            lemma_column_bounds(area, len as int, i as int);
            lemma_row_bounds(area, points@[i as int]);
        }
        let x_index = start + i as i32;
        let x = ix + (x_index * (iw - 1)) / (full_len - 1);
        let p = points[i];
        let clamped: i32 = if (p as i32) < PPM_MIN {
            PPM_MIN
        } else if (p as i32) > PPM_MAX {
            PPM_MAX
        } else {
            p as i32
        };
        let y_offset = ((clamped - PPM_MIN) * (ih - 1)) / (PPM_MAX - PPM_MIN);
        let bottom = iy + ih - 1;
        let top = bottom - y_offset;
        out.push(Bar { x, top, bottom });
        i = i + 1;
    }
    proof {
        assert(out@ =~= sparkline(points@, area));
    }
    out
}

/// Every bar of the sparkline lies inside the outline of its area, and runs
/// from its top row down to the bottom inner row.
pub proof fn lemma_sparkline_inside(points: Seq<u16>, a: Area, i: int)
    requires
        points.len() <= HISTORY_POINTS,
        sparkline_fits(points.len() as int, a),
        0 <= i < sparkline(points, a).len(),
    ensures
        inner_x(a) <= sparkline(points, a)[i].x <= inner_x(a) + inner_w(a) - 1,
        inner_y(a) <= sparkline(points, a)[i].top <= sparkline(points, a)[i].bottom,
        sparkline(points, a)[i].bottom == bottom_row(a),
{
    lemma_column_bounds(a, points.len() as int, i);
    lemma_row_bounds(a, points[i]);
}

/// The sparkline reads left to right, oldest to newest: its columns never go
/// back, and the newest point sits in the rightmost inner column, however few
/// points are retained.
pub proof fn lemma_sparkline_right_aligned(points: Seq<u16>, a: Area, i: int, j: int)
    requires
        points.len() <= HISTORY_POINTS,
        sparkline_fits(points.len() as int, a),
        0 <= i <= j < sparkline(points, a).len(),
    ensures
        sparkline(points, a)[i].x <= sparkline(points, a)[j].x,
        sparkline(points, a)[points.len() - 1].x == inner_x(a) + inner_w(a) - 1,
{
    let len = points.len() as int;
    lemma_column_bounds(a, len, i);
    lemma_column_bounds(a, len, j);
    lemma_column_bounds(a, len, len - 1);
    let w = inner_w(a) - 1;
    let ki = HISTORY_POINTS - len + i;
    let kj = HISTORY_POINTS - len + j;
    assert((ki * w) / 59 <= (kj * w) / 59) by (nonlinear_arith)
        requires
            0 <= ki <= kj,
            w >= 0,
    ;
    assert((59 * w) / 59 == w) by (nonlinear_arith);
}

/// More CO2 never draws a shorter bar: the top row goes up (smaller y) as the
/// reading grows; readings at or below `PPM_MIN` reach only the bottom inner
/// row (a one-pixel bar) and readings at or above `PPM_MAX` the top one (a
/// full-height bar).
pub proof fn lemma_row_monotone(a: Area, p: u16, q: u16)
    requires
        inner_h(a) > 0,
        p <= q,
    ensures
        row(a, q) <= row(a, p),
        p <= PPM_MIN ==> row(a, p) == inner_y(a) + inner_h(a) - 1,
        q >= PPM_MAX ==> row(a, q) == inner_y(a),
{
    let h = inner_h(a) - 1;
    let cp = clamp_ppm(p) - PPM_MIN;
    let cq = clamp_ppm(q) - PPM_MIN;
    assert((cp * h) / 1600 <= (cq * h) / 1600) by (nonlinear_arith)
        requires
            0 <= cp <= cq,
            h >= 0,
    ;
    assert((1600 * h) / 1600 == h) by (nonlinear_arith);
    assert((0 * h) / 1600 == 0) by (nonlinear_arith);
}

// ---------------------------------------------------------------------------
// Measurement screen.
// ---------------------------------------------------------------------------

/// Inset (px) of the content from the panel's edges.
pub const MARGIN: i32 = 6;

/// Glyph width (px) of the large font of the CO2 value.
pub const BIG_W: i32 = 10;

/// Gap (px) between the CO2 value and its unit.
pub const UNIT_GAP: i32 = 8;

/// Width (px) of the "ppm" unit: three glyphs of the 6x10 font.
pub const UNIT_W: i32 = 18;

/// Panel width (px).
pub const PANEL_W: i32 = 128;

/// Baseline (px) of the CO2 value.
pub const VALUE_BOTTOM: i32 = 31;

/// The decimal digits (ASCII) of `n`, most significant first, without leading
/// zeros.
pub open spec fn decimal(n: nat) -> Seq<u8>
    decreases n,
{
    if n < 10 {
        seq![(48 + n) as u8]
    } else {
        decimal(n / 10).push((48 + n % 10) as u8)
    }
}

/// The number that a string of ASCII decimal digits spells.
pub open spec fn decimal_value(s: Seq<u8>) -> int
    decreases s.len(),
{
    if s.len() == 0 {
        0
    } else {
        decimal_value(s.drop_last()) * 10 + (s.last() - 48)
    }
}

/// Writes `n` in decimal, as `{}` formats an integer.
pub fn decimal_digits(n: u16) -> (v: Vec<u8>)
    ensures
        v@ == decimal(n as nat),
    decreases n,
{
    if n < 10 {
        let mut v: Vec<u8> = Vec::new();
        v.push(48 + n as u8);
        v
    } else {
        let mut v = decimal_digits(n / 10);
        v.push(48 + (n % 10) as u8);
        v
    }
}

/// What the measurement screen shows besides the fixed labels, the
/// temperature and the humidity.
pub struct MeasurementScreen {
    /// Air-quality bucket of the reading.
    pub quality: AirQuality,
    /// Colors swapped: the panel is filled and everything is drawn unlit.
    pub inverted: bool,
    /// A 2px border around the panel, in the foreground color.
    pub border: bool,
    /// The CO2 value, in decimal (ASCII).
    pub value: Vec<u8>,
    /// Left edge of the "ppm" unit, just right of the value.
    pub unit_x: i32,
    /// Area of the outlined history sparkline, in the upper right.
    pub graph: Area,
}

/// Digits the layout makes room for: four, or the value's own count when it
/// has more.
pub open spec fn reserved_digits(digits: int) -> int {
    if digits > 4 {
        digits
    } else {
        4
    }
}

/// Area of the history sparkline: right of room for the value (at least four
/// digits) and a two-large-glyph unit, filling the upper right down to the
/// value's baseline.
pub open spec fn graph_area(digits: int) -> Area {
    let gx = MARGIN + (reserved_digits(digits) + 2) * BIG_W + 4;
    Area {
        x: gx as i32,
        y: MARGIN,
        width: (PANEL_W - MARGIN - gx) as u32,
        height: (VALUE_BOTTOM - MARGIN) as u32,
    }
}

/// Lays out the measurement screen for a CO2 reading (ppm). The reading drives
/// a glanceable air-quality cue: a border when ventilation is recommended, and
/// a border plus inverted colors when air quality is poor.
pub fn measurement_screen(co2: u16) -> (s: MeasurementScreen)
    ensures
        s.quality == quality_of(co2 as int),
        s.inverted == (s.quality == AirQuality::Poor),
        s.border == (s.quality != AirQuality::Good),
        s.value@ == decimal(co2 as nat),
        s.unit_x == s.value@.len() * BIG_W + UNIT_GAP,
        s.graph == graph_area(s.value@.len() as int),
        MARGIN + s.value@.len() * BIG_W <= s.unit_x,
        s.unit_x + UNIT_W <= s.graph.x,
        forall|n: int| #[trigger] sparkline_fits(n, s.graph),
{
    let quality = AirQuality::from_co2(co2);
    let inverted = match quality {
        AirQuality::Poor => true,
        AirQuality::Good | AirQuality::Ventilate => false,
    };
    let border = match quality {
        AirQuality::Ventilate | AirQuality::Poor => true,
        AirQuality::Good => false,
    };
    let value = decimal_digits(co2);
    proof {
        lemma_decimal_len(co2 as nat);
    }
    let unit_x = value.len() as i32 * BIG_W + UNIT_GAP;
    let reserved: i32 = if value.len() > 4 {
        value.len() as i32
    } else {
        4
    };
    let gx = MARGIN + (reserved + 2) * BIG_W + 4;
    let graph = Area {
        x: gx,
        y: MARGIN,
        width: (PANEL_W - MARGIN - gx) as u32,
        height: (VALUE_BOTTOM - MARGIN) as u32,
    };
    MeasurementScreen { quality, inverted, border, value, unit_x, graph }
}

/// A number below 10^k has at most k digits, and always at least one.
pub proof fn lemma_decimal_len(n: nat)
    ensures
        1 <= decimal(n).len(),
        n < 10 ==> decimal(n).len() == 1,
        n < 100 ==> decimal(n).len() <= 2,
        n < 1000 ==> decimal(n).len() <= 3,
        n < 10000 ==> decimal(n).len() <= 4,
        n < 100000 ==> decimal(n).len() <= 5,
    decreases n,
{
    if n >= 10 {
        lemma_decimal_len(n / 10);
    }
}

/// Reading the digits back gives the number: `decimal` writes `n` exactly, in
/// ASCII digits only.
pub proof fn lemma_decimal_round_trip(n: nat)
    ensures
        decimal_value(decimal(n)) == n,
        forall|i: int| 0 <= i < decimal(n).len() ==> 48 <= #[trigger] decimal(n)[i] <= 57,
    decreases n,
{
    if n >= 10 {
        lemma_decimal_round_trip(n / 10);
        assert(decimal(n).drop_last() =~= decimal(n / 10));
        assert(decimal(n).last() == 48 + n % 10);
        assert(n == (n / 10) * 10 + n % 10);
        assert(decimal_value(decimal(n)) == decimal_value(decimal(n / 10)) * 10 + (n % 10));
    } else {
        assert(decimal(n).drop_last() =~= Seq::<u8>::empty());
        assert(decimal_value(decimal(n)) == decimal_value(Seq::<u8>::empty()) * 10 + n);
    }
}

// ---------------------------------------------------------------------------
// Start-up screens.
// ---------------------------------------------------------------------------

/// Status line under the boot spinner.
#[derive(Debug, Clone, Copy, PartialEq, Eq, Structural)]
pub enum BootStatus {
    Booting,
    StartingSensor,
    WarmingUp,
}

/// What the display task does in a start-up phase.
#[derive(Debug, Clone, Copy, PartialEq, Eq, Structural)]
pub enum BootScreen {
    /// Draw the boot animation with this status line.
    Spinner(BootStatus),
    /// Show the sensor settings read back for the self test.
    SelfTest,
    /// Leave the start-up screens for the measurement screen.
    Measurements,
    /// Draw nothing new.
    Unchanged,
}

/// The start-up screen for each sensor phase.
pub open spec fn boot_screen_spec(phase: SensorPhase) -> BootScreen {
    match phase {
        SensorPhase::Booting => BootScreen::Spinner(BootStatus::Booting),
        SensorPhase::SensorInit => BootScreen::Spinner(BootStatus::StartingSensor),
        SensorPhase::SelfTest => BootScreen::SelfTest,
        SensorPhase::WarmingUp => BootScreen::Spinner(BootStatus::WarmingUp),
        SensorPhase::Data => BootScreen::Measurements,
        SensorPhase::Error => BootScreen::Unchanged,
    }
}

/// Chooses what the display task shows while the sensor starts up.
pub fn boot_screen(phase: SensorPhase) -> (s: BootScreen)
    ensures
        s == boot_screen_spec(phase),
{
    match phase {
        SensorPhase::Booting => BootScreen::Spinner(BootStatus::Booting),
        SensorPhase::SensorInit => BootScreen::Spinner(BootStatus::StartingSensor),
        SensorPhase::SelfTest => BootScreen::SelfTest,
        SensorPhase::WarmingUp => BootScreen::Spinner(BootStatus::WarmingUp),
        SensorPhase::Data => BootScreen::Measurements,
        SensorPhase::Error => BootScreen::Unchanged,
    }
}

/// The status line's text.
pub open spec fn status_text_spec(s: BootStatus) -> Seq<char> {
    match s {
        BootStatus::Booting => "booting"@,
        BootStatus::StartingSensor => "starting sensor"@,
        BootStatus::WarmingUp => "warmup"@,
    }
}

/// The text of a status line under the boot spinner.
pub fn status_text(s: BootStatus) -> (t: &'static str)
    ensures
        t@ == status_text_spec(s),
{
    match s {
        BootStatus::Booting => "booting",
        BootStatus::StartingSensor => "starting sensor",
        BootStatus::WarmingUp => "warmup",
    }
}

/// How the self-test screen shows the automatic self-calibration setting.
pub fn calibration_text(enabled: bool) -> (t: &'static str)
    ensures
        t@ == (if enabled {
            "on"@
        } else {
            "off"@
        }),
{
    if enabled {
        "on"
    } else {
        "off"
    }
}

} // verus!
