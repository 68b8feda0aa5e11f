//! The render cache and the chart description it produces.
//!
//! A chart is described entirely by plain data: the windowed points, the
//! axis domains and the theme's palette. The drawing backend outside the
//! library turns a [`ChartImage`] into pixels; this module only decides
//! *what* is drawn and *when* a previous result may be reused.

use crate::range::RangeSelector;
use crate::reading::Reading;
use crate::reading::SeriesStore;
use vstd::prelude::*;

verus! {

/// Lower bound of the fixed CO2 y-axis (ppm). The axis is deliberately not
/// auto-scaled, so windows are visually comparable.
pub const CO2_AXIS_MIN: u16 = 440;

/// Upper bound of the fixed CO2 y-axis (ppm).
pub const CO2_AXIS_MAX: u16 = 2000;

/// The two chart color schemes. Seeded once from the host environment at
/// startup; afterwards changed only by explicit user action.
#[derive(Clone, Copy, Debug, PartialEq, Eq, Structural)]
pub enum ThemeType {
    Light,
    Dark,
}

/// An sRGB color.
#[derive(Clone, Copy, Debug, PartialEq, Eq, Structural)]
pub struct Rgb {
    pub r: u8,
    pub g: u8,
    pub b: u8,
}

/// The colors a theme paints the chart with.
#[derive(Clone, Copy, Debug, PartialEq, Eq, Structural)]
pub struct Palette {
    /// Gridlines and axes.
    pub grid: Rgb,
    /// The CO2 line series.
    pub series: Rgb,
    /// Axis labels.
    pub label: Rgb,
}

/// The palette a theme selects.
pub open spec fn spec_palette(theme: ThemeType) -> Palette {
    match theme {
        ThemeType::Light => Palette {
            grid: Rgb { r: 100, g: 100, b: 100 },
            series: Rgb { r: 30, g: 50, b: 200 },
            label: Rgb { r: 0, g: 0, b: 0 },
        },
        ThemeType::Dark => Palette {
            grid: Rgb { r: 150, g: 150, b: 150 },
            series: Rgb { r: 51, g: 89, b: 218 },
            label: Rgb { r: 255, g: 255, b: 255 },
        },
    }
}

/// The colors the given theme paints the chart with.
pub fn palette(theme: ThemeType) -> (p: Palette)
    ensures
        p == spec_palette(theme),
{
    match theme {
        ThemeType::Light => Palette {
            grid: Rgb { r: 100, g: 100, b: 100 },
            series: Rgb { r: 30, g: 50, b: 200 },
            label: Rgb { r: 0, g: 0, b: 0 },
        },
        ThemeType::Dark => Palette {
            grid: Rgb { r: 150, g: 150, b: 150 },
            series: Rgb { r: 51, g: 89, b: 218 },
            label: Rgb { r: 255, g: 255, b: 255 },
        },
    }
}

/// One plotted point: the reading's time against its CO2 value.
#[derive(Clone, Copy, Debug, PartialEq, Eq, Structural)]
pub struct ChartPoint {
    pub time: i64,
    pub co2: u16,
}

/// A fully rendered chart, as plain data for the drawing backend.
/// `render_seq` is the sentinel that tells renders apart: each
/// recomputation stamps a fresh value, so a reused image is
/// distinguishable from a redrawn one.
#[derive(Clone, Debug, PartialEq, Eq)]
pub struct ChartImage {
    pub render_seq: u64,
    /// x-axis domain: the window's first and last timestamp.
    pub x_lo: i64,
    pub x_hi: i64,
    /// y-axis domain: always the fixed CO2 scale.
    pub y_lo: u16,
    pub y_hi: u16,
    pub palette: Palette,
    /// `(time, co2)` for each reading in the window, in index order.
    pub points: Vec<ChartPoint>,
}

/// The validity key of a cached image: the window bounds, the theme and
/// the identity of the loaded series. A cached image may be reused only
/// while all four are unchanged.
#[derive(Clone, Copy, Debug, PartialEq, Eq, Structural)]
pub struct RenderKey {
    pub low: usize,
    pub high: usize,
    pub theme: ThemeType,
    pub data_id: u64,
}

/// The validity key a render request carries.
pub open spec fn spec_key(sel: RangeSelector, theme: ThemeType, data_id: u64) -> RenderKey {
    RenderKey { low: sel.low, high: sel.high, theme, data_id }
}

/// Whether a request with key `k` hits a cache keyed by `key`.
pub open spec fn spec_hit(key: Option<RenderKey>, k: RenderKey) -> bool {
    key == Some(k)
}

/// The points plotted for the window `[low, high]` of `data`.
pub open spec fn spec_window_points(data: Seq<Reading>, low: int, high: int) -> Seq<ChartPoint> {
    Seq::new(
        (high + 1 - low) as nat,
        |j: int| ChartPoint { time: data[low + j].time, co2: data[low + j].co2 },
    )
}

/// What a (re)computation over the window `[low, high]` of `data` under
/// `theme` produces, stamped with sentinel `seq_no`.
pub open spec fn is_render_of(
    img: ChartImage,
    data: Seq<Reading>,
    low: int,
    high: int,
    theme: ThemeType,
    seq_no: int,
) -> bool {
    &&& img.render_seq == seq_no
    &&& img.x_lo == data[low].time
    &&& img.x_hi == data[high].time
    &&& img.y_lo == CO2_AXIS_MIN
    &&& img.y_hi == CO2_AXIS_MAX
    &&& img.palette == spec_palette(theme)
    &&& img.points@ == spec_window_points(data, low, high)
}

/// The lazily computed chart image together with the key it was computed
/// for. Created empty alongside each freshly loaded series.
#[derive(Clone, Debug, PartialEq, Eq)]
pub struct RenderCache {
    pub key: Option<RenderKey>,
    pub image: Option<ChartImage>,
    /// How many times a chart has been computed; the sentinel stamped
    /// into the most recent image.
    pub renders: u64,
}

impl RenderCache {
    /// The image and its key exist together, and the stored image always
    /// carries the most recent sentinel.
    pub open spec fn wf(self) -> bool {
        &&& self.key is Some <==> self.image is Some
        &&& (self.image matches Some(img) ==> img.render_seq == self.renders)
    }

    /// An empty cache: the first request must render.
    pub fn new() -> (c: RenderCache)
        ensures
            c.key is None,
            c.image is None,
            c.renders == 0,
            c.wf(),
    {
        RenderCache { key: None, image: None, renders: 0 }
    }

    /// Return the cached image when the validity key `(low, high, theme,
    /// data identity)` is unchanged since the last render; otherwise
    /// recompute the chart for the current window and theme, store it
    /// under the current key, and return it.
    pub fn get_or_render(
        &mut self,
        sel: &RangeSelector,
        theme: ThemeType,
        store: &SeriesStore,
        data_id: u64,
    ) -> (img: &ChartImage)
        requires
            old(self).wf(),
            old(self).renders < u64::MAX,
            sel.wf(),
            sel.length == store@.len(),
        ensures
            final(self).wf(),
            final(self).key == Some(spec_key(*sel, theme, data_id)),
            final(self).image matches Some(i) && *img == i,
            spec_hit(old(self).key, spec_key(*sel, theme, data_id)) ==> *final(self) == *old(
                self,
            ),
            !spec_hit(old(self).key, spec_key(*sel, theme, data_id)) ==> ({
                &&& final(self).renders == old(self).renders + 1
                &&& is_render_of(
                    *img,
                    store@,
                    sel.low as int,
                    sel.high as int,
                    theme,
                    old(self).renders + 1,
                )
                &&& (old(self).image matches Some(prev) ==> img.render_seq != prev.render_seq)
            }),
    {
        let k = RenderKey { low: sel.low, high: sel.high, theme, data_id };
        let hit: bool = match &self.key {
            Some(k0) => *k0 == k,
            None => false,
        };
        if !hit {
            let mut points: Vec<ChartPoint> = Vec::new();
            let mut i: usize = sel.low;
            while i <= sel.high
                invariant
                    sel.low <= i <= sel.high + 1,
                    sel.wf(),
                    sel.length == store@.len(),
                    points@ == spec_window_points(store@, sel.low as int, sel.high as int).take(
                        i - sel.low,
                    ),
                decreases sel.high + 1 - i,
            {
                let r = store.get(i);
                points.push(ChartPoint { time: r.time, co2: r.co2 });
                proof {
                    assert(points@ =~= spec_window_points(
                        store@,
                        sel.low as int,
                        sel.high as int,
                    ).take(i + 1 - sel.low));
                }
                i = i + 1;
            }
            proof {
                assert(points@ =~= spec_window_points(store@, sel.low as int, sel.high as int));
            }
            let x_lo: i64 = store.get(sel.low).time;
            let x_hi: i64 = store.get(sel.high).time;
            self.renders = self.renders + 1;
            self.image = Some(
                ChartImage {
                    render_seq: self.renders,
                    x_lo,
                    x_hi,
                    y_lo: CO2_AXIS_MIN,
                    y_hi: CO2_AXIS_MAX,
                    palette: palette(theme),
                    points,
                },
            );
            self.key = Some(k);
        }
        match &self.image {
            Some(img) => img,
            None => vstd::pervasive::unreached(),
        }
    }
}

/// Law: a render request leaves the cache keyed by exactly that request,
/// so a second identical request — with no intervening change of window,
/// theme or data — hits the cache, and by `get_or_render`'s contract the
/// cache and the returned image are unchanged: nothing is recomputed.
pub proof fn lemma_second_request_hits(k: RenderKey)
    ensures
        spec_hit(Some(k), k),
{
}

/// Law: a request whose window bound, theme or data identity differs from
/// the key of the cached image misses the cache, and by `get_or_render`'s
/// contract the chart is recomputed under a fresh sentinel.
pub proof fn lemma_changed_key_misses(k1: RenderKey, k2: RenderKey)
    requires
        k1.low != k2.low || k1.high != k2.high || k1.theme != k2.theme || k1.data_id != k2.data_id,
    ensures
        !spec_hit(Some(k1), k2),
{
}

} // verus!
