use co2_dashboard::range::RangeSelector;
use co2_dashboard::reading::{QualityIndex, Reading, SensorStatus};
use co2_dashboard::reading::SeriesStore;
use co2_dashboard::render::{palette, ChartPoint, RenderCache, ThemeType};
use co2_dashboard::render::{CO2_AXIS_MAX, CO2_AXIS_MIN};

fn sample_series(n: usize) -> SeriesStore {
    let mut readings: Vec<Reading> = Vec::new();
    for i in 0..n {
        readings.push(Reading {
            time: 1_700_000_000 + 60 * i as i64,
            status: SensorStatus::Normal,
            quality: QualityIndex::Good,
            tvoc: 125,
            co2: 400 + i as u16,
        });
    }
    SeriesStore::new(readings)
}

#[test]
fn first_render_computes_windowed_chart() {
    let store = sample_series(100);
    let sel = RangeSelector::new(100);
    let mut cache = RenderCache::new();
    let img = cache.get_or_render(&sel, ThemeType::Light, &store, 1).clone();
    assert_eq!(img.render_seq, 1);
    assert_eq!(img.points.len(), 60);
    assert_eq!(img.points[0], ChartPoint { time: 1_700_000_000 + 60 * 40, co2: 440 });
    assert_eq!(img.points[59], ChartPoint { time: 1_700_000_000 + 60 * 99, co2: 499 });
    assert_eq!(img.x_lo, 1_700_000_000 + 60 * 40);
    assert_eq!(img.x_hi, 1_700_000_000 + 60 * 99);
    assert_eq!(img.y_lo, CO2_AXIS_MIN);
    assert_eq!(img.y_hi, CO2_AXIS_MAX);
    assert_eq!(img.palette, palette(ThemeType::Light));
}

#[test]
fn repeated_request_returns_identical_image_without_recompute() {
    // Two consecutive requests with no intervening change: the second is
    // a cache hit and yields a structurally identical image.
    let store = sample_series(20);
    let sel = RangeSelector::new(20);
    let mut cache = RenderCache::new();
    let first = cache.get_or_render(&sel, ThemeType::Light, &store, 1).clone();
    let renders_after_first = cache.renders;
    let second = cache.get_or_render(&sel, ThemeType::Light, &store, 1).clone();
    assert_eq!(first, second);
    assert_eq!(cache.renders, renders_after_first);
}

#[test]
fn window_change_forces_recompute() {
    let store = sample_series(20);
    let mut sel = RangeSelector::new(20);
    let mut cache = RenderCache::new();
    let first = cache.get_or_render(&sel, ThemeType::Light, &store, 1).clone();
    sel.set_low(5);
    let second = cache.get_or_render(&sel, ThemeType::Light, &store, 1).clone();
    assert_ne!(first.render_seq, second.render_seq);
    assert_eq!(second.points[0].co2, 405);
    sel.set_high(10);
    let third = cache.get_or_render(&sel, ThemeType::Light, &store, 1).clone();
    assert_ne!(second.render_seq, third.render_seq);
    assert_eq!(third.points.len(), 6);
}

#[test]
fn theme_change_forces_recompute_with_other_palette() {
    let store = sample_series(20);
    let sel = RangeSelector::new(20);
    let mut cache = RenderCache::new();
    let light = cache.get_or_render(&sel, ThemeType::Light, &store, 1).clone();
    let dark = cache.get_or_render(&sel, ThemeType::Dark, &store, 1).clone();
    assert_ne!(light.render_seq, dark.render_seq);
    assert_eq!(dark.palette, palette(ThemeType::Dark));
    assert_ne!(dark.palette, light.palette);
    // The window itself is untouched by a theme change.
    assert_eq!(light.points, dark.points);
}

#[test]
fn new_data_identity_forces_recompute() {
    let store = sample_series(20);
    let sel = RangeSelector::new(20);
    let mut cache = RenderCache::new();
    let first = cache.get_or_render(&sel, ThemeType::Light, &store, 1).clone();
    let second = cache.get_or_render(&sel, ThemeType::Light, &store, 2).clone();
    assert_ne!(first.render_seq, second.render_seq);
}

#[test]
fn light_and_dark_palettes_match_the_fixed_colors() {
    let light = palette(ThemeType::Light);
    assert_eq!((light.grid.r, light.grid.g, light.grid.b), (100, 100, 100));
    assert_eq!((light.series.r, light.series.g, light.series.b), (30, 50, 200));
    assert_eq!((light.label.r, light.label.g, light.label.b), (0, 0, 0));
    let dark = palette(ThemeType::Dark);
    assert_eq!((dark.grid.r, dark.grid.g, dark.grid.b), (150, 150, 150));
    assert_eq!((dark.series.r, dark.series.g, dark.series.b), (51, 89, 218));
    assert_eq!((dark.label.r, dark.label.g, dark.label.b), (255, 255, 255));
}
