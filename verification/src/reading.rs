//! Sensor readings and the loaded series.
//!
//! A reading carries a timestamp (seconds, as reported by the sensor feed),
//! a sensor status, an air-quality index, and the raw TVOC and CO2 values.

use vstd::prelude::*;

verus! {

/// Operating state of the sensor, carried on the wire as a small integer 0-3.
#[derive(Clone, Copy, Debug, PartialEq, Eq, Structural)]
pub enum SensorStatus {
    Normal,
    Warmup,
    Startup,
    Invalid,
}

/// Air-quality index, carried on the wire as a small integer 0-5.
/// The encoding is inverted: a higher integer means worse air, except
/// `Unknown`, which is 0.
#[derive(Clone, Copy, Debug, PartialEq, Eq, Structural)]
pub enum QualityIndex {
    Unknown,
    Excellent,
    Good,
    Moderate,
    Poor,
    Unhealthy,
}

/// Wire encoding of a sensor status.
pub open spec fn spec_status_code(s: SensorStatus) -> u8 {
    match s {
        SensorStatus::Normal => 0,
        SensorStatus::Warmup => 1,
        SensorStatus::Startup => 2,
        SensorStatus::Invalid => 3,
    }
}

/// Wire encoding of a quality index.
pub open spec fn spec_quality_code(q: QualityIndex) -> u8 {
    match q {
        QualityIndex::Unknown => 0,
        QualityIndex::Excellent => 1,
        QualityIndex::Good => 2,
        QualityIndex::Moderate => 3,
        QualityIndex::Poor => 4,
        QualityIndex::Unhealthy => 5,
    }
}

impl SensorStatus {
    /// The integer this status is encoded as on the wire.
    pub fn code(self) -> (c: u8)
        ensures
            c == spec_status_code(self),
    {
        match self {
            SensorStatus::Normal => 0,
            SensorStatus::Warmup => 1,
            SensorStatus::Startup => 2,
            SensorStatus::Invalid => 3,
        }
    }

    /// Decode a wire integer; codes above 3 name no status.
    pub fn from_code(c: u8) -> (s: Option<SensorStatus>)
        ensures
            c <= 3 ==> (s matches Some(st) && spec_status_code(st) == c),
            c > 3 ==> s is None,
    {
        match c {
            0 => Some(SensorStatus::Normal),
            1 => Some(SensorStatus::Warmup),
            2 => Some(SensorStatus::Startup),
            3 => Some(SensorStatus::Invalid),
            _ => None,
        }
    }

    /// Human-readable label, as shown beside the latest reading.
    pub fn label(self) -> (r: &'static str)
        ensures
            self is Normal ==> r@ == "Normal operation"@,
            self is Warmup ==> r@ == "Warm-up"@,
            self is Startup ==> r@ == "Initial startup"@,
            self is Invalid ==> r@ == "Invlid output"@,
    {
        match self {
            SensorStatus::Normal => "Normal operation",
            SensorStatus::Warmup => "Warm-up",
            SensorStatus::Startup => "Initial startup",
            SensorStatus::Invalid => "Invlid output",
        }
    }
}

impl QualityIndex {
    /// The integer this index is encoded as on the wire.
    pub fn code(self) -> (c: u8)
        ensures
            c == spec_quality_code(self),
    {
        match self {
            QualityIndex::Unknown => 0,
            QualityIndex::Excellent => 1,
            QualityIndex::Good => 2,
            QualityIndex::Moderate => 3,
            QualityIndex::Poor => 4,
            QualityIndex::Unhealthy => 5,
        }
    }

    /// Decode a wire integer; codes above 5 name no index.
    pub fn from_code(c: u8) -> (q: Option<QualityIndex>)
        ensures
            c <= 5 ==> (q matches Some(qi) && spec_quality_code(qi) == c),
            c > 5 ==> q is None,
    {
        match c {
            0 => Some(QualityIndex::Unknown),
            1 => Some(QualityIndex::Excellent),
            2 => Some(QualityIndex::Good),
            3 => Some(QualityIndex::Moderate),
            4 => Some(QualityIndex::Poor),
            5 => Some(QualityIndex::Unhealthy),
            _ => None,
        }
    }
}

/// One timestamped sensor sample. `time` is a timestamp in seconds;
/// the series is assumed ordered by ascending `time` and is not re-sorted.
#[derive(Clone, Copy, Debug, PartialEq, Eq, Structural)]
pub struct Reading {
    pub time: i64,
    pub status: SensorStatus,
    pub quality: QualityIndex,
    pub tvoc: u16,
    pub co2: u16,
}

/// The loaded series of readings, replaced wholesale on each successful
/// fetch and immutable afterwards.
#[derive(Clone, Debug, PartialEq, Eq)]
pub struct SeriesStore {
    pub readings: Vec<Reading>,
}

impl View for SeriesStore {
    type V = Seq<Reading>;

    open spec fn view(&self) -> Seq<Reading> {
        self.readings@
    }
}

impl SeriesStore {
    /// A store is well formed once loaded: it holds at least one reading.
    pub open spec fn wf(self) -> bool {
        self@.len() >= 1
    }

    /// Wrap a non-empty vector of readings.
    pub fn new(readings: Vec<Reading>) -> (s: SeriesStore)
        requires
            readings@.len() >= 1,
        ensures
            s@ == readings@,
            s.wf(),
    {
        SeriesStore { readings }
    }

    /// Number of readings in the series.
    pub fn len(&self) -> (n: usize)
        ensures
            n == self@.len(),
    {
        self.readings.len()
    }

    /// The reading at index `i`.
    pub fn get(&self, i: usize) -> (r: &Reading)
        requires
            i < self@.len(),
        ensures
            *r == self@[i as int],
    {
        &self.readings[i]
    }

    /// The most recent reading: the series is ordered by ascending time,
    /// so this is the last element.
    pub fn latest(&self) -> (r: &Reading)
        requires
            self.wf(),
        ensures
            *r == self@.last(),
    {
        &self.readings[self.readings.len() - 1]
    }
}

} // verus!
