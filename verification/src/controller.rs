//! The load/refresh state machine and the serialized event intake.
//!
//! All state mutation — load completion, slider moves, theme changes,
//! refresh — flows through the methods of [`Dashboard`], one event at a
//! time. The network fetch itself happens outside the library: a refresh
//! hands back a [`FetchRequest`] tagged with a fresh generation, and the
//! completion event carries that generation back, so a result that was
//! superseded by a newer refresh is recognized and discarded.

use crate::range::RangeSelector;
use crate::reading::Reading;
use crate::reading::SeriesStore;
use crate::render::RenderCache;
use crate::render::ThemeType;
use vstd::prelude::*;

verus! {

/// Why a load failed: the transport failed, or the payload was well
/// received but cannot back a valid chart window.
#[derive(Clone, Copy, Debug, PartialEq, Eq, Structural)]
pub enum Error {
    APIError,
    DataError,
}

/// A fetch the caller is asked to perform. The completion event must
/// carry the same generation back.
#[derive(Clone, Copy, Debug, PartialEq, Eq, Structural)]
pub struct FetchRequest {
    pub generation: u64,
}

/// Everything owned by a successful load: the series, the latest reading
/// shown in the summary, the visible window, and the (initially empty)
/// render cache. Replaced wholesale on the next successful load.
#[derive(Clone, Debug, PartialEq, Eq)]
pub struct LoadedState {
    pub latest: Reading,
    pub store: SeriesStore,
    pub selector: RangeSelector,
    pub cache: RenderCache,
    /// Identity of this load, part of the render cache's validity key.
    pub data_id: u64,
}

impl LoadedState {
    /// The selector indexes this series, the summary shows its last
    /// reading, and both store and cache are well formed.
    pub open spec fn wf(self) -> bool {
        &&& self.store.wf()
        &&& self.selector.wf()
        &&& self.selector.length == self.store@.len()
        &&& self.latest == self.store@.last()
        &&& self.cache.wf()
    }
}

/// The load lifecycle: a fetch in flight, a loaded series, or a failure
/// awaiting a user-initiated retry.
#[derive(Clone, Debug, PartialEq, Eq)]
pub enum LoadState {
    Loading,
    Loaded(LoadedState),
    Errored,
}

/// The dashboard's whole state: the load lifecycle, the current theme and
/// the generation of the most recent fetch. Only the completion event of
/// the current generation is ever applied, so at most one fetch is
/// logically in flight.
#[derive(Clone, Debug, PartialEq, Eq)]
pub struct Dashboard {
    pub state: LoadState,
    pub theme: ThemeType,
    pub generation: u64,
}

/// The fetch bookkeeping: the part of the dashboard that decides whether
/// a fetch is in flight and which completion tag is current.
#[derive(Clone, Copy, Debug, PartialEq, Eq, Structural)]
pub struct FlightState {
    pub loading: bool,
    pub generation: u64,
}

/// One intake event, reduced to what the fetch bookkeeping sees: a
/// user refresh, the completion of the fetch tagged `t`, or any other
/// interaction (slider move, theme change), which leaves it untouched.
#[derive(Clone, Copy, Debug, PartialEq, Eq, Structural)]
pub enum FetchEvent {
    Refresh,
    Completion(u64),
    Interaction,
}

/// How one event moves the fetch bookkeeping. A refresh during a flight
/// changes nothing; otherwise it starts the next generation's flight. A
/// completion lands only when it carries the current tag.
pub open spec fn spec_after_event(fs: FlightState, ev: FetchEvent) -> FlightState {
    match ev {
        FetchEvent::Refresh => if fs.loading {
            fs
        } else {
            FlightState { loading: true, generation: (fs.generation + 1) as u64 }
        },
        FetchEvent::Completion(t) => if t == fs.generation {
            FlightState { loading: false, ..fs }
        } else {
            fs
        },
        FetchEvent::Interaction => fs,
    }
}

/// The fetch bookkeeping after a whole sequence of events, in order.
pub open spec fn spec_after_events(fs: FlightState, evs: Seq<FetchEvent>) -> FlightState
    decreases evs.len(),
{
    if evs.len() == 0 {
        fs
    } else {
        spec_after_events(spec_after_event(fs, evs[0]), evs.subrange(1, evs.len() as int))
    }
}

/// Law: at most one fetch is in flight. A refresh issues a fetch only
/// from a state with none in flight, and leaves one in flight; while one
/// is in flight, a refresh is a no-op, so no second fetch is ever
/// spawned until the current flight completes.
pub proof fn lemma_single_fetch_in_flight(fs: FlightState)
    ensures
        fs.loading ==> spec_after_event(fs, FetchEvent::Refresh) == fs,
        !fs.loading ==> spec_after_event(fs, FetchEvent::Refresh).loading,
{
}

/// Law: a superseded fetch's result is never applied. A completion
/// carrying any tag but the current generation leaves the state exactly
/// as it was.
pub proof fn lemma_superseded_completion_ignored(fs: FlightState, t: u64)
    requires
        t != fs.generation,
    ensures
        spec_after_event(fs, FetchEvent::Completion(t)) == fs,
{
}

/// The generation never decreases under any event sequence, and each
/// event raises it by at most one; so once a newer fetch has been
/// issued, an older fetch's tag stays below the current generation for
/// good, and by `lemma_superseded_completion_ignored` its late result is
/// discarded. The bound on `generation` keeps the tag space from
/// wrapping during the run.
pub proof fn lemma_generation_monotone(fs: FlightState, evs: Seq<FetchEvent>)
    requires
        fs.generation + evs.len() <= u64::MAX,
    ensures
        spec_after_events(fs, evs).generation >= fs.generation,
        spec_after_events(fs, evs).generation <= fs.generation + evs.len(),
    decreases evs.len(),
{
    if evs.len() > 0 {
        lemma_generation_monotone(spec_after_event(fs, evs[0]), evs.subrange(1, evs.len() as int));
    }
}

/// A payload backs a valid default window only when it holds at least
/// three readings; anything shorter cannot satisfy the minimum window
/// width and is rejected as malformed.
pub fn check_payload(data: &Vec<Reading>) -> (r: Result<(), Error>)
    ensures
        r is Ok <==> data@.len() >= 3,
        r is Err ==> r->Err_0 == Error::DataError,
{
    if data.len() >= 3 {
        Ok(())
    } else {
        Err(Error::DataError)
    }
}

impl Dashboard {
    /// A loaded state is internally consistent; the other states carry
    /// nothing to constrain.
    pub open spec fn wf(self) -> bool {
        self.state matches LoadState::Loaded(ls) ==> ls.wf()
    }

    /// This dashboard's fetch bookkeeping: whether a fetch is in flight
    /// and which completion tag is current.
    pub open spec fn spec_flight(self) -> FlightState {
        FlightState { loading: self.state is Loading, generation: self.generation }
    }

    /// Start the dashboard: the theme is seeded from the host
    /// environment's preference, the first fetch is issued at once.
    pub fn start(theme: ThemeType) -> (r: (Dashboard, FetchRequest))
        ensures
            r.0.wf(),
            r.0.state is Loading,
            r.0.theme == theme,
            r.0.generation == 1,
            r.1.generation == 1,
    {
        (Dashboard { state: LoadState::Loading, theme, generation: 1 }, FetchRequest {
            generation: 1,
        })
    }

    /// The window title's prefix for the current load state.
    pub fn title(&self) -> (r: &'static str)
        ensures
            self.state is Loading ==> r@ == "Loading - CO2"@,
            self.state is Loaded ==> r@ == "CO2"@,
            self.state is Errored ==> r@ == "Error - CO2"@,
    {
        match &self.state {
            LoadState::Loading => "Loading - CO2",
            LoadState::Loaded(_) => "CO2",
            LoadState::Errored => "Error - CO2",
        }
    }

    /// A user-initiated refresh. While a fetch is already in flight it is
    /// a no-op — no second fetch is spawned. Otherwise the dashboard
    /// re-enters `Loading` and a fetch of the next generation is issued.
    pub fn on_refresh_requested(&mut self) -> (r: Option<FetchRequest>)
        requires
            old(self).wf(),
            old(self).generation < u64::MAX,
        ensures
            final(self).wf(),
            final(self).theme == old(self).theme,
            final(self).spec_flight() == spec_after_event(
                old(self).spec_flight(),
                FetchEvent::Refresh,
            ),
            r is Some <==> !(old(self).state is Loading),
            old(self).state is Loading ==> *final(self) == *old(self) && r is None,
            !(old(self).state is Loading) ==> ({
                &&& final(self).state is Loading
                &&& final(self).generation == old(self).generation + 1
                &&& (r matches Some(f) && f.generation == old(self).generation + 1)
            }),
    {
        match &self.state {
            LoadState::Loading => None,
            _ => {
                self.state = LoadState::Loading;
                self.generation = self.generation + 1;
                Some(FetchRequest { generation: self.generation })
            },
        }
    }

    /// Completion of the fetch tagged `generation`. A result from any
    /// generation but the current one was superseded by a newer refresh
    /// and is discarded untouched. The current generation's result either
    /// replaces the whole state with a fresh `Loaded` — default trailing
    /// window, empty render cache — or, on a transport error or a payload
    /// too short for a valid window, moves the dashboard to `Errored`.
    pub fn on_load_complete(&mut self, generation: u64, result: Result<Vec<Reading>, Error>)
        requires
            old(self).wf(),
        ensures
            final(self).wf(),
            final(self).theme == old(self).theme,
            final(self).generation == old(self).generation,
            final(self).spec_flight() == spec_after_event(
                old(self).spec_flight(),
                FetchEvent::Completion(generation),
            ),
            generation != old(self).generation ==> *final(self) == *old(self),
            generation == old(self).generation ==> match result {
                Result::Err(_) => final(self).state is Errored,
                Result::Ok(data) => {
                    &&& data@.len() < 3 ==> final(self).state is Errored
                    &&& data@.len() >= 3 ==> (final(self).state matches LoadState::Loaded(ls) && ({
                        &&& ls.store@ == data@
                        &&& ls.latest == data@.last()
                        &&& ls.selector == RangeSelector::spec_default(data@.len() as int)
                        &&& ls.cache.key is None
                        &&& ls.cache.image is None
                        &&& ls.cache.renders == 0
                        &&& ls.data_id == generation
                    }))
                },
            },
    {
        if generation != self.generation {
            return;
        }
        match result {
            Result::Err(_) => {
                self.state = LoadState::Errored;
            },
            Result::Ok(data) => {
                match check_payload(&data) {
                    Result::Err(_) => {
                        self.state = LoadState::Errored;
                    },
                    Result::Ok(_) => {
                        let length = data.len();
                        let store = SeriesStore::new(data);
                        let latest = *store.latest();
                        let selector = RangeSelector::new(length);
                        let cache = RenderCache::new();
                        self.state = LoadState::Loaded(
                            LoadedState { latest, store, selector, cache, data_id: generation },
                        );
                    },
                }
            },
        }
    }

    /// The lower slider moved. Outside `Loaded` there is no window and the
    /// event is ignored; otherwise the request is clamped as `set_low`
    /// says, and nothing but the selector changes. A changed window is
    /// picked up by the render cache through its validity key.
    pub fn on_low_changed(&mut self, v: usize)
        requires
            old(self).wf(),
        ensures
            final(self).wf(),
            final(self).theme == old(self).theme,
            final(self).generation == old(self).generation,
            final(self).spec_flight() == spec_after_event(
                old(self).spec_flight(),
                FetchEvent::Interaction,
            ),
            !(old(self).state is Loaded) ==> *final(self) == *old(self),
            old(self).state matches LoadState::Loaded(ls) ==> (final(self).state
                matches LoadState::Loaded(ls2) && ls2 == LoadedState {
                selector: ls.selector.spec_with_low(v as int),
                ..ls
            }),
    {
        match &mut self.state {
            LoadState::Loaded(ls) => {
                ls.selector.set_low(v);
            },
            _ => {},
        }
    }

    /// The upper slider moved; the mirror image of `on_low_changed`.
    pub fn on_high_changed(&mut self, v: usize)
        requires
            old(self).wf(),
        ensures
            final(self).wf(),
            final(self).theme == old(self).theme,
            final(self).generation == old(self).generation,
            final(self).spec_flight() == spec_after_event(
                old(self).spec_flight(),
                FetchEvent::Interaction,
            ),
            !(old(self).state is Loaded) ==> *final(self) == *old(self),
            old(self).state matches LoadState::Loaded(ls) ==> (final(self).state
                matches LoadState::Loaded(ls2) && ls2 == LoadedState {
                selector: ls.selector.spec_with_high(v as int),
                ..ls
            }),
    {
        match &mut self.state {
            LoadState::Loaded(ls) => {
                ls.selector.set_high(v);
            },
            _ => {},
        }
    }

    /// The user picked a theme. Only the theme changes: the load state,
    /// window and cache contents are untouched, and the stale image is
    /// recognized by the render cache through its validity key.
    pub fn on_theme_changed(&mut self, theme: ThemeType)
        requires
            old(self).wf(),
        ensures
            final(self).wf(),
            final(self).theme == theme,
            final(self).state == old(self).state,
            final(self).generation == old(self).generation,
            final(self).spec_flight() == spec_after_event(
                old(self).spec_flight(),
                FetchEvent::Interaction,
            ),
    {
        self.theme = theme;
    }
}

} // verus!
