//! GPU utilisation read from a hardware registry's performance statistics.
//!
//! The registry holds one entry per accelerator service. Each entry may carry a
//! performance-statistics dictionary, and the utilisation figure sits in it under
//! one of several key names, depending on the driver. A scan walks the services in
//! enumeration order and asks for one key at a time; the first key that yields a
//! number wins. Which key won is remembered in a [`KeyDiscoveryCache`], so that the
//! next scan tries that key first.
//!
//! The registry itself is queried by the caller: [`RegistryScan`] only decides what
//! to ask for next, from what the previous answer was.

use vstd::prelude::*;

verus! {

/// Number of candidate key names.
pub const CANDIDATE_KEY_COUNT: usize = 4;

/// The candidate key names, in priority order.
pub open spec fn candidate_key_spec(i: int) -> Seq<char> {
    if i == 0 {
        "Device Utilization %"@
    } else if i == 1 {
        "GPU Activity(%)"@
    } else if i == 2 {
        "GPU Core Utilization"@
    } else {
        "gpuUtilization"@
    }
}

/// The name of candidate key `i`, in priority order.
pub fn candidate_key(i: usize) -> (r: &'static str)
    requires
        i < CANDIDATE_KEY_COUNT,
    ensures
        r@ == candidate_key_spec(i as int),
{
    if i == 0 {
        "Device Utilization %"
    } else if i == 1 {
        "GPU Activity(%)"
    } else if i == 2 {
        "GPU Core Utilization"
    } else {
        "gpuUtilization"
    }
}

/// Remembers which candidate key yielded a value on an earlier scan.
#[derive(Clone, Copy, Debug, PartialEq, Eq, Structural)]
pub struct KeyDiscoveryCache {
    index: Option<usize>,
}

impl KeyDiscoveryCache {
    pub closed spec fn wf(&self) -> bool {
        match self.index {
            Some(i) => i < CANDIDATE_KEY_COUNT,
            None => true,
        }
    }

    pub closed spec fn view(&self) -> Option<usize> {
        self.index
    }

    /// A cache that knows no key yet.
    pub fn new() -> (r: Self)
        ensures
            r.wf(),
            r@ is None,
    {
        KeyDiscoveryCache { index: None }
    }

    /// The index of the remembered key, if any.
    pub fn cached(&self) -> (r: Option<usize>)
        ensures
            r == self@,
    {
        self.index
    }

    /// Remembers key `i`, replacing whatever was remembered before.
    pub fn remember(&mut self, i: usize)
        requires
            i < CANDIDATE_KEY_COUNT,
        ensures
            final(self).wf(),
            final(self)@ == Some(i),
    {
        self.index = Some(i);
    }
}

/// Where a scan stands.
#[derive(Clone, Copy, Debug, PartialEq, Eq, Structural)]
pub enum ScanPhase {
    /// Waiting for the next service of the enumeration.
    AwaitService,
    /// Trying the remembered key on the current service.
    Cached(usize),
    /// Trying candidate key `k` on the current service, in priority order.
    Scanning(usize),
    /// The scan has ended.
    Done,
}

/// What the caller should do next.
#[derive(Clone, Copy, Debug, PartialEq, Eq, Structural)]
pub enum ScanAction {
    /// Fetch the next service of the enumeration and report it.
    NextService,
    /// Look up candidate key `k` in the current service's statistics and report
    /// whether it held a number.
    TryKey(usize),
    /// Key `k` of the current service held a number: that number is the result.
    Found(usize),
    /// No service yielded a number: there is no result.
    NotFound,
}

/// The phase in which a scan enters a service that has statistics: the
/// remembered key is tried first, if there is one.
pub open spec fn entry_phase(cached: Option<usize>) -> ScanPhase {
    match cached {
        Some(c) => ScanPhase::Cached(c),
        None => ScanPhase::Scanning(0),
    }
}

/// The next phase and action once a service has been reported: one without
/// statistics is passed over.
pub open spec fn service_step(cached: Option<usize>, has_statistics: bool) -> (
    ScanPhase,
    ScanAction,
) {
    if has_statistics {
        (entry_phase(cached), ScanAction::TryKey(probed_key(entry_phase(cached))))
    } else {
        (ScanPhase::AwaitService, ScanAction::NextService)
    }
}

/// The remembered key once the key of a probing phase has answered: a key
/// found by scanning in priority order replaces it.
pub open spec fn key_cache(phase: ScanPhase, numeric: bool, cache: Option<usize>) -> Option<
    usize,
> {
    match phase {
        ScanPhase::Scanning(k) if numeric => Some(k),
        _ => cache,
    }
}

/// The key that a probing phase tries.
pub open spec fn probed_key(phase: ScanPhase) -> usize {
    match phase {
        ScanPhase::Cached(c) => c,
        ScanPhase::Scanning(k) => k,
        _ => 0,
    }
}

/// The next phase and action once the key of a probing phase has answered.
/// A miss on the remembered key starts the scan in priority order from the
/// first key; a miss on the last key moves on to the next service.
pub open spec fn key_step(phase: ScanPhase, numeric: bool) -> (ScanPhase, ScanAction) {
    match phase {
        ScanPhase::Cached(c) => if numeric {
            (ScanPhase::Done, ScanAction::Found(c))
        } else {
            (ScanPhase::Scanning(0), ScanAction::TryKey(0))
        },
        ScanPhase::Scanning(k) => if numeric {
            (ScanPhase::Done, ScanAction::Found(k))
        } else if k + 1 < CANDIDATE_KEY_COUNT {
            (ScanPhase::Scanning((k + 1) as usize), ScanAction::TryKey((k + 1) as usize))
        } else {
            (ScanPhase::AwaitService, ScanAction::NextService)
        },
        _ => (phase, ScanAction::NotFound),
    }
}

/// Where probing one service ends, from `phase` and with `cache` remembered,
/// when candidate key `k` of its statistics holds a number exactly where
/// `numeric[k]`: the final action and the key then remembered.
pub open spec fn probe_outcome(phase: ScanPhase, numeric: Seq<bool>, cache: Option<usize>) -> (
    ScanAction,
    Option<usize>,
)
    decreases
            match phase {
                ScanPhase::Cached(_) => 5int,
                ScanPhase::Scanning(k) => if k < CANDIDATE_KEY_COUNT {
                    4 - k
                } else {
                    0
                },
                _ => 0,
            },
{
    match phase {
        ScanPhase::Cached(_) | ScanPhase::Scanning(_) => {
            let answer = numeric[probed_key(phase) as int];
            let (next, action) = key_step(phase, answer);
            let cache2 = key_cache(phase, answer, cache);
            match action {
                ScanAction::TryKey(_) => probe_outcome(next, numeric, cache2),
                _ => (action, cache2),
            }
        },
        _ => (ScanAction::NotFound, cache),
    }
}

/// The first candidate key, from `from` on in priority order, that holds a number.
pub open spec fn first_numeric(numeric: Seq<bool>, from: int) -> Option<usize>
    decreases CANDIDATE_KEY_COUNT - from,
{
    if from >= CANDIDATE_KEY_COUNT || from < 0 {
        None
    } else if numeric[from] {
        Some(from as usize)
    } else {
        first_numeric(numeric, from + 1)
    }
}

/// The key whose number a service yields: the remembered key where it holds a
/// number, else the first in priority order that does.
pub open spec fn service_pick(cached: Option<usize>, numeric: Seq<bool>) -> Option<usize> {
    match cached {
        Some(c) if numeric[c as int] => Some(c),
        _ => first_numeric(numeric, 0),
    }
}

proof fn lemma_scanning_finds_first(k: usize, numeric: Seq<bool>, cache: Option<usize>)
    requires
        k < CANDIDATE_KEY_COUNT,
        numeric.len() == CANDIDATE_KEY_COUNT,
    ensures
        probe_outcome(ScanPhase::Scanning(k), numeric, cache) == match first_numeric(
            numeric,
            k as int,
        ) {
            Some(j) => (ScanAction::Found(j), Some(j)),
            None => (ScanAction::NextService, cache),
        },
    decreases CANDIDATE_KEY_COUNT - k,
{
    reveal_with_fuel(first_numeric, 2);
    if !numeric[k as int] && k + 1 < CANDIDATE_KEY_COUNT {
        lemma_scanning_finds_first((k + 1) as usize, numeric, cache);
    }
}

/// Probing a service that has statistics yields the remembered key where it
/// holds a number, and otherwise the first key in priority order that does,
/// which is then remembered; where none does, the scan moves on to the next
/// service and the remembered key stays.
pub proof fn lemma_probe_picks_key(cached: Option<usize>, numeric: Seq<bool>)
    requires
        numeric.len() == CANDIDATE_KEY_COUNT,
        cached is Some ==> cached->0 < CANDIDATE_KEY_COUNT,
    ensures
        probe_outcome(entry_phase(cached), numeric, cached) == match service_pick(
            cached,
            numeric,
        ) {
            Some(k) => (ScanAction::Found(k), Some(k)),
            None => (ScanAction::NextService, cached),
        },
{
    lemma_scanning_finds_first(0, numeric, cached);
}

/// A simulated registry: one entry per service in enumeration order, `None`
/// where the service has no statistics, else which candidate keys hold a number.
pub open spec fn registry_wf(services: Seq<Option<Seq<bool>>>) -> bool {
    forall|s: int|
        0 <= s < services.len() && #[trigger] services[s] is Some ==> services[s]->0.len()
            == CANDIDATE_KEY_COUNT
}

/// Where a whole scan ends over `services`, begun with `cached` remembered and
/// with `cache` remembered now, driven step by step as [`RegistryScan`] asks:
/// the final action and the key then remembered.
pub open spec fn scan_outcome(
    cached: Option<usize>,
    services: Seq<Option<Seq<bool>>>,
    cache: Option<usize>,
) -> (ScanAction, Option<usize>)
    decreases services.len(),
{
    if services.len() == 0 {
        (ScanAction::NotFound, cache)
    } else {
        let (phase, action) = service_step(cached, services[0] is Some);
        let (outcome, cache2) = match action {
            ScanAction::TryKey(_) => probe_outcome(phase, services[0]->0, cache),
            _ => (action, cache),
        };
        match outcome {
            ScanAction::NextService => scan_outcome(cached, services.drop_first(), cache2),
            _ => (outcome, cache2),
        }
    }
}

/// The key whose number a whole scan yields: that of the first service, in
/// enumeration order, whose statistics yield one.
pub open spec fn registry_pick(cached: Option<usize>, services: Seq<Option<Seq<bool>>>) -> Option<
    usize,
>
    decreases services.len(),
{
    if services.len() == 0 {
        None
    } else {
        match services[0] {
            Some(numeric) if service_pick(cached, numeric) is Some => service_pick(
                cached,
                numeric,
            ),
            _ => registry_pick(cached, services.drop_first()),
        }
    }
}

/// A scan yields the key picked by the first service, in enumeration order,
/// that yields one, and afterwards that key is the remembered one. Where no
/// service yields a number, and in particular where there is no service at
/// all, the scan finds nothing and the remembered key is left untouched.
pub proof fn lemma_scan_picks_first_service(
    cached: Option<usize>,
    services: Seq<Option<Seq<bool>>>,
)
    requires
        registry_wf(services),
        cached is Some ==> cached->0 < CANDIDATE_KEY_COUNT,
    ensures
        scan_outcome(cached, services, cached) == match registry_pick(cached, services) {
            Some(k) => (ScanAction::Found(k), Some(k)),
            None => (ScanAction::NotFound, cached),
        },
    decreases services.len(),
{
    if services.len() > 0 {
        let rest = services.drop_first();
        assert(registry_wf(rest)) by {
            assert forall|s: int| 0 <= s < rest.len() && #[trigger] rest[s] is Some implies rest[s]->0.len()
                == CANDIDATE_KEY_COUNT by {
                assert(rest[s] == services[s + 1]);
            }
        }
        if services[0] is Some {
            assert(services[0]->0.len() == CANDIDATE_KEY_COUNT);
            lemma_probe_picks_key(cached, services[0]->0);
        }
        lemma_scan_picks_first_service(cached, rest);
    }
}

/// One scan of the registry, driven by the caller's answers.
#[derive(Clone, Copy, Debug, PartialEq, Eq, Structural)]
pub struct RegistryScan {
    cached: Option<usize>,
    phase: ScanPhase,
}

impl RegistryScan {
    pub closed spec fn wf(&self) -> bool {
        &&& match self.cached {
            Some(c) => c < CANDIDATE_KEY_COUNT,
            None => true,
        }
        &&& match self.phase {
            ScanPhase::Cached(c) => self.cached == Some(c),
            ScanPhase::Scanning(k) => k < CANDIDATE_KEY_COUNT,
            _ => true,
        }
    }

    /// The key remembered when the scan began.
    pub closed spec fn cached_key(&self) -> Option<usize> {
        self.cached
    }

    pub closed spec fn view(&self) -> ScanPhase {
        self.phase
    }

    /// Begins a scan; the first action is always [`ScanAction::NextService`].
    pub fn start(cache: &KeyDiscoveryCache) -> (r: Self)
        requires
            cache.wf(),
        ensures
            r.wf(),
            r@ == ScanPhase::AwaitService,
            r.cached_key() == cache@,
    {
        RegistryScan { cached: cache.cached(), phase: ScanPhase::AwaitService }
    }

    /// The current phase.
    pub fn phase(&self) -> (r: ScanPhase)
        ensures
            r == self@,
    {
        self.phase
    }

    /// Reports the next service: `has_statistics` is false where its properties
    /// could not be read or hold no performance statistics.
    pub fn on_service(&mut self, has_statistics: bool) -> (r: ScanAction)
        requires
            old(self).wf(),
            old(self)@ == ScanPhase::AwaitService,
        ensures
            final(self).wf(),
            final(self).cached_key() == old(self).cached_key(),
            (final(self)@, r) == service_step(old(self).cached_key(), has_statistics),
    {
        if !has_statistics {
            ScanAction::NextService
        } else {
            match self.cached {
                Some(c) => {
                    self.phase = ScanPhase::Cached(c);
                    ScanAction::TryKey(c)
                },
                None => {
                    self.phase = ScanPhase::Scanning(0);
                    ScanAction::TryKey(0)
                },
            }
        }
    }

    /// Reports that the enumeration has no more services.
    pub fn on_exhausted(&mut self) -> (r: ScanAction)
        requires
            old(self).wf(),
            old(self)@ == ScanPhase::AwaitService,
        ensures
            final(self).wf(),
            final(self).cached_key() == old(self).cached_key(),
            final(self)@ == ScanPhase::Done,
            r == ScanAction::NotFound,
    {
        self.phase = ScanPhase::Done;
        ScanAction::NotFound
    }

    /// Reports whether the key of the last [`ScanAction::TryKey`] held a number.
    /// A key found by scanning in priority order is remembered in `cache`; a hit
    /// on the remembered key leaves `cache` as it was.
    pub fn on_key(&mut self, numeric: bool, cache: &mut KeyDiscoveryCache) -> (r: ScanAction)
        requires
            old(self).wf(),
            old(cache).wf(),
            old(self)@ is Cached || old(self)@ is Scanning,
        ensures
            final(self).wf(),
            final(cache).wf(),
            final(self).cached_key() == old(self).cached_key(),
            (final(self)@, r) == key_step(old(self)@, numeric),
            final(cache)@ == key_cache(old(self)@, numeric, old(cache)@),
    {
        match self.phase {
            ScanPhase::Cached(c) => {
                if numeric {
                    self.phase = ScanPhase::Done;
                    ScanAction::Found(c)
                } else {
                    self.phase = ScanPhase::Scanning(0);
                    ScanAction::TryKey(0)
                }
            },
            ScanPhase::Scanning(k) => {
                if numeric {
                    cache.remember(k);
                    self.phase = ScanPhase::Done;
                    ScanAction::Found(k)
                } else if k + 1 < CANDIDATE_KEY_COUNT {
                    self.phase = ScanPhase::Scanning(k + 1);
                    ScanAction::TryKey(k + 1)
                } else {
                    self.phase = ScanPhase::AwaitService;
                    ScanAction::NextService
                }
            },
            _ => ScanAction::NotFound,
        }
    }
}

} // verus!
