//! Received bytes, from the counters of the network interfaces to samples of
//! activity.
//!
//! The counters are read at intervals. What every interface has received
//! since the reading before is added up, except where an interface is new,
//! its counter went back, or too much time went by to trust the difference.

use crate::duration::Duration;
use crate::local_log::SafeEvent;
use vstd::prelude::*;
use vstd::string::*;

pub mod interfaces;
pub mod laws;
pub mod macos;
pub mod windows;
use interfaces::{
    ascending, id_before, identities_are_ordered, inserted, insertion_sets_one_value, lookup,
    lookup_finds_entries, lookup_is_at_its_place, IdMap, IdModel, InterfaceId,
};

verus! {

/// The longest time between two readings whose difference is trusted, in
/// nanoseconds.
pub const MAX_TRUSTED_NANOS: u128 = 5_000_000_000;

/// The time between two readings, in seconds.
pub const SAMPLE_INTERVAL_SECONDS: u64 = 1;

/// One reading of an interface.
#[derive(Clone, Debug, PartialEq, Eq)]
pub struct InterfaceCounter {
    pub id: InterfaceId,
    pub received_bytes: u64,
    pub loopback: bool,
}

impl InterfaceCounter {
    /// A reading of an interface to the outside.
    pub fn external(id: u64, received_bytes: u64) -> (r: InterfaceCounter)
        ensures
            r.id@ == (IdModel { numeric: id, incarnation: None }),
            r.received_bytes == received_bytes,
            !r.loopback,
    {
        InterfaceCounter { id: InterfaceId::numeric(id), received_bytes, loopback: false }
    }

    /// A reading of an interface of the computer with itself.
    pub fn loopback(id: u64, received_bytes: u64) -> (r: InterfaceCounter)
        ensures
            r.id@ == (IdModel { numeric: id, incarnation: None }),
            r.received_bytes == received_bytes,
            r.loopback,
    {
        InterfaceCounter { id: InterfaceId::numeric(id), received_bytes, loopback: true }
    }

    /// A reading of a named interface to the outside.
    pub fn external_incarnation(id: u64, incarnation: Vec<u8>, received_bytes: u64) -> (r:
        InterfaceCounter)
        ensures
            r.id@ == (IdModel { numeric: id, incarnation: Some(incarnation@) }),
            r.received_bytes == received_bytes,
            !r.loopback,
    {
        InterfaceCounter {
            id: InterfaceId::with_incarnation(id, incarnation),
            received_bytes,
            loopback: false,
        }
    }
}

/// Whether the difference of two readings with this time between them, in
/// nanoseconds, is trusted.
pub open spec fn trusted(nanos: nat) -> bool {
    0 < nanos <= MAX_TRUSTED_NANOS
}

/// Whether the difference of two readings with this time between them is
/// trusted.
pub fn is_trusted_interval(observed_over: Duration) -> (r: bool)
    ensures
        r == trusted(observed_over@),
{
    !observed_over.is_zero() && observed_over.as_nanos() <= MAX_TRUSTED_NANOS
}

/// What was received over a time that is trusted.
#[derive(Clone, Copy, Debug, PartialEq, Eq, Structural)]
pub struct ReceiveActivitySample {
    received_bytes: u64,
    observed_over: Duration,
}

/// A sample as a mathematical value: bytes, and nanoseconds.
pub ghost struct SampleModel {
    pub bytes: nat,
    pub nanos: nat,
}

impl View for ReceiveActivitySample {
    type V = SampleModel;

    closed spec fn view(&self) -> SampleModel {
        SampleModel { bytes: self.received_bytes as nat, nanos: self.observed_over@ }
    }
}

impl ReceiveActivitySample {
    #[verifier::type_invariant]
    spec fn is_trusted(self) -> bool {
        trusted(self.observed_over@)
    }

    /// What was received over a time, where the time is trusted.
    pub fn try_new(received_bytes: u64, observed_over: Duration) -> (r: Option<
        ReceiveActivitySample,
    >)
        ensures
            r is Some <==> trusted(observed_over@),
            r is Some ==> r->0@ == (SampleModel {
                bytes: received_bytes as nat,
                nanos: observed_over@,
            }),
    {
        if is_trusted_interval(observed_over) {
            Some(ReceiveActivitySample { received_bytes, observed_over })
        } else {
            None
        }
    }

    /// The bytes that were received.
    pub fn received_bytes(&self) -> (r: u64)
        ensures
            r == self@.bytes,
    {
        self.received_bytes
    }

    /// The time over which they were.
    pub fn observed_over(&self) -> (r: Duration)
        ensures
            r@ == self@.nanos,
            trusted(r@),
    {
        proof {
            use_type_invariant(self);
        }
        self.observed_over
    }
}

/// Whether the interfaces can be read.
#[derive(Clone, Copy, Debug, PartialEq, Eq, Structural)]
pub enum NetworkActivityAvailability {
    Available,
    Unavailable,
}

/// Why what was observed before no longer counts.
#[derive(Clone, Copy, Debug, PartialEq, Eq, Structural)]
pub enum ContinuityLossReason {
    ExplicitReset,
    ProviderUnavailable,
    UntrustedInterval,
    ArithmeticOverflow,
}

/// What is told to those who follow the activity.
#[derive(Clone, Copy, Debug, PartialEq, Eq, Structural)]
pub enum NetworkActivityEvent {
    Sample(ReceiveActivitySample),
    ContinuityLost(ContinuityLossReason),
    AvailabilityChanged(NetworkActivityAvailability),
}

/// What one reading of all interfaces means.
#[derive(Clone, Copy, Debug, PartialEq, Eq, Structural)]
pub enum NormalizedObservation {
    Baseline,
    Sample(ReceiveActivitySample),
    ContinuityLost(ContinuityLossReason),
}

/// The number under which an interface is shown.
#[derive(Clone, Copy, Debug, PartialEq, Eq, Structural)]
pub struct NetworkInterfaceDiagnosticId(pub u64);

impl NetworkInterfaceDiagnosticId {
    /// The number.
    pub fn value(self) -> (r: u64)
        ensures
            r == self.0,
    {
        self.0
    }
}

/// How a reading of an interface stands to the one before.
#[derive(Clone, Copy, Debug, PartialEq, Eq, Structural)]
pub enum NetworkInterfaceContinuity {
    New,
    Continuous,
    CounterReset,
    Removed,
}

/// What is shown of an interface.
#[derive(Clone, Copy, Debug, PartialEq, Eq, Structural)]
pub struct NetworkInterfaceDiagnostic {
    pub id: NetworkInterfaceDiagnosticId,
    pub last_observed_receive_bytes: u64,
    pub recent_delta: Option<u64>,
    pub included_in_activity: bool,
    pub continuity: NetworkInterfaceContinuity,
}

impl NetworkInterfaceDiagnostic {
    /// The number under which the interface is shown.
    pub fn id(&self) -> (r: NetworkInterfaceDiagnosticId)
        ensures
            r == self.id,
    {
        self.id
    }

    /// Its counter, as it was last read.
    pub fn last_observed_receive_bytes(&self) -> (r: u64)
        ensures
            r == self.last_observed_receive_bytes,
    {
        self.last_observed_receive_bytes
    }

    /// What it received since the reading before.
    pub fn recent_delta(&self) -> (r: Option<u64>)
        ensures
            r == self.recent_delta,
    {
        self.recent_delta
    }

    /// Whether that counts as activity.
    pub fn included_in_activity(&self) -> (r: bool)
        ensures
            r == self.included_in_activity,
    {
        self.included_in_activity
    }

    /// How the reading stands to the one before.
    pub fn continuity(&self) -> (r: NetworkInterfaceContinuity)
        ensures
            r == self.continuity,
    {
        self.continuity
    }
}

/// What is known of an interface from the reading before.
#[derive(Clone, Copy, Debug, PartialEq, Eq, Structural)]
pub struct TrackedInterface {
    pub diagnostic_id: NetworkInterfaceDiagnosticId,
    pub received_bytes: u64,
    pub included_in_activity: bool,
}

/// What is read of an interface.
#[derive(Clone, Copy, Debug, PartialEq, Eq, Structural)]
pub struct Reading {
    pub received_bytes: u64,
    pub included_in_activity: bool,
}

/// The readings of a list of counters by identity, in the order of the
/// identities. Of several counters with one identity the last counts.
pub open spec fn readings(counters: Seq<InterfaceCounter>) -> Seq<(IdModel, Reading)>
    decreases counters.len(),
{
    if counters.len() == 0 {
        Seq::empty()
    } else {
        inserted(readings(counters.drop_last()), counters.last().id@, reading(counters.last()))
    }
}

/// What a counter says: loopback traffic does not count as activity.
pub open spec fn reading(counter: InterfaceCounter) -> Reading {
    Reading { received_bytes: counter.received_bytes, included_in_activity: !counter.loopback }
}


/// The normalizer as a mathematical value.
pub ghost struct NormalizerModel {
    pub initialized: bool,
    pub previous: Seq<(IdModel, TrackedInterface)>,
    pub diagnostics: Seq<NetworkInterfaceDiagnostic>,
    pub next: nat,
}

/// How many of the readings are of interfaces that were not there before.
pub open spec fn newcomers(
    previous: Seq<(IdModel, TrackedInterface)>,
    current: Seq<(IdModel, Reading)>,
) -> nat
    decreases current.len(),
{
    if current.len() == 0 {
        0
    } else {
        newcomers(previous, current.drop_last()) + if lookup(previous, current.last().0) is None {
            1nat
        } else {
            0nat
        }
    }
}

/// The number under which the interface of a reading is shown: the one that
/// it had, or the next that was never given.
pub open spec fn shown_as(
    model: NormalizerModel,
    current: Seq<(IdModel, Reading)>,
    i: int,
) -> NetworkInterfaceDiagnosticId {
    match lookup(model.previous, current[i].0) {
        Some(known) => known.diagnostic_id,
        None => NetworkInterfaceDiagnosticId(
            (model.next + newcomers(model.previous, current.take(i))) as u64,
        ),
    }
}

/// What an interface received since the reading before, where it was there
/// and its counter did not go back.
pub open spec fn delta(
    previous: Seq<(IdModel, TrackedInterface)>,
    entry: (IdModel, Reading),
) -> Option<u64> {
    match lookup(previous, entry.0) {
        Some(known) => if known.received_bytes <= entry.1.received_bytes {
            Some((entry.1.received_bytes - known.received_bytes) as u64)
        } else {
            None
        },
        None => None,
    }
}

/// How a reading stands to the one before.
pub open spec fn continuity_of(
    previous: Seq<(IdModel, TrackedInterface)>,
    entry: (IdModel, Reading),
) -> NetworkInterfaceContinuity {
    match lookup(previous, entry.0) {
        Some(known) => if known.received_bytes <= entry.1.received_bytes {
            NetworkInterfaceContinuity::Continuous
        } else {
            NetworkInterfaceContinuity::CounterReset
        },
        None => NetworkInterfaceContinuity::New,
    }
}

/// What is shown of a reading. A reading that starts anew is shown as new,
/// whatever came before.
pub open spec fn shown(
    model: NormalizerModel,
    current: Seq<(IdModel, Reading)>,
    anew: bool,
    i: int,
) -> NetworkInterfaceDiagnostic {
    NetworkInterfaceDiagnostic {
        id: shown_as(model, current, i),
        last_observed_receive_bytes: current[i].1.received_bytes,
        recent_delta: if anew {
            None
        } else {
            delta(model.previous, current[i])
        },
        included_in_activity: current[i].1.included_in_activity,
        continuity: if anew {
            NetworkInterfaceContinuity::New
        } else {
            continuity_of(model.previous, current[i])
        },
    }
}

/// What is shown of an interface that is gone.
pub open spec fn shown_removed(entry: (IdModel, TrackedInterface)) -> NetworkInterfaceDiagnostic {
    NetworkInterfaceDiagnostic {
        id: entry.1.diagnostic_id,
        last_observed_receive_bytes: entry.1.received_bytes,
        recent_delta: None,
        included_in_activity: entry.1.included_in_activity,
        continuity: NetworkInterfaceContinuity::Removed,
    }
}

/// What is shown of all interfaces that are gone, in their order.
pub open spec fn removed(
    previous: Seq<(IdModel, TrackedInterface)>,
    current: Seq<(IdModel, Reading)>,
) -> Seq<NetworkInterfaceDiagnostic>
    decreases previous.len(),
{
    if previous.len() == 0 {
        Seq::empty()
    } else {
        let before = removed(previous.drop_last(), current);
        if lookup(current, previous.last().0) is None {
            before.push(shown_removed(previous.last()))
        } else {
            before
        }
    }
}

/// The bytes received since the reading before, over all interfaces that
/// count as activity.
pub open spec fn received(
    previous: Seq<(IdModel, TrackedInterface)>,
    current: Seq<(IdModel, Reading)>,
) -> nat
    decreases current.len(),
{
    if current.len() == 0 {
        0
    } else {
        received(previous, current.drop_last()) + counted(previous, current.last())
    }
}

/// What one reading adds to the activity.
pub open spec fn counted(
    previous: Seq<(IdModel, TrackedInterface)>,
    entry: (IdModel, Reading),
) -> nat {
    match delta(previous, entry) {
        Some(bytes) => if entry.1.included_in_activity {
            bytes as nat
        } else {
            0
        },
        None => 0,
    }
}

/// What is tracked of a reading for the next.
pub open spec fn tracked_as(
    model: NormalizerModel,
    current: Seq<(IdModel, Reading)>,
    i: int,
) -> (IdModel, TrackedInterface) {
    (
        current[i].0,
        TrackedInterface {
            diagnostic_id: shown_as(model, current, i),
            received_bytes: current[i].1.received_bytes,
            included_in_activity: current[i].1.included_in_activity,
        },
    )
}

/// The normalizer after it has taken over readings.
pub open spec fn taken_over(
    model: NormalizerModel,
    current: Seq<(IdModel, Reading)>,
    anew: bool,
) -> NormalizerModel {
    NormalizerModel {
        initialized: true,
        previous: Seq::new(current.len(), |i: int| tracked_as(model, current, i)),
        diagnostics: Seq::new(current.len(), |i: int| shown(model, current, anew, i)) + removed(
            model.previous,
            current,
        ),
        next: model.next + newcomers(model.previous, current),
    }
}

/// Whether an observation is what readings mean after this time.
pub open spec fn means(
    observation: NormalizedObservation,
    model: NormalizerModel,
    current: Seq<(IdModel, Reading)>,
    nanos: nat,
) -> bool {
    if !model.initialized {
        observation is Baseline
    } else if !trusted(nanos) {
        observation == NormalizedObservation::ContinuityLost(
            ContinuityLossReason::UntrustedInterval,
        )
    } else if received(model.previous, current) > u64::MAX {
        observation == NormalizedObservation::ContinuityLost(
            ContinuityLossReason::ArithmeticOverflow,
        )
    } else {
        &&& observation is Sample
        &&& observation->Sample_0@ == (SampleModel {
            bytes: received(model.previous, current),
            nanos,
        })
    }
}

/// The normalizer after readings taken some time after those before.
pub open spec fn observed(
    model: NormalizerModel,
    current: Seq<(IdModel, Reading)>,
    nanos: nat,
) -> NormalizerModel {
    taken_over(model, current, !model.initialized || !trusted(nanos))
}

/// Turns readings of all interfaces into samples of activity.
#[derive(Debug)]
pub struct ActivityNormalizer {
    initialized: bool,
    previous: IdMap<TrackedInterface>,
    diagnostics: Vec<NetworkInterfaceDiagnostic>,
    next_diagnostic_id: u64,
}

impl View for ActivityNormalizer {
    type V = NormalizerModel;

    closed spec fn view(&self) -> NormalizerModel {
        NormalizerModel {
            initialized: self.initialized,
            previous: self.previous@,
            diagnostics: self.diagnostics@,
            next: self.next_diagnostic_id as nat,
        }
    }
}

/// The normalizer that has seen nothing.
pub open spec fn fresh_normalizer() -> NormalizerModel {
    NormalizerModel {
        initialized: false,
        previous: Seq::empty(),
        diagnostics: Seq::empty(),
        next: 1,
    }
}

/// A normalizer that has forgotten everything but which numbers it gave.
pub open spec fn forgotten(model: NormalizerModel) -> NormalizerModel {
    NormalizerModel {
        initialized: false,
        previous: Seq::empty(),
        diagnostics: Seq::empty(),
        next: model.next,
    }
}

proof fn newcomers_are_readings(
    previous: Seq<(IdModel, TrackedInterface)>,
    current: Seq<(IdModel, Reading)>,
)
    ensures
        newcomers(previous, current) <= current.len(),
    decreases current.len(),
{
    if current.len() > 0 {
        newcomers_are_readings(previous, current.drop_last());
    }
}

fn collect_readings(counters: Vec<InterfaceCounter>) -> (r: IdMap<Reading>)
    ensures
        r@ == readings(counters@),
        r@.len() <= counters@.len(),
        ascending(r@),
{
    let mut map: IdMap<Reading> = IdMap::new();
    let mut i: usize = 0;
    assert(counters@.take(0) =~= Seq::empty());
    while i < counters.len()
        invariant
            i <= counters.len(),
            map@ == readings(counters@.take(i as int)),
            map@.len() <= i,
        decreases counters.len() - i,
    {
        let value = Reading {
            received_bytes: counters[i].received_bytes,
            included_in_activity: !counters[i].loopback,
        };
        let ghost upto = counters@.take(i + 1);
        assert(upto.drop_last() =~= counters@.take(i as int));
        assert(upto.last() == counters@[i as int]);
        map = map.insert(counters[i].id.copy(), value);
        i = i + 1;
    }
    assert(counters@.take(i as int) =~= counters@);
    let count: usize = map.len();
    map
}

impl ActivityNormalizer {
    /// A normalizer that has seen nothing.
    pub fn new() -> (r: ActivityNormalizer)
        ensures
            r@ == fresh_normalizer(),
    {
        ActivityNormalizer {
            initialized: false,
            previous: IdMap::new(),
            diagnostics: Vec::new(),
            next_diagnostic_id: 1,
        }
    }

    /// Whether there are numbers left for so many interfaces.
    pub fn has_room(&self, count: usize) -> (r: bool)
        ensures
            r <==> self@.next + count <= u64::MAX,
    {
        self.next_diagnostic_id as u128 + count as u128 <= u64::MAX as u128
    }

    /// Takes over readings of all interfaces, made `observed_over` after those
    /// before, and answers what they mean. The first readings, and those after
    /// a time that is not trusted, are what later ones are compared with.
    pub fn observe(&mut self, counters: Vec<InterfaceCounter>, observed_over: Duration) -> (r:
        NormalizedObservation)
        requires
            old(self)@.next + counters@.len() <= u64::MAX,
        ensures
            final(self)@ == observed(old(self)@, readings(counters@), observed_over@),
            means(r, old(self)@, readings(counters@), observed_over@),
    {
        let current = collect_readings(counters);
        if !self.initialized {
            self.rebaseline(current);
            return NormalizedObservation::Baseline;
        }
        if !is_trusted_interval(observed_over) {
            self.rebaseline(current);
            return NormalizedObservation::ContinuityLost(ContinuityLossReason::UntrustedInterval);
        }
        match self.take_over(current, false) {
            None => NormalizedObservation::ContinuityLost(ContinuityLossReason::ArithmeticOverflow),
            Some(received_bytes) => match ReceiveActivitySample::try_new(
                received_bytes,
                observed_over,
            ) {
                Some(sample) => NormalizedObservation::Sample(sample),
                None => NormalizedObservation::Baseline,
            },
        }
    }

    /// Takes over readings that later ones are compared with.
    fn rebaseline(&mut self, current: IdMap<Reading>)
        requires
            ascending(current@),
            old(self)@.next + current@.len() <= u64::MAX,
        ensures
            final(self)@ == taken_over(old(self)@, current@, true),
    {
        let received = self.take_over(current, true);
    }

    /// Takes over readings, and answers what was received since those before,
    /// where that fits.
    fn take_over(&mut self, current: IdMap<Reading>, anew: bool) -> (r: Option<u64>)
        requires
            ascending(current@),
            old(self)@.next + current@.len() <= u64::MAX,
        ensures
            final(self)@ == taken_over(old(self)@, current@, anew),
            r is Some <==> received(old(self)@.previous, current@) <= u64::MAX,
            r is Some ==> r->0 == received(old(self)@.previous, current@),
    {
        let ghost model = self@;
        let ghost list = current@;
        let mut received_bytes: Option<u64> = Some(0);
        let mut next: IdMap<TrackedInterface> = IdMap::new();
        let mut diagnostics: Vec<NetworkInterfaceDiagnostic> = Vec::new();
        let mut i: usize = 0;
        let count: usize = current.len();
        assert(list.take(0) =~= Seq::empty());
        assert(next@ =~= Seq::new(0, |k: int| tracked_as(model, list, k)));
        assert(diagnostics@ =~= Seq::new(0, |k: int| shown(model, list, anew, k)));
        while i < count
            invariant
                i <= count,
                count == list.len(),
                list == current@,
                ascending(list),
                model.next + list.len() <= u64::MAX,
                model.previous == self.previous@,
                self.next_diagnostic_id == model.next + newcomers(
                    model.previous,
                    list.take(i as int),
                ),
                next@ == Seq::new(i as nat, |k: int| tracked_as(model, list, k)),
                diagnostics@ == Seq::new(i as nat, |k: int| shown(model, list, anew, k)),
                received_bytes is Some <==> received(model.previous, list.take(i as int))
                    <= u64::MAX,
                received_bytes is Some ==> received_bytes->0 == received(
                    model.previous,
                    list.take(i as int),
                ),
            decreases count - i,
        {
            let ghost upto = list.take(i + 1);
            proof {
                assert(upto.drop_last() =~= list.take(i as int));
                assert(upto.last() == list[i as int]);
                newcomers_are_readings(model.previous, list.take(i as int));
            }
            let id = current.id(i);
            let value = current.value(i);
            let known = self.previous.get(id);
            let diagnostic_id = match known {
                Some(previous) => previous.diagnostic_id,
                None => self.allocate_diagnostic_id(),
            };
            let (difference, continuity) = match known {
                Some(previous) => match value.received_bytes.checked_sub(previous.received_bytes) {
                    Some(bytes) => (Some(bytes), NetworkInterfaceContinuity::Continuous),
                    None => (None, NetworkInterfaceContinuity::CounterReset),
                },
                None => (None, NetworkInterfaceContinuity::New),
            };
            if value.included_in_activity {
                received_bytes = match (received_bytes, difference) {
                    (Some(total), Some(bytes)) => total.checked_add(bytes),
                    (total, _) => total,
                };
            }
            diagnostics.push(
                NetworkInterfaceDiagnostic {
                    id: diagnostic_id,
                    last_observed_receive_bytes: value.received_bytes,
                    recent_delta: if anew {
                        None
                    } else {
                        difference
                    },
                    included_in_activity: value.included_in_activity,
                    continuity: if anew {
                        NetworkInterfaceContinuity::New
                    } else {
                        continuity
                    },
                },
            );
            assert(next@.len() > 0 ==> next@.last() == tracked_as(model, list, i - 1));
            next = next.push(
                id.copy(),
                TrackedInterface {
                    diagnostic_id,
                    received_bytes: value.received_bytes,
                    included_in_activity: value.included_in_activity,
                },
            );
            i = i + 1;
            assert(next@ =~= Seq::new(i as nat, |k: int| tracked_as(model, list, k)));
            assert(diagnostics@ =~= Seq::new(i as nat, |k: int| shown(model, list, anew, k)));
        }
        assert(list.take(count as int) =~= list);
        let ghost here = diagnostics@;
        let known: usize = self.previous.len();
        let mut j: usize = 0;
        assert(model.previous.take(0) =~= Seq::empty());
        assert(here + removed(model.previous.take(0), list) =~= here);
        while j < known
            invariant
                j <= known,
                known == model.previous.len(),
                model.previous == self.previous@,
                list == current@,
                diagnostics@ == here + removed(model.previous.take(j as int), list),
            decreases known - j,
        {
            let ghost upto = model.previous.take(j + 1);
            proof {
                assert(upto.drop_last() =~= model.previous.take(j as int));
                assert(upto.last() == model.previous[j as int]);
            }
            let ghost before = diagnostics@;
            if current.get(self.previous.id(j)).is_none() {
                let gone = self.previous.value(j);
                diagnostics.push(
                    NetworkInterfaceDiagnostic {
                        id: gone.diagnostic_id,
                        last_observed_receive_bytes: gone.received_bytes,
                        recent_delta: None,
                        included_in_activity: gone.included_in_activity,
                        continuity: NetworkInterfaceContinuity::Removed,
                    },
                );
            }
            j = j + 1;
            assert(diagnostics@ =~= here + removed(upto, list));
        }
        assert(model.previous.take(known as int) =~= model.previous);
        self.initialized = true;
        self.previous = next;
        self.diagnostics = diagnostics;
        received_bytes
    }

    /// What is shown of the interfaces.
    pub fn diagnostics(&self) -> (r: Vec<NetworkInterfaceDiagnostic>)
        ensures
            r@ == self@.diagnostics,
    {
        let mut r: Vec<NetworkInterfaceDiagnostic> = Vec::new();
        let mut i: usize = 0;
        while i < self.diagnostics.len()
            invariant
                i <= self.diagnostics.len(),
                r@ == self.diagnostics@.take(i as int),
            decreases self.diagnostics.len() - i,
        {
            r.push(self.diagnostics[i]);
            i = i + 1;
            assert(r@ =~= self.diagnostics@.take(i as int));
        }
        assert(self.diagnostics@.take(i as int) =~= self.diagnostics@);
        r
    }

    /// The next number that was never given.
    fn allocate_diagnostic_id(&mut self) -> (r: NetworkInterfaceDiagnosticId)
        requires
            old(self).next_diagnostic_id < u64::MAX,
        ensures
            r.0 == old(self).next_diagnostic_id,
            final(self).next_diagnostic_id == old(self).next_diagnostic_id + 1,
            final(self).initialized == old(self).initialized,
            final(self).previous == old(self).previous,
            final(self).diagnostics == old(self).diagnostics,
    {
        let id = NetworkInterfaceDiagnosticId(self.next_diagnostic_id);
        self.next_diagnostic_id = self.next_diagnostic_id + 1;
        id
    }

    /// Forgets everything but which numbers were given.
    pub fn reset(&mut self)
        ensures
            final(self)@ == forgotten(old(self)@),
    {
        self.initialized = false;
        self.previous = IdMap::new();
        self.diagnostics = Vec::new();
        assert(self.diagnostics@ =~= Seq::empty());
    }
}

/// Observing interfaces over time: when they were last read, and whether they
/// can be.
#[derive(Debug)]
pub struct SamplingCore {
    normalizer: ActivityNormalizer,
    last_observed_at: Option<Duration>,
    availability: Option<NetworkActivityAvailability>,
}

/// The observation of interfaces as a mathematical value; the time of the last
/// reading is in nanoseconds.
pub ghost struct SamplingModel {
    pub normalizer: NormalizerModel,
    pub last: Option<nat>,
    pub availability: Option<NetworkActivityAvailability>,
}

impl View for SamplingCore {
    type V = SamplingModel;

    closed spec fn view(&self) -> SamplingModel {
        SamplingModel {
            normalizer: self.normalizer@,
            last: match self.last_observed_at {
                Some(at) => Some(at@),
                None => None,
            },
            availability: self.availability,
        }
    }
}

impl SamplingModel {
    /// The time since the last reading, or none where there was no reading or
    /// the clock went back.
    pub open spec fn elapsed(self, at: nat) -> nat {
        match self.last {
            Some(last) => if last <= at {
                (at - last) as nat
            } else {
                0
            },
            None => 0,
        }
    }

    /// The observation after a reading that succeeded.
    pub open spec fn after_reading(self, current: Seq<(IdModel, Reading)>, at: nat) -> SamplingModel {
        SamplingModel {
            normalizer: observed(self.normalizer, current, self.elapsed(at)),
            last: Some(at),
            availability: Some(NetworkActivityAvailability::Available),
        }
    }

    /// The observation after a reading that failed.
    pub open spec fn after_failure(self) -> SamplingModel {
        SamplingModel {
            normalizer: forgotten(self.normalizer),
            last: None,
            availability: Some(NetworkActivityAvailability::Unavailable),
        }
    }

    /// What is told of the availability after a reading that succeeded.
    pub open spec fn recovery_events(self) -> Seq<NetworkActivityEvent> {
        if self.availability == Some(NetworkActivityAvailability::Available) {
            Seq::empty()
        } else {
            seq![
                NetworkActivityEvent::AvailabilityChanged(NetworkActivityAvailability::Available),
            ]
        }
    }

    /// What is told after a reading that failed: nothing where the one before
    /// failed too.
    pub open spec fn failure_events(self) -> Seq<NetworkActivityEvent> {
        if self.availability == Some(NetworkActivityAvailability::Unavailable) {
            Seq::empty()
        } else {
            seq![
                NetworkActivityEvent::ContinuityLost(ContinuityLossReason::ProviderUnavailable),
                NetworkActivityEvent::AvailabilityChanged(NetworkActivityAvailability::Unavailable),
            ]
        }
    }
}

/// What is told of an observation.
pub open spec fn told(observation: NormalizedObservation) -> Seq<NetworkActivityEvent> {
    match observation {
        NormalizedObservation::Baseline => Seq::empty(),
        NormalizedObservation::Sample(sample) => seq![NetworkActivityEvent::Sample(sample)],
        NormalizedObservation::ContinuityLost(reason) => seq![
            NetworkActivityEvent::ContinuityLost(reason),
        ],
    }
}

/// Whether events are what readings at a time lead to.
pub open spec fn tells(
    events: Seq<NetworkActivityEvent>,
    model: SamplingModel,
    current: Seq<(IdModel, Reading)>,
    at: nat,
) -> bool {
    exists|observation: NormalizedObservation|
        {
            &&& #[trigger] means(observation, model.normalizer, current, model.elapsed(at))
            &&& events == model.recovery_events() + told(observation)
        }
}

impl SamplingCore {
    /// No reading yet.
    pub fn new() -> (r: SamplingCore)
        ensures
            r@ == (SamplingModel { normalizer: fresh_normalizer(), last: None, availability: None }),
    {
        SamplingCore {
            normalizer: ActivityNormalizer::new(),
            last_observed_at: None,
            availability: None,
        }
    }

    /// Whether there are numbers left for so many interfaces.
    pub fn has_room(&self, count: usize) -> (r: bool)
        ensures
            r <==> self@.normalizer.next + count <= u64::MAX,
    {
        self.normalizer.has_room(count)
    }

    /// Takes over what reading the interfaces gave at a time, and answers what
    /// is to be told of it. `None` stands for a reading that failed.
    pub fn process(
        &mut self,
        observation: Option<Vec<InterfaceCounter>>,
        observed_at: Duration,
    ) -> (r: Vec<NetworkActivityEvent>)
        requires
            observation is Some ==> old(self)@.normalizer.next + observation->0@.len() <= u64::MAX,
        ensures
            match observation {
                Some(counters) => {
                    &&& final(self)@ == old(self)@.after_reading(readings(counters@), observed_at@)
                    &&& tells(r@, old(self)@, readings(counters@), observed_at@)
                },
                None => {
                    &&& final(self)@ == old(self)@.after_failure()
                    &&& r@ == old(self)@.failure_events()
                },
            },
    {
        let mut events: Vec<NetworkActivityEvent> = Vec::new();
        match observation {
            Some(counters) => {
                let observed_over = match self.last_observed_at {
                    Some(previous) => match observed_at.checked_sub(previous) {
                        Some(elapsed) => elapsed,
                        None => Duration::zero(),
                    },
                    None => Duration::zero(),
                };
                let normalized = self.normalizer.observe(counters, observed_over);
                self.last_observed_at = Some(observed_at);
                let known = match self.availability {
                    Some(NetworkActivityAvailability::Available) => true,
                    _ => false,
                };
                if !known {
                    self.availability = Some(NetworkActivityAvailability::Available);
                    events.push(
                        NetworkActivityEvent::AvailabilityChanged(
                            NetworkActivityAvailability::Available,
                        ),
                    );
                }
                match normalized {
                    NormalizedObservation::Baseline => {},
                    NormalizedObservation::Sample(sample) => {
                        events.push(NetworkActivityEvent::Sample(sample));
                    },
                    NormalizedObservation::ContinuityLost(reason) => {
                        events.push(NetworkActivityEvent::ContinuityLost(reason));
                    },
                }
                assert(events@ =~= old(self)@.recovery_events() + told(normalized));
            },
            None => {
                self.normalizer.reset();
                self.last_observed_at = None;
                let known = match self.availability {
                    Some(NetworkActivityAvailability::Unavailable) => true,
                    _ => false,
                };
                if !known {
                    self.availability = Some(NetworkActivityAvailability::Unavailable);
                    events.push(
                        NetworkActivityEvent::ContinuityLost(
                            ContinuityLossReason::ProviderUnavailable,
                        ),
                    );
                    events.push(
                        NetworkActivityEvent::AvailabilityChanged(
                            NetworkActivityAvailability::Unavailable,
                        ),
                    );
                }
                assert(events@ =~= old(self)@.failure_events());
            },
        }
        events
    }

    /// Forgets what was read, and answers what is to be told of it.
    pub fn reset(&mut self) -> (r: NetworkActivityEvent)
        ensures
            final(self)@ == (SamplingModel {
                normalizer: forgotten(old(self)@.normalizer),
                last: None,
                ..old(self)@
            }),
            r == NetworkActivityEvent::ContinuityLost(ContinuityLossReason::ExplicitReset),
    {
        self.normalizer.reset();
        self.last_observed_at = None;
        NetworkActivityEvent::ContinuityLost(ContinuityLossReason::ExplicitReset)
    }

    /// What is shown of the interfaces.
    pub fn diagnostics(&self) -> (r: Vec<NetworkInterfaceDiagnostic>)
        ensures
            r@ == self@.normalizer.diagnostics,
    {
        self.normalizer.diagnostics()
    }
}

/// Whether the source of activity runs.
#[derive(Clone, Copy, Debug, PartialEq, Eq, Structural)]
pub enum NetworkActivitySourceStatus {
    NotStarted,
    Starting,
    Available,
    Unavailable,
    Stopped,
}

/// What went wrong in the source of activity.
#[derive(Clone, Copy, Debug, PartialEq, Eq, Structural)]
pub enum NetworkActivityFailure {
    ProviderRead,
}

/// The word for a status in a log line.
pub open spec fn status_word(status: NetworkActivitySourceStatus) -> &'static str {
    match status {
        NetworkActivitySourceStatus::NotStarted => "not-started",
        NetworkActivitySourceStatus::Starting => "starting",
        NetworkActivitySourceStatus::Available => "available",
        NetworkActivitySourceStatus::Unavailable => "unavailable",
        NetworkActivitySourceStatus::Stopped => "stopped",
    }
}

/// The word for a status in a log line.
pub fn source_status_name(status: NetworkActivitySourceStatus) -> (r: &'static str)
    ensures
        r == status_word(status),
{
    match status {
        NetworkActivitySourceStatus::NotStarted => "not-started",
        NetworkActivitySourceStatus::Starting => "starting",
        NetworkActivitySourceStatus::Available => "available",
        NetworkActivitySourceStatus::Unavailable => "unavailable",
        NetworkActivitySourceStatus::Stopped => "stopped",
    }
}

/// Why the source could not be controlled.
#[derive(Clone, Copy, Debug, PartialEq, Eq, Structural)]
pub enum NetworkActivityControlError {
    Unavailable,
}

impl NetworkActivityControlError {
    /// The error in words.
    pub fn message(&self) -> (r: String)
        ensures
            r@ == "network activity source is unavailable"@,
    {
        String::from_str("network activity source is unavailable")
    }
}

/// Why the source did not start or did not end well. A failure to start its
/// worker is given in the words of the platform.
#[derive(Clone, Debug, PartialEq, Eq)]
pub enum NetworkActivityRuntimeError {
    AlreadyStarted,
    Spawn(String),
    WorkerPanicked,
}

impl NetworkActivityRuntimeError {
    /// The error in words.
    pub open spec fn words(self) -> Seq<char> {
        match self {
            NetworkActivityRuntimeError::AlreadyStarted =>
                "network activity source already started"@,
            NetworkActivityRuntimeError::Spawn(error) =>
                "failed to start network activity source: "@ + error@,
            NetworkActivityRuntimeError::WorkerPanicked => "network activity worker panicked"@,
        }
    }

    /// The error in words.
    pub fn message(&self) -> (r: String)
        ensures
            r@ == self.words(),
    {
        match self {
            NetworkActivityRuntimeError::AlreadyStarted => String::from_str(
                "network activity source already started",
            ),
            NetworkActivityRuntimeError::Spawn(error) => String::from_str(
                "failed to start network activity source: ",
            ).concat(error.as_str()),
            NetworkActivityRuntimeError::WorkerPanicked => String::from_str(
                "network activity worker panicked",
            ),
        }
    }
}

/// What the source shows of itself.
#[derive(Clone, Debug, PartialEq, Eq)]
pub struct NetworkActivitySnapshot {
    pub status: NetworkActivitySourceStatus,
    pub latest_failure: Option<NetworkActivityFailure>,
    pub interfaces: Vec<NetworkInterfaceDiagnostic>,
}

impl NetworkActivitySnapshot {
    /// Whether the source runs.
    pub fn status(&self) -> (r: NetworkActivitySourceStatus)
        ensures
            r == self.status,
    {
        self.status
    }

    /// What went wrong, while it lasts.
    pub fn latest_failure(&self) -> (r: Option<NetworkActivityFailure>)
        ensures
            r == self.latest_failure,
    {
        self.latest_failure
    }

    /// What is shown of the interfaces.
    pub fn interfaces(&self) -> (r: &Vec<NetworkInterfaceDiagnostic>)
        ensures
            r@ == self.interfaces@,
    {
        &self.interfaces
    }
}

fn copy_diagnostics(list: &Vec<NetworkInterfaceDiagnostic>) -> (r: Vec<NetworkInterfaceDiagnostic>)
    ensures
        r@ == list@,
{
    let mut r: Vec<NetworkInterfaceDiagnostic> = Vec::new();
    let mut i: usize = 0;
    while i < list.len()
        invariant
            i <= list.len(),
            r@ == list@.take(i as int),
        decreases list.len() - i,
    {
        r.push(list[i]);
        i = i + 1;
        assert(r@ =~= list@.take(i as int));
    }
    assert(list@.take(i as int) =~= list@);
    r
}

/// Whether what is shown of the interfaces differs in more than the counters.
pub open spec fn differs(
    previous: Seq<NetworkInterfaceDiagnostic>,
    current: Seq<NetworkInterfaceDiagnostic>,
) -> bool {
    previous.len() != current.len() || exists|i: int|
        0 <= i < previous.len() && ((#[trigger] previous[i]).id != current[i].id
            || previous[i].included_in_activity != current[i].included_in_activity
            || previous[i].continuity != current[i].continuity)
}

/// Whether what is shown of the interfaces differs in more than the counters.
pub fn topology_changed(
    previous: &Vec<NetworkInterfaceDiagnostic>,
    current: &Vec<NetworkInterfaceDiagnostic>,
) -> (r: bool)
    ensures
        r == differs(previous@, current@),
{
    if previous.len() != current.len() {
        return true;
    }
    let mut i: usize = 0;
    while i < previous.len()
        invariant
            i <= previous.len(),
            previous.len() == current.len(),
            forall|k: int|
                0 <= k < i ==> (#[trigger] previous@[k]).id == current@[k].id
                    && previous@[k].included_in_activity == current@[k].included_in_activity
                    && previous@[k].continuity == current@[k].continuity,
        decreases previous.len() - i,
    {
        if previous[i].id != current[i].id || previous[i].included_in_activity
            != current[i].included_in_activity || previous[i].continuity != current[i].continuity {
            return true;
        }
        i = i + 1;
    }
    false
}

/// The source of activity: whether its worker runs, and what it shows.
#[derive(Debug)]
pub struct NetworkActivitySource {
    started: bool,
    connected: bool,
    status: NetworkActivitySourceStatus,
    latest_failure: Option<NetworkActivityFailure>,
    interfaces: Vec<NetworkInterfaceDiagnostic>,
}

/// The source as a mathematical value.
pub ghost struct SourceModel {
    pub started: bool,
    pub connected: bool,
    pub status: NetworkActivitySourceStatus,
    pub failure: Option<NetworkActivityFailure>,
    pub interfaces: Seq<NetworkInterfaceDiagnostic>,
}

impl View for NetworkActivitySource {
    type V = SourceModel;

    closed spec fn view(&self) -> SourceModel {
        SourceModel {
            started: self.started,
            connected: self.connected,
            status: self.status,
            failure: self.latest_failure,
            interfaces: self.interfaces@,
        }
    }
}

/// What is logged where the status changes.
pub open spec fn status_events(
    before: NetworkActivitySourceStatus,
    after: NetworkActivitySourceStatus,
) -> Seq<SafeEvent> {
    if before == after {
        Seq::empty()
    } else {
        seq![SafeEvent::NetworkAvailability { status: status_word(after) }]
    }
}

/// The word for an availability in a log line.
pub open spec fn availability_word(availability: NetworkActivityAvailability) -> &'static str {
    match availability {
        NetworkActivityAvailability::Available => "available",
        NetworkActivityAvailability::Unavailable => "unavailable",
    }
}

/// What is logged of an event. Samples are not.
pub open spec fn event_log(event: NetworkActivityEvent) -> Seq<SafeEvent> {
    match event {
        NetworkActivityEvent::AvailabilityChanged(availability) => seq![
            SafeEvent::NetworkAvailability { status: availability_word(availability) },
        ],
        NetworkActivityEvent::ContinuityLost(_) => seq![SafeEvent::NetworkContinuityReset],
        NetworkActivityEvent::Sample(_) => Seq::empty(),
    }
}

/// What is logged of several events.
pub open spec fn events_log(events: Seq<NetworkActivityEvent>) -> Seq<SafeEvent>
    decreases events.len(),
{
    if events.len() == 0 {
        Seq::empty()
    } else {
        events_log(events.drop_last()) + event_log(events.last())
    }
}

/// The availability that events tell of last, if any.
pub open spec fn told_availability(events: Seq<NetworkActivityEvent>) -> Option<
    NetworkActivityAvailability,
>
    decreases events.len(),
{
    if events.len() == 0 {
        None
    } else {
        match events.last() {
            NetworkActivityEvent::AvailabilityChanged(availability) => Some(availability),
            _ => told_availability(events.drop_last()),
        }
    }
}

/// The status that events lead to.
pub open spec fn status_after(
    status: NetworkActivitySourceStatus,
    events: Seq<NetworkActivityEvent>,
) -> NetworkActivitySourceStatus {
    match told_availability(events) {
        Some(NetworkActivityAvailability::Available) => NetworkActivitySourceStatus::Available,
        Some(NetworkActivityAvailability::Unavailable) => NetworkActivitySourceStatus::Unavailable,
        None => status,
    }
}

/// The failure that is shown after a reading: a reading that failed always
/// shows as such, and one that succeeded clears it where the events tell so.
pub open spec fn failure_after(
    failure: Option<NetworkActivityFailure>,
    events: Seq<NetworkActivityEvent>,
    failed: bool,
) -> Option<NetworkActivityFailure> {
    if failed {
        Some(NetworkActivityFailure::ProviderRead)
    } else {
        match told_availability(events) {
            Some(NetworkActivityAvailability::Available) => None,
            Some(NetworkActivityAvailability::Unavailable) => Some(
                NetworkActivityFailure::ProviderRead,
            ),
            None => failure,
        }
    }
}

/// What is logged where what is shown of the interfaces changes.
pub open spec fn topology_events(
    before: Seq<NetworkInterfaceDiagnostic>,
    after: Seq<NetworkInterfaceDiagnostic>,
) -> Seq<SafeEvent> {
    if differs(before, after) {
        seq![SafeEvent::NetworkTopologyChanged { interfaces: after.len() as usize }]
    } else {
        Seq::empty()
    }
}

impl NetworkActivitySource {
    /// A source that was not started.
    pub fn new() -> (r: NetworkActivitySource)
        ensures
            r@ == (SourceModel {
                started: false,
                connected: false,
                status: NetworkActivitySourceStatus::NotStarted,
                failure: None,
                interfaces: Seq::empty(),
            }),
    {
        let r = NetworkActivitySource {
            started: false,
            connected: false,
            status: NetworkActivitySourceStatus::NotStarted,
            latest_failure: None,
            interfaces: Vec::new(),
        };
        assert(r.interfaces@ =~= Seq::empty());
        r
    }

    /// What the source shows of itself.
    pub fn snapshot(&self) -> (r: NetworkActivitySnapshot)
        ensures
            r.status == self@.status,
            r.latest_failure == self@.failure,
            r.interfaces@ == self@.interfaces,
    {
        NetworkActivitySnapshot {
            status: self.status,
            latest_failure: self.latest_failure,
            interfaces: copy_diagnostics(&self.interfaces),
        }
    }

    /// Takes over a status and a failure.
    pub fn set_status(
        &mut self,
        status: NetworkActivitySourceStatus,
        latest_failure: Option<NetworkActivityFailure>,
        log: &mut Vec<SafeEvent>,
    )
        ensures
            final(self)@ == (SourceModel { status, failure: latest_failure, ..old(self)@ }),
            final(log)@ == old(log)@ + status_events(old(self)@.status, status),
    {
        let changed = self.status != status;
        self.status = status;
        self.latest_failure = latest_failure;
        if changed {
            log.push(SafeEvent::NetworkAvailability { status: source_status_name(status) });
        }
        assert(log@ =~= old(log)@ + status_events(old(self)@.status, status));
    }

    /// Claims the one worker that the source may ever have.
    pub fn start_with(&mut self, log: &mut Vec<SafeEvent>) -> (r: Result<
        (),
        NetworkActivityRuntimeError,
    >)
        ensures
            r is Ok <==> !old(self)@.started,
            r is Err ==> {
                &&& r->Err_0 is AlreadyStarted
                &&& final(self)@ == old(self)@
                &&& final(log)@ == old(log)@
            },
            r is Ok ==> {
                &&& final(self)@ == (SourceModel {
                    started: true,
                    connected: true,
                    status: NetworkActivitySourceStatus::Starting,
                    failure: None,
                    ..old(self)@
                })
                &&& final(log)@ == old(log)@ + status_events(
                    old(self)@.status,
                    NetworkActivitySourceStatus::Starting,
                )
            },
    {
        if self.started {
            return Err(NetworkActivityRuntimeError::AlreadyStarted);
        }
        self.started = true;
        self.connected = true;
        self.set_status(NetworkActivitySourceStatus::Starting, None, log);
        Ok(())
    }

    /// Gives the claim back: the worker could not be started.
    pub fn start_failed(&mut self, error: String, log: &mut Vec<SafeEvent>) -> (r:
        NetworkActivityRuntimeError)
        ensures
            r == NetworkActivityRuntimeError::Spawn(error),
            final(self)@ == (SourceModel {
                started: false,
                connected: false,
                status: NetworkActivitySourceStatus::NotStarted,
                failure: None,
                ..old(self)@
            }),
            final(log)@ == old(log)@ + status_events(
                old(self)@.status,
                NetworkActivitySourceStatus::NotStarted,
            ),
    {
        self.started = false;
        self.connected = false;
        self.set_status(NetworkActivitySourceStatus::NotStarted, None, log);
        NetworkActivityRuntimeError::Spawn(error)
    }

    /// Disconnects the worker, and answers whether it has to be told to end.
    /// A second time there is nothing to tell.
    pub fn disconnect(&mut self) -> (r: bool)
        ensures
            r == old(self)@.connected,
            final(self)@ == (SourceModel { connected: false, ..old(self)@ }),
    {
        let connected = self.connected;
        self.connected = false;
        connected
    }

    /// Whether the worker can be asked to forget what it read.
    pub fn reset(&self) -> (r: Result<(), NetworkActivityControlError>)
        ensures
            r is Ok <==> self@.connected,
            r is Err ==> r->Err_0 == NetworkActivityControlError::Unavailable,
    {
        if self.connected {
            Ok(())
        } else {
            Err(NetworkActivityControlError::Unavailable)
        }
    }

    /// Forgets what was read, and answers what is to be told of it.
    pub fn reset_accepted(&mut self, sampling: &mut SamplingCore) -> (r: NetworkActivityEvent)
        ensures
            final(self)@ == (SourceModel { interfaces: Seq::empty(), ..old(self)@ }),
            final(sampling)@ == (SamplingModel {
                normalizer: forgotten(old(sampling)@.normalizer),
                last: None,
                ..old(sampling)@
            }),
            r == NetworkActivityEvent::ContinuityLost(ContinuityLossReason::ExplicitReset),
    {
        self.interfaces = Vec::new();
        assert(self.interfaces@ =~= Seq::empty());
        sampling.reset()
    }

    /// Takes note of the end of the worker. What is shown of the interfaces
    /// stays.
    pub fn worker_ended(&mut self)
        ensures
            final(self)@ == (SourceModel {
                status: NetworkActivitySourceStatus::Stopped,
                failure: None,
                ..old(self)@
            }),
    {
        self.status = NetworkActivitySourceStatus::Stopped;
        self.latest_failure = None;
    }
}

/// The source after a reading with these events; `interfaces` is what is now
/// shown of the interfaces, where the reading succeeded.
pub open spec fn source_after(
    source: SourceModel,
    events: Seq<NetworkActivityEvent>,
    interfaces: Option<Seq<NetworkInterfaceDiagnostic>>,
) -> SourceModel {
    SourceModel {
        status: status_after(source.status, events),
        failure: failure_after(source.failure, events, interfaces is None),
        interfaces: match interfaces {
            Some(interfaces) => interfaces,
            None => source.interfaces,
        },
        ..source
    }
}

/// What is logged of a reading.
pub open spec fn sample_log(
    source: SourceModel,
    events: Seq<NetworkActivityEvent>,
    interfaces: Option<Seq<NetworkInterfaceDiagnostic>>,
) -> Seq<SafeEvent> {
    events_log(events) + match interfaces {
        Some(interfaces) => topology_events(source.interfaces, interfaces),
        None => Seq::empty(),
    }
}

/// Takes over one reading of the interfaces at a time, in the source and in
/// the observation, and answers what is to be told of it. `None` stands for a
/// reading that failed: what is shown of the interfaces then stays.
pub fn sample_once(
    source: &mut NetworkActivitySource,
    sampling: &mut SamplingCore,
    observation: Option<Vec<InterfaceCounter>>,
    observed_at: Duration,
    log: &mut Vec<SafeEvent>,
) -> (r: Vec<NetworkActivityEvent>)
    requires
        observation is Some ==> old(sampling)@.normalizer.next + observation->0@.len() <= u64::MAX,
    ensures
        match observation {
            Some(counters) => {
                let after = old(sampling)@.after_reading(readings(counters@), observed_at@);
                let interfaces = Some(after.normalizer.diagnostics);
                &&& final(sampling)@ == after
                &&& tells(r@, old(sampling)@, readings(counters@), observed_at@)
                &&& final(source)@ == source_after(old(source)@, r@, interfaces)
                &&& final(log)@ == old(log)@ + sample_log(old(source)@, r@, interfaces)
            },
            None => {
                &&& final(sampling)@ == old(sampling)@.after_failure()
                &&& r@ == old(sampling)@.failure_events()
                &&& final(source)@ == source_after(old(source)@, r@, None)
                &&& final(log)@ == old(log)@ + sample_log(old(source)@, r@, None)
            },
        },
{
    let failed = observation.is_none();
    let events = sampling.process(observation, observed_at);
    let ghost before = source@;
    let ghost mut shown_now: Option<Seq<NetworkInterfaceDiagnostic>> = None;
    let mut topology: Option<usize> = None;
    if !failed {
        let diagnostics = sampling.diagnostics();
        if topology_changed(&source.interfaces, &diagnostics) {
            topology = Some(diagnostics.len());
        }
        source.interfaces = diagnostics;
        proof {
            shown_now = Some(diagnostics@);
        }
    }
    let mut i: usize = 0;
    assert(events@.take(0) =~= Seq::empty());
    assert(log@ + events_log(events@.take(0)) =~= log@);
    let ghost start = log@;
    let ghost interfaces = source@.interfaces;
    while i < events.len()
        invariant
            i <= events.len(),
            source@.started == before.started,
            source@.connected == before.connected,
            source@.interfaces == interfaces,
            source@.status == status_after(before.status, events@.take(i as int)),
            source@.failure == failure_after(before.failure, events@.take(i as int), false),
            log@ == start + events_log(events@.take(i as int)),
        decreases events.len() - i,
    {
        let ghost upto = events@.take(i + 1);
        assert(upto.drop_last() =~= events@.take(i as int));
        assert(upto.last() == events@[i as int]);
        match events[i] {
            NetworkActivityEvent::AvailabilityChanged(availability) => {
                match availability {
                    NetworkActivityAvailability::Available => {
                        source.status = NetworkActivitySourceStatus::Available;
                        source.latest_failure = None;
                        log.push(SafeEvent::NetworkAvailability { status: "available" });
                    },
                    NetworkActivityAvailability::Unavailable => {
                        source.status = NetworkActivitySourceStatus::Unavailable;
                        source.latest_failure = Some(NetworkActivityFailure::ProviderRead);
                        log.push(SafeEvent::NetworkAvailability { status: "unavailable" });
                    },
                }
            },
            NetworkActivityEvent::ContinuityLost(_) => {
                log.push(SafeEvent::NetworkContinuityReset);
            },
            NetworkActivityEvent::Sample(_) => {},
        }
        i = i + 1;
        assert(log@ =~= start + events_log(upto));
    }
    assert(events@.take(i as int) =~= events@);
    if failed {
        source.latest_failure = Some(NetworkActivityFailure::ProviderRead);
    }
    match topology {
        Some(interfaces) => {
            log.push(SafeEvent::NetworkTopologyChanged { interfaces });
        },
        None => {},
    }
    assert(log@ =~= start + sample_log(before, events@, shown_now));
    events
}

/// What the last counter of a list with an identity says.
pub open spec fn last_reading(counters: Seq<InterfaceCounter>, id: IdModel) -> Option<Reading>
    decreases counters.len(),
{
    if counters.len() == 0 {
        None
    } else if counters.last().id@ == id {
        Some(reading(counters.last()))
    } else {
        last_reading(counters.drop_last(), id)
    }
}

/// Readings are in the strict order of their identities, and each says what
/// the last counter with its identity says.
pub proof fn the_last_counter_counts(counters: Seq<InterfaceCounter>, id: IdModel)
    ensures
        ascending(readings(counters)),
        lookup(readings(counters), id) == last_reading(counters, id),
    decreases counters.len(),
{
    if counters.len() > 0 {
        let before = counters.drop_last();
        the_last_counter_counts(before, id);
        insertion_sets_one_value(
            readings(before),
            counters.last().id@,
            reading(counters.last()),
            id,
        );
    }
}

/// Whether the numbers of the tracked interfaces were given, and each once.
pub open spec fn numbered_once(model: NormalizerModel) -> bool {
    &&& ascending(model.previous)
    &&& model.next >= 1
    &&& forall|i: int|
        0 <= i < model.previous.len() ==> 1 <= (#[trigger] model.previous[i]).1.diagnostic_id.0
            < model.next
    &&& forall|i: int, j: int|
        0 <= i < j < model.previous.len() ==> (#[trigger] model.previous[i]).1.diagnostic_id != (
        #[trigger] model.previous[j]).1.diagnostic_id
}

proof fn newcomers_grow(
    previous: Seq<(IdModel, TrackedInterface)>,
    current: Seq<(IdModel, Reading)>,
    i: int,
    j: int,
)
    requires
        0 <= i < j <= current.len(),
    ensures
        newcomers(previous, current.take(i)) <= newcomers(previous, current.take(j)),
        lookup(previous, current[i].0) is None ==> newcomers(previous, current.take(i))
            < newcomers(previous, current.take(j)),
    decreases j,
{
    let upto = current.take(j);
    assert(upto.drop_last() =~= current.take(j - 1));
    assert(upto.last() == current[j - 1]);
    if i < j - 1 {
        newcomers_grow(previous, current, i, j - 1);
    }
}

/// Taking over readings gives no number twice: an interface that was there
/// keeps its own, a new one gets one that was never given, and no two
/// interfaces have the same.
pub proof fn numbers_are_never_reused(
    model: NormalizerModel,
    current: Seq<(IdModel, Reading)>,
    anew: bool,
)
    requires
        numbered_once(model),
        ascending(current),
        model.next + current.len() <= u64::MAX,
    ensures
        numbered_once(taken_over(model, current, anew)),
        model.next <= taken_over(model, current, anew).next,
        forall|i: int|
            0 <= i < current.len() ==> match lookup(model.previous, (#[trigger] current[i]).0) {
                Some(known) => shown_as(model, current, i) == known.diagnostic_id,
                None => model.next <= shown_as(model, current, i).0,
            },
{
    let after = taken_over(model, current, anew);
    newcomers_are_readings(model.previous, current);
    assert(current.take(current.len() as int) =~= current);
    assert forall|i: int| 0 <= i < current.len() implies {
        &&& lookup(model.previous, (#[trigger] current[i]).0) is None ==> model.next <= shown_as(
            model,
            current,
            i,
        ).0 < after.next
        &&& lookup(model.previous, current[i].0) is Some ==> 1 <= shown_as(model, current, i).0
            < model.next
    } by {
        newcomers_grow(model.previous, current, i, current.len() as int);
        newcomers_are_readings(model.previous, current.take(i));
        let id = current[i].0;
        lookup_finds_entries(model.previous, id);
        if lookup(model.previous, id) is Some {
            let k = choose|k: int|
                0 <= k < model.previous.len() && #[trigger] model.previous[k] == (
                    id,
                    lookup(model.previous, id)->0,
                );
            assert(1 <= model.previous[k].1.diagnostic_id.0 < model.next);
        }
    }
    assert forall|i: int, j: int| 0 <= i < j < current.len() implies #[trigger] shown_as(
        model,
        current,
        i,
    ) != #[trigger] shown_as(model, current, j) by {
        newcomers_grow(model.previous, current, i, j);
        newcomers_are_readings(model.previous, current.take(j));
        let a = current[i].0;
        let b = current[j].0;
        identities_are_ordered(a, b);
        lookup_finds_entries(model.previous, a);
        lookup_finds_entries(model.previous, b);
        if lookup(model.previous, a) is Some && lookup(model.previous, b) is Some {
            let k = choose|k: int|
                0 <= k < model.previous.len() && #[trigger] model.previous[k] == (
                    a,
                    lookup(model.previous, a)->0,
                );
            let l = choose|l: int|
                0 <= l < model.previous.len() && #[trigger] model.previous[l] == (
                    b,
                    lookup(model.previous, b)->0,
                );
            assert(k != l);
            if k < l {
                assert(model.previous[k].1.diagnostic_id != model.previous[l].1.diagnostic_id);
            } else {
                assert(model.previous[l].1.diagnostic_id != model.previous[k].1.diagnostic_id);
            }
        }
    }
    assert forall|i: int, j: int| 0 <= i < j < after.previous.len() implies id_before(
        #[trigger] after.previous[i].0,
        #[trigger] after.previous[j].0,
    ) by {
        assert(id_before(current[i].0, current[j].0));
    }
    assert forall|i: int| 0 <= i < after.previous.len() implies 1 <= (
    #[trigger] after.previous[i]).1.diagnostic_id.0 < after.next by {
        assert(after.previous[i] == tracked_as(model, current, i));
        let id = current[i].0;
    }
    assert forall|i: int, j: int| 0 <= i < j < after.previous.len() implies (
    #[trigger] after.previous[i]).1.diagnostic_id != (
    #[trigger] after.previous[j]).1.diagnostic_id by {
        assert(after.previous[i] == tracked_as(model, current, i));
        assert(after.previous[j] == tracked_as(model, current, j));
        assert(shown_as(model, current, i) != shown_as(model, current, j));
    }
}

/// A normalizer that has seen nothing has given no number, and forgetting
/// does not make given numbers free.
pub proof fn forgetting_keeps_given_numbers(model: NormalizerModel)
    requires
        model.next >= 1,
    ensures
        numbered_once(fresh_normalizer()),
        numbered_once(forgotten(model)),
        forgotten(model).next == model.next,
{
}

/// After a reset the next readings only say what later ones are compared
/// with, whatever they are and whenever they are made.
pub proof fn a_reset_makes_the_next_reading_a_baseline(
    model: NormalizerModel,
    current: Seq<(IdModel, Reading)>,
    nanos: nat,
    observation: NormalizedObservation,
)
    requires
        means(observation, forgotten(model), current, nanos),
    ensures
        observation is Baseline,
{
}

/// Readings become what the next ones are compared with, whatever came of
/// them: what is received after them is measured from them.
pub proof fn readings_are_measured_from_the_last(
    model: NormalizerModel,
    current: Seq<(IdModel, Reading)>,
    anew: bool,
    i: int,
    later: Reading,
)
    requires
        ascending(current),
        0 <= i < current.len(),
    ensures
        delta(taken_over(model, current, anew).previous, (current[i].0, later)) == if current[i].1.received_bytes
            <= later.received_bytes {
            Some((later.received_bytes - current[i].1.received_bytes) as u64)
        } else {
            None
        },
{
    let after = taken_over(model, current, anew).previous;
    assert forall|k: int, l: int| 0 <= k < l < after.len() implies id_before(
        #[trigger] after[k].0,
        #[trigger] after[l].0,
    ) by {
        assert(id_before(current[k].0, current[l].0));
    }
    assert(after[i] == tracked_as(model, current, i));
    lookup_is_at_its_place(after, i);
}

/// An interface that is gone is no longer tracked, so that it is shown as
/// removed once and no more.
pub proof fn a_removed_interface_is_forgotten(
    model: NormalizerModel,
    current: Seq<(IdModel, Reading)>,
    anew: bool,
    id: IdModel,
)
    requires
        lookup(current, id) is None,
    ensures
        lookup(taken_over(model, current, anew).previous, id) is None,
{
    let after = taken_over(model, current, anew).previous;
    lookup_finds_entries(current, id);
    lookup_finds_entries(after, id);
    if lookup(after, id) is Some {
        let i = choose|i: int| 0 <= i < after.len() && #[trigger] after[i].0 == id;
        assert(after[i] == tracked_as(model, current, i));
        assert(current[i].0 == id);
    }
}

/// Loopback traffic never counts: where no other interface is read, nothing
/// was received, whatever the counters say.
pub proof fn loopback_never_counts(
    previous: Seq<(IdModel, TrackedInterface)>,
    current: Seq<(IdModel, Reading)>,
)
    requires
        forall|i: int| 0 <= i < current.len() ==> !(#[trigger] current[i]).1.included_in_activity,
    ensures
        received(previous, current) == 0,
    decreases current.len(),
{
    if current.len() > 0 {
        assert(!current[current.len() - 1].1.included_in_activity);
        assert forall|i: int| 0 <= i < current.drop_last().len() implies !(
        #[trigger] current.drop_last()[i]).1.included_in_activity by {
            assert(current.drop_last()[i] == current[i]);
        }
        loopback_never_counts(previous, current.drop_last());
    }
}

/// A failure to read is told once, however often it repeats, and the first
/// reading after it only says what later ones are compared with.
pub proof fn a_failure_is_told_once(
    model: SamplingModel,
    current: Seq<(IdModel, Reading)>,
    at: nat,
    events: Seq<NetworkActivityEvent>,
)
    requires
        tells(events, model.after_failure(), current, at),
    ensures
        model.after_failure().failure_events() == Seq::<NetworkActivityEvent>::empty(),
        events == seq![
            NetworkActivityEvent::AvailabilityChanged(NetworkActivityAvailability::Available),
        ],
{
    let failed = model.after_failure();
    let observation = choose|observation: NormalizedObservation|
        {
            &&& #[trigger] means(observation, failed.normalizer, current, failed.elapsed(at))
            &&& events == failed.recovery_events() + told(observation)
        };
    assert(events =~= seq![
        NetworkActivityEvent::AvailabilityChanged(NetworkActivityAvailability::Available),
    ]);
}

} // verus!
