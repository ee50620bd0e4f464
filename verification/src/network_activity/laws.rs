//! What the observation of interfaces is for, over readings at given times and
//! over the counters that are read.

use super::interfaces::{
    ascending, bytes_before, id_before, lookup, lookup_is_at_its_place, IdModel,
};
use super::macos::{read_means, InterfaceRead};
use super::{
    differs, events_log, failure_after, forgotten, fresh_normalizer, macos, means, observed,
    received, sample_log, shown, source_after, status_after, status_events, status_word,
    taken_over, tells, told, topology_events, tracked_as, trusted, windows,
    ContinuityLossReason, NetworkActivityAvailability, NetworkActivityEvent,
    NetworkActivityFailure, NetworkActivitySourceStatus, NetworkInterfaceContinuity,
    NetworkInterfaceDiagnostic, NormalizedObservation, NormalizerModel, Reading,
    SAMPLE_INTERVAL_SECONDS, SamplingModel, SourceModel, TrackedInterface,
};
use crate::local_log::SafeEvent;
use vstd::prelude::*;

verus! {

/// The observation that has read nothing.
pub open spec fn nothing_read() -> SamplingModel {
    SamplingModel {
        normalizer: NormalizerModel {
            initialized: false,
            previous: Seq::empty(),
            diagnostics: Seq::empty(),
            next: 1,
        },
        last: None,
        availability: None,
    }
}

/// Whether events tell of a reading whose distance to the one before cannot
/// be trusted.
pub open spec fn tells_untrusted(events: Seq<NetworkActivityEvent>) -> bool {
    events.contains(
        NetworkActivityEvent::ContinuityLost(ContinuityLossReason::UntrustedInterval),
    )
}

proof fn one_observation_is_told(
    events: Seq<NetworkActivityEvent>,
    model: SamplingModel,
    current: Seq<(IdModel, Reading)>,
    at: nat,
) -> (observation: NormalizedObservation)
    requires
        tells(events, model, current, at),
    ensures
        means(observation, model.normalizer, current, model.elapsed(at)),
        events == model.recovery_events() + told(observation),
        model.availability == Some(NetworkActivityAvailability::Available) ==> events == told(
            observation,
        ),
{
    let observation = choose|observation: NormalizedObservation|
        {
            &&& #[trigger] means(observation, model.normalizer, current, model.elapsed(at))
            &&& events == model.recovery_events() + told(observation)
        };
    if model.availability == Some(NetworkActivityAvailability::Available) {
        assert(events =~= told(observation));
    }
    observation
}

/// After a reading at one time, a reading at another counts exactly where up to
/// five seconds lie between them, and some time at all. What it then tells
/// covers exactly the time from the one to the other. Everything else is told
/// as a loss of continuity: readings too far apart, at the same time, or with
/// a clock that went back.
pub proof fn samples_cover_the_time_between_readings(
    model: SamplingModel,
    first: Seq<(IdModel, Reading)>,
    at: nat,
    second: Seq<(IdModel, Reading)>,
    then: nat,
    events: Seq<NetworkActivityEvent>,
)
    requires
        tells(events, model.after_reading(first, at), second, then),
    ensures
        events.len() == 1,
        tells_untrusted(events) <==> then <= at || then - at > 5_000_000_000,
        forall|i: int|
            0 <= i < events.len() && #[trigger] events[i] is Sample
                ==> events[i]->Sample_0@.nanos == then - at,
        events[0] is Sample || events[0] is ContinuityLost,
        events[0] is Sample ==> at < then && then - at <= 5_000_000_000,
{
    let between = model.after_reading(first, at);
    let observation = one_observation_is_told(events, between, second, then);
    assert(events[0] == told(observation)[0]);
    if tells_untrusted(events) {
        let i = choose|i: int|
            0 <= i < events.len() && events[i] == NetworkActivityEvent::ContinuityLost(
                ContinuityLossReason::UntrustedInterval,
            );
        assert(i == 0);
    }
}

/// The first reading of all, the first after a failure and the first after a
/// reset only say what later ones are compared with: nothing but the
/// availability is told of them.
pub proof fn a_first_reading_tells_no_activity(
    model: SamplingModel,
    current: Seq<(IdModel, Reading)>,
    at: nat,
    events: Seq<NetworkActivityEvent>,
)
    requires
        !model.normalizer.initialized,
        tells(events, model, current, at),
    ensures
        forall|i: int|
            0 <= i < events.len() ==> #[trigger] events[i]
                == NetworkActivityEvent::AvailabilityChanged(
                NetworkActivityAvailability::Available,
            ),
        events.len() == if model.availability == Some(NetworkActivityAvailability::Available) {
            0int
        } else {
            1int
        },
        !nothing_read().normalizer.initialized,
        fresh_normalizer() == nothing_read().normalizer,
        !model.after_failure().normalizer.initialized,
        !forgotten(model.normalizer).initialized,
        model.after_reading(current, at).normalizer.initialized,
        model.after_reading(current, at).last == Some(at),
        model.after_reading(current, at).availability == Some(
            NetworkActivityAvailability::Available,
        ),
        model.after_failure().last is None,
        model.after_failure().availability == Some(NetworkActivityAvailability::Unavailable),
{
    let observation = one_observation_is_told(events, model, current, at);
    assert(told(observation) =~= Seq::empty());
    assert(events =~= model.recovery_events());
}

/// A failure to read that follows a success is told as a loss of continuity and
/// as the loss of the source, in this order, and the next success as its
/// return.
pub proof fn changes_of_availability_are_told(model: SamplingModel)
    ensures
        model.availability != Some(NetworkActivityAvailability::Unavailable)
            ==> model.failure_events() == seq![
            NetworkActivityEvent::ContinuityLost(ContinuityLossReason::ProviderUnavailable),
            NetworkActivityEvent::AvailabilityChanged(NetworkActivityAvailability::Unavailable),
        ],
        model.availability == Some(NetworkActivityAvailability::Unavailable)
            ==> model.failure_events().len() == 0,
        model.availability == Some(NetworkActivityAvailability::Available)
            ==> model.recovery_events().len() == 0,
        model.availability != Some(NetworkActivityAvailability::Available)
            ==> model.recovery_events() == seq![
            NetworkActivityEvent::AvailabilityChanged(NetworkActivityAvailability::Available),
        ],
{
}

/// The bytes on all counters that count as activity.
pub open spec fn on_the_counters(current: Seq<(IdModel, Reading)>) -> nat
    decreases current.len(),
{
    if current.len() == 0 {
        0
    } else {
        on_the_counters(current.drop_last()) + if current.last().1.included_in_activity {
            current.last().1.received_bytes as nat
        } else {
            0
        }
    }
}

/// Whether the later readings are of the same interfaces, and no counter went
/// back.
pub open spec fn goes_on(first: Seq<(IdModel, Reading)>, second: Seq<(IdModel, Reading)>) -> bool {
    &&& first.len() == second.len()
    &&& forall|i: int|
        0 <= i < first.len() ==> {
            &&& (#[trigger] first[i]).0 == second[i].0
            &&& first[i].1.included_in_activity == second[i].1.included_in_activity
            &&& first[i].1.received_bytes <= second[i].1.received_bytes
        }
}

proof fn tracked_is_looked_up(
    model: NormalizerModel,
    first: Seq<(IdModel, Reading)>,
    anew: bool,
    i: int,
)
    requires
        ascending(first),
        0 <= i < first.len(),
    ensures
        lookup(taken_over(model, first, anew).previous, first[i].0) == Some(
            tracked_as(model, first, i).1,
        ),
{
    let after = taken_over(model, first, anew).previous;
    assert forall|k: int, l: int| 0 <= k < l < after.len() implies super::interfaces::id_before(
        #[trigger] after[k].0,
        #[trigger] after[l].0,
    ) by {
        assert(super::interfaces::id_before(first[k].0, first[l].0));
    }
    assert(after[i] == tracked_as(model, first, i));
    lookup_is_at_its_place(after, i);
}

proof fn received_so_far(
    model: NormalizerModel,
    first: Seq<(IdModel, Reading)>,
    second: Seq<(IdModel, Reading)>,
    anew: bool,
    upto: int,
)
    requires
        ascending(first),
        goes_on(first, second),
        0 <= upto <= first.len(),
    ensures
        received(taken_over(model, first, anew).previous, second.take(upto)) + on_the_counters(
            first.take(upto),
        ) == on_the_counters(second.take(upto)),
    decreases upto,
{
    if upto > 0 {
        received_so_far(model, first, second, anew, upto - 1);
        assert(second.take(upto).drop_last() =~= second.take(upto - 1));
        assert(first.take(upto).drop_last() =~= first.take(upto - 1));
        assert(second.take(upto).last() == second[upto - 1]);
        assert(first.take(upto).last() == first[upto - 1]);
        tracked_is_looked_up(model, first, anew, upto - 1);
        assert(first[upto - 1].0 == second[upto - 1].0);
    }
}

/// What is received between two readings is what the counters that count as
/// activity have gone up by, all together.
pub proof fn what_is_received_is_what_the_counters_went_up_by(
    model: NormalizerModel,
    first: Seq<(IdModel, Reading)>,
    second: Seq<(IdModel, Reading)>,
    anew: bool,
)
    requires
        ascending(first),
        goes_on(first, second),
    ensures
        received(taken_over(model, first, anew).previous, second) == on_the_counters(second)
            - on_the_counters(first),
{
    received_so_far(model, first, second, anew, first.len() as int);
    assert(first.take(first.len() as int) =~= first);
    assert(second.take(second.len() as int) =~= second);
}

/// The bytes of a sample are what the counters went up by between the two
/// readings.
pub proof fn samples_count_what_came_in(
    model: SamplingModel,
    first: Seq<(IdModel, Reading)>,
    at: nat,
    second: Seq<(IdModel, Reading)>,
    then: nat,
    events: Seq<NetworkActivityEvent>,
)
    requires
        ascending(first),
        goes_on(first, second),
        at < then,
        then - at <= 5_000_000_000,
        tells(events, model.after_reading(first, at), second, then),
    ensures
        events.len() == 1,
        on_the_counters(second) - on_the_counters(first) <= u64::MAX ==> events[0] is Sample
            && events[0]->Sample_0@.bytes == on_the_counters(second) - on_the_counters(first)
            && events[0]->Sample_0@.nanos == then - at,
        on_the_counters(second) - on_the_counters(first) > u64::MAX ==> events[0]
            == NetworkActivityEvent::ContinuityLost(ContinuityLossReason::ArithmeticOverflow),
{
    let between = model.after_reading(first, at);
    let observation = one_observation_is_told(events, between, second, then);
    what_is_received_is_what_the_counters_went_up_by(
        model.normalizer,
        first,
        second,
        !model.normalizer.initialized || !trusted(model.elapsed(at)),
    );
    assert(events[0] == told(observation)[0]);
}

/// An interface adds to the activity nothing where it is new or its counter
/// went back, and else what its counter went up by, unless it is the
/// computer's own.
pub proof fn each_interface_adds_its_own(
    previous: Seq<(IdModel, TrackedInterface)>,
    current: Seq<(IdModel, Reading)>,
    id: IdModel,
    reading: Reading,
)
    ensures
        lookup(previous, id) is None ==> received(previous, current.push((id, reading)))
            == received(previous, current),
        !reading.included_in_activity ==> received(previous, current.push((id, reading)))
            == received(previous, current),
        lookup(previous, id) is Some && reading.received_bytes < lookup(
            previous,
            id,
        )->0.received_bytes ==> received(previous, current.push((id, reading))) == received(
            previous,
            current,
        ),
        lookup(previous, id) is Some && reading.included_in_activity && reading.received_bytes
            >= lookup(previous, id)->0.received_bytes ==> received(
            previous,
            current.push((id, reading)),
        ) == received(previous, current) + reading.received_bytes - lookup(
            previous,
            id,
        )->0.received_bytes,
{
    assert(current.push((id, reading)).drop_last() =~= current);
}

/// What is shown of an interface says how it stands to the reading before: it
/// is new where it was not there, continuous with the difference where its
/// counter did not go back, and reset without one where it did. Where readings
/// are too far apart everything is shown as new.
pub proof fn interfaces_are_shown_against_the_reading_before(
    model: NormalizerModel,
    first: Seq<(IdModel, Reading)>,
    second: Seq<(IdModel, Reading)>,
    nanos: nat,
    i: int,
    j: int,
)
    requires
        ascending(first),
        0 <= i < first.len(),
        0 <= j < second.len(),
        first[i].0 == second[j].0,
    ensures
        ({
            let between = taken_over(model, first, true);
            let line = observed(between, second, nanos).diagnostics[j];
            let before = first[i].1.received_bytes;
            let after = second[j].1.received_bytes;
            &&& line.last_observed_receive_bytes == after
            &&& line.included_in_activity == second[j].1.included_in_activity
            &&& line.id == tracked_as(model, first, i).1.diagnostic_id
            &&& 0 < nanos <= 5_000_000_000 && before <= after ==> line.continuity
                == NetworkInterfaceContinuity::Continuous && line.recent_delta == Some(
                (after - before) as u64,
            )
            &&& 0 < nanos <= 5_000_000_000 && after < before ==> line.continuity
                == NetworkInterfaceContinuity::CounterReset && line.recent_delta is None
            &&& nanos == 0 || nanos > 5_000_000_000 ==> line.continuity
                == NetworkInterfaceContinuity::New && line.recent_delta is None
        }),
{
    let between = taken_over(model, first, true);
    tracked_is_looked_up(model, first, true, i);
    assert(observed(between, second, nanos).diagnostics[j] == shown(
        between,
        second,
        nanos == 0 || nanos > 5_000_000_000,
        j,
    ));
}

/// An interface that was not there is shown as new, under a number that was
/// never given.
pub proof fn newcomers_are_shown_as_new(
    model: NormalizerModel,
    current: Seq<(IdModel, Reading)>,
    nanos: nat,
    j: int,
)
    requires
        0 <= j < current.len(),
        lookup(model.previous, current[j].0) is None,
        model.next + current.len() <= u64::MAX,
    ensures
        observed(model, current, nanos).diagnostics[j].continuity
            == NetworkInterfaceContinuity::New,
        observed(model, current, nanos).diagnostics[j].recent_delta is None,
        model.next <= observed(model, current, nanos).diagnostics[j].id.0,
{
    super::newcomers_are_readings(model.previous, current.take(j));
    assert(observed(model, current, nanos).diagnostics[j] == shown(
        model,
        current,
        !model.initialized || !trusted(nanos),
        j,
    ));
}

/// The source is what was last told of it, and shows a failure exactly while
/// readings fail.
pub proof fn the_source_follows_the_readings(
    status: NetworkActivitySourceStatus,
    failure: Option<NetworkActivityFailure>,
    model: SamplingModel,
    current: Seq<(IdModel, Reading)>,
    at: nat,
    events: Seq<NetworkActivityEvent>,
)
    requires
        tells(events, model, current, at),
        model.availability == Some(NetworkActivityAvailability::Available) ==> status
            == NetworkActivitySourceStatus::Available && failure is None,
    ensures
        status_after(status, events) == NetworkActivitySourceStatus::Available,
        failure_after(failure, events, false) is None,
        failure_after(failure, events, true) == Some(NetworkActivityFailure::ProviderRead),
        model.availability != Some(NetworkActivityAvailability::Unavailable) ==> status_after(
            status,
            model.failure_events(),
        ) == NetworkActivitySourceStatus::Unavailable,
        model.availability == Some(NetworkActivityAvailability::Unavailable) ==> status_after(
            status,
            model.failure_events(),
        ) == status,
{
    let observation = one_observation_is_told(events, model, current, at);
    reveal_with_fuel(super::told_availability, 4);
    if told(observation).len() > 0 {
        assert(events.last() == told(observation).last());
        assert(events.drop_last() =~= model.recovery_events());
    } else {
        assert(events =~= model.recovery_events());
    }
    if model.availability != Some(NetworkActivityAvailability::Unavailable) {
        assert(model.failure_events().last() == NetworkActivityEvent::AvailabilityChanged(
            NetworkActivityAvailability::Unavailable,
        ));
    }
}

/// Samples leave no trace in the log: where only samples are told, nothing is
/// logged, and every other event leaves one line.
pub proof fn samples_are_not_logged(events: Seq<NetworkActivityEvent>)
    ensures
        (forall|i: int| 0 <= i < events.len() ==> #[trigger] events[i] is Sample) ==> events_log(
            events,
        ) == Seq::<SafeEvent>::empty(),
        (forall|i: int| 0 <= i < events.len() ==> !(#[trigger] events[i] is Sample))
            ==> events_log(events).len() == events.len(),
    decreases events.len(),
{
    if events.len() > 0 {
        let rest = events.drop_last();
        samples_are_not_logged(rest);
        assert forall|i: int| 0 <= i < rest.len() implies #[trigger] rest[i] == events[i] by {}
        assert(events.last() == events[events.len() - 1]);
        if forall|i: int| 0 <= i < events.len() ==> #[trigger] events[i] is Sample {
            assert(events_log(events) =~= Seq::<SafeEvent>::empty());
        }
    }
}

/// Interfaces are ordered by their numbers. Of two with the same number one
/// without a mark of its own comes first, and two marks are ordered by the
/// first byte in which they differ.
pub proof fn interfaces_are_ordered_by_number(
    a: IdModel,
    b: IdModel,
    common: Seq<u8>,
    x: u8,
    y: u8,
    rest: Seq<u8>,
    other: Seq<u8>,
)
    ensures
        a.numeric < b.numeric ==> id_before(a, b) && !id_before(b, a),
        a.numeric == b.numeric && a.incarnation is None && b.incarnation is Some ==> id_before(
            a,
            b,
        ),
        a.numeric == b.numeric && a.incarnation == Some(common + seq![x] + rest) && b.incarnation
            == Some(common + seq![y] + other) && x != y ==> (id_before(a, b) <==> x < y),
        a.numeric == b.numeric && a.incarnation == Some(common) && b.incarnation == Some(
            common + seq![y] + other,
        ) ==> id_before(a, b),
{
    bytes_are_ordered_as_in_a_dictionary(common, x, y, rest, other);
}

proof fn bytes_are_ordered_as_in_a_dictionary(
    common: Seq<u8>,
    x: u8,
    y: u8,
    rest: Seq<u8>,
    other: Seq<u8>,
)
    ensures
        bytes_before(common, common + seq![y] + other),
        x != y ==> (bytes_before(common + seq![x] + rest, common + seq![y] + other) <==> x < y),
    decreases common.len(),
{
    let left = common + seq![x] + rest;
    let right = common + seq![y] + other;
    if common.len() > 0 {
        let tail = common.drop_first();
        bytes_are_ordered_as_in_a_dictionary(tail, x, y, rest, other);
        assert(left.drop_first() =~= tail + seq![x] + rest);
        assert(right.drop_first() =~= tail + seq![y] + other);
    }
}

/// A change of the status is logged once, by its new name, and no change is
/// not.
pub proof fn changes_of_status_are_logged(
    before: NetworkActivitySourceStatus,
    after: NetworkActivitySourceStatus,
)
    ensures
        before == after <==> status_events(before, after).len() == 0,
        before != after ==> status_events(before, after) == seq![
            SafeEvent::NetworkAvailability { status: status_word(after) },
        ],
{
}

/// What is shown of the interfaces counts as changed exactly where there are
/// more or fewer of them, or one is another, counts otherwise or continues
/// otherwise. Counters that go on do not count.
pub proof fn counters_alone_change_nothing(
    before: Seq<NetworkInterfaceDiagnostic>,
    after: Seq<NetworkInterfaceDiagnostic>,
)
    ensures
        !differs(before, after) <==> before.len() == after.len() && forall|i: int|
            0 <= i < before.len() ==> (#[trigger] before[i]).id == after[i].id
                && before[i].included_in_activity == after[i].included_in_activity
                && before[i].continuity == after[i].continuity,
        differs(before, after) <==> topology_events(before, after).len() == 1,
        !differs(before, after) <==> topology_events(before, after).len() == 0,
        differs(before, after) && after.len() <= usize::MAX ==> topology_events(before, after)[0]
            is NetworkTopologyChanged && topology_events(before, after)[0]->interfaces
            == after.len(),
{
}

/// A reading that failed leaves what is shown of the interfaces as it was, and
/// one that succeeded replaces it. It is logged after what the reading told.
pub proof fn failed_readings_keep_what_is_shown(
    source: SourceModel,
    events: Seq<NetworkActivityEvent>,
    interfaces: Seq<NetworkInterfaceDiagnostic>,
)
    ensures
        source_after(source, events, None).interfaces == source.interfaces,
        source_after(source, events, Some(interfaces)).interfaces == interfaces,
        source_after(source, events, Some(interfaces)).started == source.started,
        sample_log(source, events, None) == events_log(events),
        sample_log(source, events, Some(interfaces)).take(events_log(events).len() as int)
            == events_log(events),
        sample_log(source, events, Some(interfaces)).len() == events_log(events).len() + (
        if differs(source.interfaces, interfaces) {
            1int
        } else {
            0
        }),
{
    assert(sample_log(source, events, None) =~= events_log(events));
    assert(sample_log(source, events, Some(interfaces)).take(events_log(events).len() as int)
        =~= events_log(events));
}

/// The numbers by which the systems know a live interface, a loopback and one
/// that is gone, and the time between two readings in seconds.
pub proof fn interfaces_are_known_by_their_numbers()
    ensures
        macos::IFF_UP == 1,
        macos::IFF_LOOPBACK == 8,
        macos::ENOENT == 2,
        macos::ENXIO == 6,
        windows::IF_OPER_STATUS_UP == 1,
        windows::IF_TYPE_SOFTWARE_LOOPBACK == 24,
        SAMPLE_INTERVAL_SECONDS == 1,
{
}

/// On macOS an interface counts exactly where reading it succeeded and gave what
/// was expected. One that does not exist any more is gone, which is no failure.
pub proof fn interfaces_that_are_gone_are_no_failure(
    result: i32,
    code: Option<i32>,
    size: usize,
    expected: usize,
)
    ensures
        ({
            let read = read_means(result, code, size, expected);
            &&& read == InterfaceRead::Present <==> result == 0 && size == expected
            &&& read == InterfaceRead::UnexpectedSize <==> result == 0 && size != expected
            &&& read == InterfaceRead::Gone <==> result != 0 && (code == Some(2i32) || code
                == Some(6i32))
            &&& read == InterfaceRead::Refused <==> result != 0 && code != Some(2i32) && code
                != Some(6i32)
        }),
{
}

} // verus!
