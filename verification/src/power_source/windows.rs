//! The power source on Windows.

use super::{PowerSourceFailure, PowerSourceOperation};
use crate::automatic_protection::PowerSource;
use vstd::prelude::*;

verus! {

/// The code of a call that succeeded.
pub const ERROR_SUCCESS: u32 = 0;

/// The event that a power setting has changed.
pub const PBT_POWERSETTINGCHANGE: u32 = 32787;

/// A globally unique identifier, by its parts.
#[derive(Clone, Copy, Debug, PartialEq, Eq, Structural)]
pub struct Guid {
    pub data1: u32,
    pub data2: u16,
    pub data3: u16,
    pub data4: u64,
}

/// The identifier of the setting that says what the computer runs on.
pub open spec fn acdc_power_source() -> Guid {
    Guid { data1: 0x5d3e9a59, data2: 0xe9d5, data3: 0x4b00, data4: 0xa6bd_ff34_ff51_6548 }
}

/// The identifier of the setting that says what the computer runs on.
pub fn acdc_power_source_guid() -> (r: Guid)
    ensures
        r == acdc_power_source(),
{
    Guid { data1: 0x5d3e9a59, data2: 0xe9d5, data3: 0x4b00, data4: 0xa6bd_ff34_ff51_6548 }
}

/// What a notification begins with: the setting, and the number of bytes of
/// its value.
#[derive(Clone, Copy, Debug, PartialEq, Eq, Structural)]
pub struct NotificationHeader {
    pub setting: Guid,
    pub data_length: u32,
}

/// Whether a notification carries the setting that says what the computer
/// runs on. `None` stands for an event without a notification.
pub open spec fn carries_power_source(event_type: u32, header: Option<NotificationHeader>) -> bool {
    event_type == PBT_POWERSETTINGCHANGE && header == Some(
        NotificationHeader { setting: acdc_power_source(), data_length: 4 },
    )
}

/// What a condition in a notification means.
pub open spec fn condition_source(condition: u32) -> PowerSource {
    if condition == 0 {
        PowerSource::External
    } else if condition == 1 || condition == 2 {
        PowerSource::Limited
    } else {
        PowerSource::Unknown
    }
}

/// The failure to make sense of a notification.
pub open spec fn not_understood() -> PowerSourceFailure {
    PowerSourceFailure { operation: PowerSourceOperation::Sample, code: None }
}

/// Whether two identifiers are the same.
pub fn guid_eq(left: Guid, right: Guid) -> (r: bool)
    ensures
        r == (left == right),
{
    left.data1 == right.data1 && left.data2 == right.data2 && left.data3 == right.data3
        && left.data4 == right.data4
}

/// Whether the value of a notification may be read: it is there, and it is of
/// the right setting and size.
pub fn check_notification(event_type: u32, header: Option<NotificationHeader>) -> (r: Result<
    (),
    PowerSourceFailure,
>)
    ensures
        r is Ok <==> carries_power_source(event_type, header),
        r is Err ==> r->Err_0 == not_understood(),
{
    let failure = PowerSourceFailure::new(PowerSourceOperation::Sample, None);
    match header {
        None => Err(failure),
        Some(header) => {
            if event_type == PBT_POWERSETTINGCHANGE && guid_eq(
                header.setting,
                acdc_power_source_guid(),
            ) && header.data_length == 4 {
                Ok(())
            } else {
                Err(failure)
            }
        },
    }
}

/// What a notification says the computer runs on. `value` is its value, which
/// counts only where it may be read.
pub fn parse_notification(event_type: u32, header: Option<NotificationHeader>, value: u32) -> (r:
    Result<PowerSource, PowerSourceFailure>)
    ensures
        r == if carries_power_source(event_type, header) {
            Ok::<PowerSource, PowerSourceFailure>(condition_source(value))
        } else {
            Err::<PowerSource, PowerSourceFailure>(not_understood())
        },
{
    match check_notification(event_type, header) {
        Ok(()) => Ok(map_power_condition(value)),
        Err(failure) => Err(failure),
    }
}

/// What a condition in a notification means. Every one but the known ones
/// leaves the power unknown.
pub fn map_power_condition(condition: u32) -> (r: PowerSource)
    ensures
        r == condition_source(condition),
{
    match condition {
        0 => PowerSource::External,
        1 => PowerSource::Limited,
        2 => PowerSource::Limited,
        _ => PowerSource::Unknown,
    }
}

/// Whether an outcome is that of a call with a code.
pub open spec fn outcome_is(
    outcome: Result<(), PowerSourceFailure>,
    operation: PowerSourceOperation,
    code: u32,
) -> bool {
    &&& outcome is Ok <==> code == ERROR_SUCCESS
    &&& outcome is Err ==> outcome->Err_0 == (PowerSourceFailure { operation, code: Some(code) })
}

/// The outcome of a call, from its code.
pub fn call_outcome(operation: PowerSourceOperation, code: u32) -> (r: Result<
    (),
    PowerSourceFailure,
>)
    ensures
        outcome_is(r, operation, code),
{
    if code == ERROR_SUCCESS {
        Ok(())
    } else {
        Err(PowerSourceFailure::new(operation, Some(code)))
    }
}

/// The token that a counter gives.
pub open spec fn token_from(counter: usize) -> usize {
    if counter == 0 {
        1
    } else {
        counter
    }
}

/// The counter after a token was taken from it.
pub open spec fn counter_after(counter: usize) -> usize {
    if token_from(counter) == usize::MAX {
        0
    } else {
        (token_from(counter) + 1) as usize
    }
}

/// The token of a registration, from a counter, and the counter after it. No
/// token is zero, which is what a callback without a registration gets.
pub fn next_token(counter: usize) -> (r: (usize, usize))
    ensures
        r.0 == token_from(counter),
        r.0 != 0,
        r.1 == counter_after(counter),
{
    let token: usize = if counter == 0 {
        1
    } else {
        counter
    };
    let next: usize = if token == usize::MAX {
        0
    } else {
        token + 1
    };
    (token, next)
}

/// The registrations whose callbacks count, by their tokens.
#[derive(Debug)]
pub struct CallbackRegistry {
    next: usize,
    tokens: Vec<usize>,
}

/// The registrations as a mathematical value: the counter of the tokens, and
/// the tokens in use.
pub ghost struct RegistryModel {
    pub next: usize,
    pub tokens: Set<usize>,
}

impl View for CallbackRegistry {
    type V = RegistryModel;

    closed spec fn view(&self) -> RegistryModel {
        RegistryModel { next: self.next, tokens: self.tokens@.to_set() }
    }
}

impl CallbackRegistry {
    /// A registry without registrations.
    pub fn new() -> (r: CallbackRegistry)
        ensures
            r@.next == 1,
            r@.tokens =~= Set::<usize>::empty(),
    {
        CallbackRegistry { next: 1, tokens: Vec::new() }
    }

    /// Gives out a token. Its callbacks count from now on, so that none is
    /// missed while the platform is being asked.
    pub fn begin(&mut self) -> (r: usize)
        ensures
            r == token_from(old(self)@.next),
            final(self)@.next == counter_after(old(self)@.next),
            final(self)@.tokens == old(self)@.tokens.insert(r),
    {
        let (token, next) = next_token(self.next);
        self.next = next;
        let ghost before = self.tokens@;
        self.tokens.push(token);
        proof {
            before.lemma_push_to_set_commute(token);
        }
        token
    }

    fn remove(&mut self, token: usize)
        ensures
            final(self)@.next == old(self)@.next,
            final(self)@.tokens == old(self)@.tokens.remove(token),
    {
        let ghost before = self.tokens@;
        let mut kept: Vec<usize> = Vec::new();
        let mut i: usize = 0;
        while i < self.tokens.len()
            invariant
                i <= self.tokens@.len(),
                self.tokens@ == before,
                forall|k: int|
                    0 <= k < i && before[k] != token ==> kept@.contains(#[trigger] before[k]),
                forall|k: int|
                    0 <= k < kept@.len() ==> #[trigger] kept@[k] != token && before.contains(
                        kept@[k],
                    ),
            decreases self.tokens@.len() - i,
        {
            let other: usize = self.tokens[i];
            if other != token {
                let ghost shorter = kept@;
                kept.push(other);
                proof {
                    assert(kept@[shorter.len() as int] == other);
                    assert forall|k: int| 0 <= k < i && before[k] != token implies kept@.contains(
                        #[trigger] before[k],
                    ) by {
                        let j = choose|j: int| 0 <= j < shorter.len() && shorter[j] == before[k];
                        assert(kept@[j] == before[k]);
                    }
                }
            }
            i = i + 1;
        }
        self.tokens = kept;
        proof {
            assert(self.tokens@.to_set() =~= before.to_set().remove(token));
        }
    }

    /// Ends the registration of a token, from the code of the call. The token
    /// is given up where the call failed.
    pub fn registered(&mut self, token: usize, code: u32) -> (r: Result<(), PowerSourceFailure>)
        ensures
            outcome_is(r, PowerSourceOperation::Registration, code),
            final(self)@.next == old(self)@.next,
            final(self)@.tokens == if code == ERROR_SUCCESS {
                old(self)@.tokens
            } else {
                old(self)@.tokens.remove(token)
            },
    {
        let outcome = call_outcome(PowerSourceOperation::Registration, code);
        if outcome.is_err() {
            self.remove(token);
        }
        outcome
    }

    /// Ends a registration, from the code of the call. The token is given up
    /// even where the call failed.
    pub fn unregistered(&mut self, token: usize, code: u32) -> (r: Result<(), PowerSourceFailure>)
        ensures
            outcome_is(r, PowerSourceOperation::Unregistration, code),
            final(self)@.next == old(self)@.next,
            final(self)@.tokens == old(self)@.tokens.remove(token),
    {
        self.remove(token);
        call_outcome(PowerSourceOperation::Unregistration, code)
    }

    /// Whether the callbacks of a token count.
    pub fn is_known(&self, token: usize) -> (r: bool)
        ensures
            r <==> token != 0 && self@.tokens.contains(token),
    {
        if token == 0 {
            return false;
        }
        let mut i: usize = 0;
        while i < self.tokens.len()
            invariant
                i <= self.tokens@.len(),
                token != 0,
                forall|k: int| 0 <= k < i ==> #[trigger] self.tokens@[k] != token,
            decreases self.tokens@.len() - i,
        {
            if self.tokens[i] == token {
                assert(self.tokens@.contains(token));
                return true;
            }
            i = i + 1;
        }
        false
    }

    /// What a callback tells, where it counts.
    pub fn received(
        &self,
        token: usize,
        event_type: u32,
        header: Option<NotificationHeader>,
        value: u32,
    ) -> (r: Option<Result<PowerSource, PowerSourceFailure>>)
        ensures
            r is Some <==> token != 0 && self@.tokens.contains(token),
            r is Some ==> r->0 == if carries_power_source(event_type, header) {
                Ok::<PowerSource, PowerSourceFailure>(condition_source(value))
            } else {
                Err::<PowerSource, PowerSourceFailure>(not_understood())
            },
    {
        if self.is_known(token) {
            Some(parse_notification(event_type, header, value))
        } else {
            None
        }
    }
}

/// Once a registration has ended, whether the platform agreed or not, its
/// callbacks no longer count, and those of all others count as before.
pub proof fn late_callbacks_do_not_count(before: RegistryModel, after: RegistryModel, token: usize)
    requires
        after.tokens == before.tokens.remove(token),
    ensures
        !after.tokens.contains(token),
        forall|other: usize|
            other != token ==> (#[trigger] after.tokens.contains(other)
                <==> before.tokens.contains(other)),
{
}

} // verus!
