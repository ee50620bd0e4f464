//! Diagnostics: what is known of the program, gathered for a report, and the
//! actions that hand it to the user.

use crate::application::{
    ApplicationSnapshot, ApplicationStatus, CapabilityId, StartupFailurePoint,
};
use crate::automatic_download::{AutomaticDownloadSnapshot, AutomaticDownloadState};
use crate::automatic_protection::{
    AutomaticProtectionSnapshot, AutomaticProtectionSuppression, PowerSource,
};
use crate::duration::Duration;
use crate::launch_at_login::{LaunchAtLoginFailureStage, LaunchAtLoginSnapshot, Registration};
use crate::local_log::{EventOutcome, LocalLog, LoggingHealth, SafeEvent};
use crate::manual_session::{ManualSessionSnapshot, ManualSessionState};
use crate::network_activity::{
    NetworkActivityFailure, NetworkActivitySnapshot, NetworkActivitySourceStatus,
    NetworkInterfaceContinuity, NetworkInterfaceDiagnostic,
};
use crate::power_source::{
    PowerSourceObserverHealth, PowerSourceObserverSnapshot, PowerSourceOperation,
};
use crate::settings::service::SettingsHealth;
use crate::settings::{
    ArtifactWarning, FieldRecovery, LoadCondition, PersistenceCondition, Settings,
    SettingsPersistenceFailure,
};
use crate::text::byte_length;
use crate::updater::{UpdateAvailability, UpdateStatus, UpdaterSnapshot};
use crate::wake_coordinator::{ProtectionState, WakeReason, WakeSnapshot};
use vstd::prelude::*;
use vstd::string::*;

pub mod laws;
pub mod report;
use report::{render, report_lines, BoundedModel, MAX_DIAGNOSTIC_BYTES};

verus! {

/// Which diagnostics can be had.
#[derive(Clone, Copy, Debug, PartialEq, Eq, Structural)]
pub struct DiagnosticsAvailability {
    pub copy: bool,
    pub open_logs: bool,
}

/// Why a diagnostic action was not carried out.
#[derive(Clone, Copy, Debug, PartialEq, Eq, Structural)]
pub enum DiagnosticActionFailure {
    Unavailable,
    Snapshot,
    Clipboard,
    OpenLogs,
}

/// What is known of the life of the program.
#[derive(Clone, Debug, PartialEq, Eq)]
pub struct ApplicationFacts {
    pub status: ApplicationStatus,
    pub unavailable_capabilities: Vec<CapabilityId>,
    pub startup_failure: Option<StartupFailurePoint>,
    pub cleanup_failures: Vec<CapabilityId>,
}

/// What is known of the settings.
#[derive(Clone, Debug, PartialEq, Eq)]
pub struct SettingsFacts {
    pub automatic_download_protection: bool,
    pub protect_on_battery: bool,
    pub launch_at_login: bool,
    pub automatic_update_checks: bool,
    pub threshold_bytes_per_second: u64,
    pub qualification: Duration,
    pub grace: Duration,
    pub load_condition: LoadCondition,
    pub persistence: PersistenceCondition,
    pub field_recoveries: Vec<FieldRecovery>,
    pub artifact_warnings: Vec<ArtifactWarning>,
    pub last_save_failure: Option<SettingsPersistenceFailure>,
}

/// What is known of the manual session.
#[derive(Clone, Copy, Debug, PartialEq, Eq, Structural)]
pub struct ManualFacts {
    pub state: ManualSessionState,
    pub background_failure: bool,
}

/// What is known of the detector.
#[derive(Clone, Copy, Debug, PartialEq, Eq, Structural)]
pub struct DetectorFacts {
    pub state: AutomaticDownloadState,
    pub latest_receive_rate_bytes_per_second: Option<u128>,
}

/// What is known of the automatic protection.
#[derive(Clone, Copy, Debug, PartialEq, Eq, Structural)]
pub struct AutomaticFacts {
    pub preference_enabled: bool,
    pub protect_on_battery: bool,
    pub detector_intent: bool,
    pub desired_automatic_reason: bool,
    pub suppression: Option<AutomaticProtectionSuppression>,
    pub coordination_failure: bool,
}

/// What is known of a failure of the power source's observer.
#[derive(Clone, Copy, Debug, PartialEq, Eq, Structural)]
pub struct PowerFailureFacts {
    pub operation: PowerSourceOperation,
    pub code: Option<u32>,
}

/// What is known of the power source.
#[derive(Clone, Copy, Debug, PartialEq, Eq, Structural)]
pub struct PowerFacts {
    pub source: PowerSource,
    pub health: PowerSourceObserverHealth,
    pub failure: Option<PowerFailureFacts>,
}

/// What is known of the wake coordinator.
#[derive(Clone, Debug, PartialEq, Eq)]
pub struct WakeFacts {
    pub active_reasons: Vec<WakeReason>,
    pub protection: ProtectionState,
}

/// What is known of the network.
#[derive(Clone, Copy, Debug, PartialEq, Eq, Structural)]
pub struct NetworkFacts {
    pub status: NetworkActivitySourceStatus,
    pub failure: Option<NetworkActivityFailure>,
}

/// What is known of a network interface.
#[derive(Clone, Copy, Debug, PartialEq, Eq, Structural)]
pub struct InterfaceFacts {
    pub id: u64,
    pub received_bytes: u64,
    pub recent_delta: Option<u64>,
    pub included: bool,
    pub continuity: NetworkInterfaceContinuity,
}

/// What is known of starting at login.
#[derive(Clone, Copy, Debug, PartialEq, Eq, Structural)]
pub struct LaunchAtLoginFacts {
    pub available: bool,
    pub desired: bool,
    pub observed: Registration,
    pub failure_stage: Option<LaunchAtLoginFailureStage>,
}

/// What is known of the updater.
#[derive(Clone, Debug, PartialEq, Eq)]
pub struct UpdaterFacts {
    pub availability: UpdateAvailability,
    pub automatic_checks: bool,
    pub status: UpdateStatus,
}

/// What is known of the program. A part that there is not yet is missing.
#[derive(Clone, Debug, PartialEq, Eq)]
pub struct DiagnosticInput {
    pub application: ApplicationFacts,
    pub settings: Option<SettingsFacts>,
    pub manual: ManualFacts,
    pub detector: Option<DetectorFacts>,
    pub automatic: Option<AutomaticFacts>,
    pub power: Option<PowerFacts>,
    pub wake: WakeFacts,
    pub network: NetworkFacts,
    pub interfaces: Vec<InterfaceFacts>,
    pub launch_at_login: Option<LaunchAtLoginFacts>,
    pub updater: Option<UpdaterFacts>,
}

/// What the computer is.
#[derive(Clone, Debug, PartialEq, Eq)]
pub struct PlatformInfo {
    pub family: String,
    pub version: String,
    pub architecture: String,
}

/// The facts on a network interface.
pub open spec fn interface_fact(interface: NetworkInterfaceDiagnostic) -> InterfaceFacts {
    InterfaceFacts {
        id: interface.id.0,
        received_bytes: interface.last_observed_receive_bytes,
        recent_delta: interface.recent_delta,
        included: interface.included_in_activity,
        continuity: interface.continuity,
    }
}

fn interface_facts(interfaces: &Vec<NetworkInterfaceDiagnostic>) -> (r: Vec<InterfaceFacts>)
    ensures
        r@ == interfaces@.map_values(
            |interface: NetworkInterfaceDiagnostic| interface_fact(interface),
        ),
{
    let ghost all = interfaces@.map_values(
        |interface: NetworkInterfaceDiagnostic| interface_fact(interface),
    );
    let mut r: Vec<InterfaceFacts> = Vec::new();
    let mut i: usize = 0;
    while i < interfaces.len()
        invariant
            i <= interfaces.len(),
            all == interfaces@.map_values(
                |interface: NetworkInterfaceDiagnostic| interface_fact(interface),
            ),
            r@ == all.take(i as int),
        decreases interfaces.len() - i,
    {
        let interface = interfaces[i];
        r.push(
            InterfaceFacts {
                id: interface.id.0,
                received_bytes: interface.last_observed_receive_bytes,
                recent_delta: interface.recent_delta,
                included: interface.included_in_activity,
                continuity: interface.continuity,
            },
        );
        i = i + 1;
        assert(r@ =~= all.take(i as int));
    }
    assert(all.take(i as int) =~= all);
    r
}

fn copy_list<T: Copy>(list: &Vec<T>) -> (r: Vec<T>)
    ensures
        r@ == list@,
{
    let mut r: Vec<T> = Vec::new();
    let mut i: usize = 0;
    while i < list.len()
        invariant
            i <= list.len(),
            r@ == list@.take(i as int),
        decreases list.len() - i,
    {
        r.push(list[i]);
        i = i + 1;
        assert(r@ =~= list@.take(i as int));
    }
    assert(list@.take(i as int) =~= list@);
    r
}

/// Whether facts are those on settings and their health.
pub open spec fn settings_facts(facts: SettingsFacts, settings: Settings, health: SettingsHealth) -> bool {
    &&& facts.automatic_download_protection == settings@.protection
    &&& facts.protect_on_battery == settings@.on_battery
    &&& facts.launch_at_login == settings@.launch
    &&& facts.automatic_update_checks == settings@.update_checks
    &&& facts.threshold_bytes_per_second == settings@.tuning.rate
    &&& facts.qualification@ == settings@.tuning.qualification
    &&& facts.grace@ == settings@.tuning.grace
    &&& facts.load_condition == health@.condition
    &&& facts.persistence == health@.persistence
    &&& facts.field_recoveries@ == health@.recoveries
    &&& facts.artifact_warnings@ == health@.warnings
    &&& facts.last_save_failure == health@.save_failure
}

impl DiagnosticInput {
    /// Gathers what the parts of the program show of themselves.
    pub fn capture(
        application: &ApplicationSnapshot,
        manual: &ManualSessionSnapshot,
        network: &NetworkActivitySnapshot,
        wake: &WakeSnapshot,
        settings: Option<(&Settings, &SettingsHealth)>,
        detector: Option<&AutomaticDownloadSnapshot>,
        automatic: Option<&AutomaticProtectionSnapshot>,
        power: Option<&PowerSourceObserverSnapshot>,
        launch_at_login: Option<&LaunchAtLoginSnapshot>,
        updater: Option<UpdaterSnapshot>,
    ) -> (r: DiagnosticInput)
        ensures
            r.application.status == application@.status,
            r.application.unavailable_capabilities@ == application@.unavailable,
            r.application.startup_failure == application@.startup_failure,
            r.application.cleanup_failures@ == application@.cleanup,
            r.settings is Some <==> settings is Some,
            settings is Some ==> settings_facts(
                r.settings->0,
                *(settings->0).0,
                *(settings->0).1,
            ),
            r.manual == (ManualFacts {
                state: manual.state,
                background_failure: manual.background_failure is Some,
            }),
            r.detector == match detector {
                Some(detector) => Some(
                    DetectorFacts {
                        state: detector.state,
                        latest_receive_rate_bytes_per_second:
                            detector.latest_receive_rate_bytes_per_second,
                    },
                ),
                None => None,
            },
            r.automatic == match automatic {
                Some(automatic) => Some(
                    AutomaticFacts {
                        preference_enabled:
                            automatic.settings.automatic_download_protection_enabled,
                        protect_on_battery: automatic.settings.protect_on_battery,
                        detector_intent: automatic.detector_intent,
                        desired_automatic_reason: automatic.desired_automatic_reason,
                        suppression: automatic.suppression_reason,
                        coordination_failure: automatic.latest_coordination_failure is Some,
                    },
                ),
                None => None,
            },
            r.power == match power {
                Some(power) => Some(
                    PowerFacts {
                        source: power.source,
                        health: power.health,
                        failure: match power.latest_failure {
                            Some(failure) => Some(
                                PowerFailureFacts {
                                    operation: failure.operation,
                                    code: failure.code,
                                },
                            ),
                            None => None,
                        },
                    },
                ),
                None => None,
            },
            r.wake.active_reasons@ == wake.active_reasons@,
            r.wake.protection == wake.protection_state,
            r.network == (NetworkFacts { status: network.status, failure: network.latest_failure }),
            r.interfaces@ == network.interfaces@.map_values(
                |interface: NetworkInterfaceDiagnostic| interface_fact(interface),
            ),
            r.launch_at_login == match launch_at_login {
                Some(launch) => Some(
                    LaunchAtLoginFacts {
                        available: launch.available,
                        desired: launch.desired,
                        observed: launch.observed,
                        failure_stage: match launch.latest_failure {
                            Some(failure) => Some(failure.stage),
                            None => None,
                        },
                    },
                ),
                None => None,
            },
            r.updater == match updater {
                Some(updater) => Some(
                    UpdaterFacts {
                        availability: updater.availability,
                        automatic_checks: updater.automatic_checks_enabled,
                        status: updater.status,
                    },
                ),
                None => None,
            },
    {
        let settings = match settings {
            Some((settings, health)) => {
                let tuning = settings.automatic_download();
                Some(
                    SettingsFacts {
                        automatic_download_protection:
                            settings.automatic_download_protection_enabled(),
                        protect_on_battery: settings.protect_on_battery(),
                        launch_at_login: settings.launch_at_login(),
                        automatic_update_checks: settings.automatic_update_checks_enabled(),
                        threshold_bytes_per_second:
                            tuning.meaningful_receive_rate_bytes_per_second(),
                        qualification: tuning.activation_qualification(),
                        grace: tuning.grace(),
                        load_condition: health.load_condition,
                        persistence: health.persistence,
                        field_recoveries: copy_list(&health.field_recoveries),
                        artifact_warnings: copy_list(&health.artifact_warnings),
                        last_save_failure: health.last_save_failure,
                    },
                )
            },
            None => None,
        };
        let detector = match detector {
            Some(detector) => Some(
                DetectorFacts {
                    state: detector.state,
                    latest_receive_rate_bytes_per_second:
                        detector.latest_receive_rate_bytes_per_second,
                },
            ),
            None => None,
        };
        let automatic = match automatic {
            Some(automatic) => Some(
                AutomaticFacts {
                    preference_enabled: automatic.settings.automatic_download_protection_enabled,
                    protect_on_battery: automatic.settings.protect_on_battery,
                    detector_intent: automatic.detector_intent,
                    desired_automatic_reason: automatic.desired_automatic_reason,
                    suppression: automatic.suppression_reason,
                    coordination_failure: automatic.latest_coordination_failure.is_some(),
                },
            ),
            None => None,
        };
        let power = match power {
            Some(power) => {
                let failure = match power.latest_failure {
                    Some(failure) => Some(
                        PowerFailureFacts { operation: failure.operation, code: failure.code },
                    ),
                    None => None,
                };
                Some(PowerFacts { source: power.source, health: power.health, failure })
            },
            None => None,
        };
        let launch_at_login = match launch_at_login {
            Some(launch) => {
                let failure_stage = match &launch.latest_failure {
                    Some(failure) => Some(failure.stage),
                    None => None,
                };
                Some(
                    LaunchAtLoginFacts {
                        available: launch.available,
                        desired: launch.desired,
                        observed: launch.observed,
                        failure_stage,
                    },
                )
            },
            None => None,
        };
        let updater = match updater {
            Some(updater) => Some(
                UpdaterFacts {
                    availability: updater.availability,
                    automatic_checks: updater.automatic_checks_enabled,
                    status: updater.status,
                },
            ),
            None => None,
        };
        DiagnosticInput {
            application: ApplicationFacts {
                status: application.status,
                unavailable_capabilities: copy_list(&application.unavailable_capabilities),
                startup_failure: application.startup_failure,
                cleanup_failures: copy_list(&application.cleanup_failures),
            },
            settings,
            manual: ManualFacts {
                state: manual.state,
                background_failure: manual.background_failure.is_some(),
            },
            detector,
            automatic,
            power,
            wake: WakeFacts {
                active_reasons: copy_list(&wake.active_reasons),
                protection: wake.protection_state,
            },
            network: NetworkFacts { status: network.status, failure: network.latest_failure },
            interfaces: interface_facts(&network.interfaces),
            launch_at_login,
            updater,
        }
    }

    /// What is known of a program of which only the status is.
    pub fn minimal(status: ApplicationStatus) -> (r: DiagnosticInput)
        ensures
            r.application.status == status,
            r.application.unavailable_capabilities@.len() == 0,
            r.application.startup_failure is None,
            r.application.cleanup_failures@.len() == 0,
            r.settings is None,
            r.manual == (ManualFacts {
                state: ManualSessionState::Inactive,
                background_failure: false,
            }),
            r.detector is None,
            r.automatic is None,
            r.power is None,
            r.wake.active_reasons@.len() == 0,
            r.wake.protection == ProtectionState::Inactive,
            r.network == (NetworkFacts {
                status: NetworkActivitySourceStatus::NotStarted,
                failure: None,
            }),
            r.interfaces@.len() == 0,
            r.launch_at_login is None,
            r.updater is None,
    {
        DiagnosticInput {
            application: ApplicationFacts {
                status,
                unavailable_capabilities: Vec::new(),
                startup_failure: None,
                cleanup_failures: Vec::new(),
            },
            settings: None,
            manual: ManualFacts { state: ManualSessionState::Inactive, background_failure: false },
            detector: None,
            automatic: None,
            power: None,
            wake: WakeFacts { active_reasons: Vec::new(), protection: ProtectionState::Inactive },
            network: NetworkFacts {
                status: NetworkActivitySourceStatus::NotStarted,
                failure: None,
            },
            interfaces: Vec::new(),
            launch_at_login: None,
            updater: None,
        }
    }
}

/// What is logged of a diagnostic action.
pub open spec fn action_log(action: &'static str, outcome: EventOutcome) -> SafeEvent {
    SafeEvent::DiagnosticsAction { action, outcome }
}

/// The diagnostics: whether there is a clipboard, and whether the program
/// still takes requests for them.
#[derive(Clone, Copy, Debug, PartialEq, Eq, Structural)]
pub struct DiagnosticsService {
    pub clipboard: bool,
    pub accepting: bool,
}

impl DiagnosticsService {
    /// Diagnostics that can be asked for.
    pub fn new(clipboard: bool) -> (r: DiagnosticsService)
        ensures
            r == (DiagnosticsService { clipboard, accepting: true }),
    {
        DiagnosticsService { clipboard, accepting: true }
    }

    /// Which diagnostics can be had.
    pub open spec fn offers(self, log: LocalLog) -> DiagnosticsAvailability {
        DiagnosticsAvailability {
            copy: self.accepting && self.clipboard,
            open_logs: self.accepting && log@.health == LoggingHealth::Available
                && log@.directory is Some,
        }
    }

    /// Which diagnostics can be had.
    pub fn availability(&self, log: &LocalLog) -> (r: DiagnosticsAvailability)
        ensures
            r == self.offers(*log),
    {
        DiagnosticsAvailability {
            copy: self.accepting && self.clipboard,
            open_logs: self.accepting && log.directory().is_some(),
        }
    }

    /// Begins to copy the report. What is no longer to be had is refused,
    /// though a menu may still offer it.
    pub fn copy(&self, log: &LocalLog, events: &mut Vec<SafeEvent>) -> (r: Result<
        (),
        DiagnosticActionFailure,
    >)
        ensures
            self.offers(*log).copy ==> r is Ok && final(events)@ == old(events)@,
            !self.offers(*log).copy ==> {
                &&& r == Err::<(), DiagnosticActionFailure>(DiagnosticActionFailure::Unavailable)
                &&& final(events)@ == old(events)@.push(action_log("copy", EventOutcome::Rejected))
            },
    {
        if !self.availability(log).copy {
            events.push(
                SafeEvent::DiagnosticsAction { action: "copy", outcome: EventOutcome::Rejected },
            );
            return Err(DiagnosticActionFailure::Unavailable);
        }
        Ok(())
    }

    /// The report, where what is known of the program could be gathered.
    pub fn report(
        input: Option<&DiagnosticInput>,
        generated_at: &str,
        platform: &PlatformInfo,
        logging_health: LoggingHealth,
    ) -> (r: Result<String, DiagnosticActionFailure>)
        ensures
            match input {
                None => r == Err::<String, DiagnosticActionFailure>(
                    DiagnosticActionFailure::Snapshot,
                ),
                Some(input) => {
                    &&& r is Ok
                    &&& r->Ok_0@ == BoundedModel::empty().with_lines(
                        report_lines(*input, generated_at@, *platform, logging_health),
                    ).finished()
                    &&& byte_length(r->Ok_0@) <= MAX_DIAGNOSTIC_BYTES
                },
            },
    {
        match input {
            None => Err(DiagnosticActionFailure::Snapshot),
            Some(input) => Ok(render(input, generated_at, platform, logging_health)),
        }
    }

    /// Ends copying the report, from the report and whether the clipboard took
    /// it.
    pub fn copied(
        report: Result<String, DiagnosticActionFailure>,
        written: bool,
        events: &mut Vec<SafeEvent>,
    ) -> (r: Result<String, DiagnosticActionFailure>)
        ensures
            r == match report {
                Err(failure) => Err::<String, DiagnosticActionFailure>(failure),
                Ok(text) => if written {
                    Ok::<String, DiagnosticActionFailure>(text)
                } else {
                    Err::<String, DiagnosticActionFailure>(DiagnosticActionFailure::Clipboard)
                },
            },
            final(events)@ == old(events)@.push(
                action_log(
                    "copy",
                    if r is Ok {
                        EventOutcome::Succeeded
                    } else {
                        EventOutcome::Failed
                    },
                ),
            ),
    {
        let result = match report {
            Err(failure) => Err(failure),
            Ok(text) => if written {
                Ok(text)
            } else {
                Err(DiagnosticActionFailure::Clipboard)
            },
        };
        let outcome = if result.is_ok() {
            EventOutcome::Succeeded
        } else {
            EventOutcome::Failed
        };
        events.push(SafeEvent::DiagnosticsAction { action: "copy", outcome });
        result
    }

    /// The directory of the log, which is to be opened.
    pub fn open_logs(&self, log: &LocalLog, events: &mut Vec<SafeEvent>) -> (r: Result<
        String,
        DiagnosticActionFailure,
    >)
        ensures
            self.offers(*log).open_logs ==> {
                &&& r is Ok
                &&& r->Ok_0@ == log@.directory->0
                &&& final(events)@ == old(events)@
            },
            !self.offers(*log).open_logs ==> {
                &&& r == Err::<String, DiagnosticActionFailure>(
                    DiagnosticActionFailure::Unavailable,
                )
                &&& final(events)@ == old(events)@.push(
                    action_log("open-logs", EventOutcome::Rejected),
                )
            },
    {
        if self.accepting {
            match log.directory() {
                Some(directory) => {
                    return Ok(String::from_str(directory));
                },
                None => {},
            }
        }
        events.push(
            SafeEvent::DiagnosticsAction { action: "open-logs", outcome: EventOutcome::Rejected },
        );
        Err(DiagnosticActionFailure::Unavailable)
    }

    /// Ends opening the directory of the log.
    pub fn logs_opened(opened: bool, events: &mut Vec<SafeEvent>) -> (r: Result<
        (),
        DiagnosticActionFailure,
    >)
        ensures
            r == if opened {
                Ok::<(), DiagnosticActionFailure>(())
            } else {
                Err::<(), DiagnosticActionFailure>(DiagnosticActionFailure::OpenLogs)
            },
            final(events)@ == old(events)@.push(
                action_log(
                    "open-logs",
                    if opened {
                        EventOutcome::Succeeded
                    } else {
                        EventOutcome::Failed
                    },
                ),
            ),
    {
        if opened {
            events.push(
                SafeEvent::DiagnosticsAction {
                    action: "open-logs",
                    outcome: EventOutcome::Succeeded,
                },
            );
            Ok(())
        } else {
            events.push(
                SafeEvent::DiagnosticsAction { action: "open-logs", outcome: EventOutcome::Failed },
            );
            Err(DiagnosticActionFailure::OpenLogs)
        }
    }

    /// Takes no more requests.
    pub fn begin_shutdown(&mut self)
        ensures
            *final(self) == (DiagnosticsService { accepting: false, ..*old(self) }),
    {
        self.accepting = false;
    }
}

/// Once the program ends, no diagnostics are to be had.
pub proof fn ending_offers_nothing(service: DiagnosticsService, log: LocalLog)
    requires
        !service.accepting,
    ensures
        service.offers(log) == (DiagnosticsAvailability { copy: false, open_logs: false }),
{
}

} // verus!
