//! The parts of the program put together: in which order they are started,
//! what each start takes, and what they show together.

use crate::application::{
    ApplicationLifecycle, ApplicationSnapshot, ApplicationStatus, CapabilityId, LifecycleModel,
    LifecyclePhase, LifecyclePlan, LifecycleStep, Participant,
};
use crate::automatic_download::{
    at_rest, shows_monitor, tuning_update, AutomaticDownloadMonitor, AutomaticDownloadSettings,
    AutomaticDownloadSnapshot, AutomaticDownloadTuningService, MonitorModel, TuningModel,
    TuningStep,
};
use crate::automatic_protection::{
    AutomaticProtectionController, AutomaticProtectionService, AutomaticProtectionSettings,
    PowerSource, ProtectionModel,
};
use crate::diagnostics::{
    interface_fact, AutomaticFacts, DiagnosticInput, DiagnosticsService, NetworkFacts, PowerFacts,
    PowerFailureFacts,
};
use crate::duration::{Duration, NANOS_PER_SECOND};
use crate::launch_at_login::{
    LaunchAtLoginFailure, LaunchAtLoginService, LaunchModel, Registration,
};
use crate::local_log::LocalLog;
use crate::manual_session::{
    shows, IntentModel, ManualSession, ManualSessionCommand, SessionModel,
};
use crate::network_activity::{
    NetworkActivitySource, NetworkActivitySourceStatus, NetworkInterfaceDiagnostic, SourceModel,
};
use crate::power_source::{
    PowerSourceObserver, PowerSourceObserverHealth, PowerSourceObserverSnapshot,
};
use crate::settings::service::SettingsService;
use crate::settings::{Settings, SettingsModel, SettingsUpdate, SettingsUpdateError};
use crate::tray::command::TrayCommand;
use crate::tray::{alert_of, shows_diagnostics, shows_lifecycle, TrayApplication, TrayInput, TrayView};
use crate::updater::UpdaterSnapshot;
use crate::wake_coordinator::{reasons_in_order, ProtectionState, WakeCoordinator};
use vstd::prelude::*;
use vstd::string::*;

pub mod laws;

verus! {

/// The capabilities in the order in which they are started. Downloads are
/// watched once it is settled what they may lead to, and protection is the
/// first to be there and the last to go.
pub open spec fn product_plan() -> Seq<Participant> {
    seq![
        Participant { capability: CapabilityId("wake-coordination"), required: true },
        Participant { capability: CapabilityId("manual-session"), required: true },
        Participant { capability: CapabilityId("automatic-download"), required: true },
        Participant { capability: CapabilityId("launch-at-login"), required: false },
        Participant { capability: CapabilityId("power-source"), required: false },
        Participant { capability: CapabilityId("network-activity"), required: false },
        Participant { capability: CapabilityId("updater"), required: false },
    ]
}

/// The capabilities in the order in which they are started.
pub fn lifecycle_plan() -> (r: LifecyclePlan)
    ensures
        r.participants@ == product_plan(),
{
    let plan = LifecyclePlan::new().required(CapabilityId::new("wake-coordination")).required(
        CapabilityId::new("manual-session"),
    ).required(CapabilityId::new("automatic-download")).optional(
        CapabilityId::new("launch-at-login"),
    ).optional(CapabilityId::new("power-source")).optional(
        CapabilityId::new("network-activity"),
    ).optional(CapabilityId::new("updater"));
    assert(plan.participants@ =~= product_plan());
    plan
}

/// The parts that deal with downloads.
#[derive(Debug)]
pub struct AutomaticSubsystem {
    pub monitor: AutomaticDownloadMonitor,
    pub controller: AutomaticProtectionController,
    pub power_source: PowerSourceObserver,
}

/// What a command of the tray comes to.
#[derive(Clone, Copy, Debug, PartialEq, Eq, Structural)]
pub enum ProductRequest {
    /// Nothing is to be done.
    Nothing,
    /// The manual session is to take a command.
    Manual(ManualSessionCommand),
    /// A change of the settings is to be saved, and then followed by the
    /// controller.
    Protection(SettingsUpdate),
    /// The wish to be started at login is to be saved, and then registered.
    LaunchAtLogin(SettingsUpdate),
    /// A tuning is to be saved, and then taken over by the detector.
    Tuning { update: SettingsUpdate, tuning: AutomaticDownloadSettings },
    /// The automatic search for updates is to be switched over.
    ToggleAutomaticUpdates,
    /// Updates are to be searched for.
    CheckUpdates,
    /// The update that was found is to be installed.
    InstallUpdate,
}

/// Whether a command is for the parts of the program, and not for the tray or
/// the diagnostics.
pub open spec fn for_the_parts(command: TrayCommand) -> bool {
    !(command is CopyDiagnostics) && !(command is OpenLogs) && !(command is Quit)
}

/// Whether a request gives a detector another tuning, or nothing where it has
/// that tuning.
pub open spec fn tunes(request: ProductRequest, monitor: MonitorModel, tuning: TuningModel) -> bool {
    if tuning == monitor.tuning {
        request == ProductRequest::Nothing
    } else {
        &&& request is Tuning
        &&& request->update == tuning_update(tuning)
        &&& request->tuning@ == tuning
    }
}

/// Whether a request is what a command comes to with the given parts. What is
/// switched over is switched from what is in force for the controller, and
/// from what is saved for starting at login.
pub open spec fn serves(
    request: ProductRequest,
    parts: ProductComposition,
    command: TrayCommand,
) -> bool {
    let controller = parts.automatic->0.controller@;
    let monitor = parts.automatic->0.monitor@;
    match command {
        TrayCommand::ToggleAutomaticProtection => request == ProductRequest::Protection(
            SettingsUpdate::AutomaticDownloadProtectionEnabled(
                !controller.settings.automatic_download_protection_enabled,
            ),
        ),
        TrayCommand::ToggleProtectOnBattery => request == ProductRequest::Protection(
            SettingsUpdate::ProtectOnBattery(!controller.settings.protect_on_battery),
        ),
        TrayCommand::ToggleLaunchAtLogin => request
            == if parts.launch_at_login->0@.backend is Some {
            ProductRequest::Nothing
        } else {
            ProductRequest::LaunchAtLogin(
                SettingsUpdate::LaunchAtLogin(!parts.settings->0@.settings.launch),
            )
        },
        TrayCommand::ToggleAutomaticUpdates => request == ProductRequest::ToggleAutomaticUpdates,
        TrayCommand::CheckUpdates => request == ProductRequest::CheckUpdates,
        TrayCommand::InstallUpdate => request == ProductRequest::InstallUpdate,
        TrayCommand::Manual(command) => request == ProductRequest::Manual(command),
        TrayCommand::SetThreshold(threshold) => tunes(
            request,
            monitor,
            TuningModel { rate: threshold.rate() as nat, ..monitor.tuning },
        ),
        TrayCommand::SetGrace(grace) => tunes(
            request,
            monitor,
            TuningModel { grace: (grace.seconds() * NANOS_PER_SECOND) as nat, ..monitor.tuning },
        ),
        TrayCommand::CopyDiagnostics | TrayCommand::OpenLogs | TrayCommand::Quit => request
            == ProductRequest::Nothing,
    }
}

/// The parts of the program, as far as there are any yet.
#[derive(Debug)]
pub struct ProductComposition {
    pub settings: Option<SettingsService>,
    pub automatic: Option<AutomaticSubsystem>,
    pub launch_at_login: Option<LaunchAtLoginService>,
    pub updater_registered: bool,
    pub manual: ManualSession,
    pub network: NetworkActivitySource,
    pub wake: WakeCoordinator,
}

impl ProductComposition {
    /// Whether all parts are there.
    pub open spec fn is_complete(self) -> bool {
        self.settings is Some && self.automatic is Some && self.launch_at_login is Some
            && self.updater_registered
    }

    /// The parts that are there from the beginning.
    pub fn new() -> (r: ProductComposition)
        ensures
            r.settings is None,
            r.automatic is None,
            r.launch_at_login is None,
            !r.updater_registered,
            r.manual@ == (SessionModel {
                intent: IntentModel::Inactive,
                background_failure: None,
                accepting: true,
                scheduler_started: false,
            }),
            r.network@ == (SourceModel {
                started: false,
                connected: false,
                status: NetworkActivitySourceStatus::NotStarted,
                failure: None,
                interfaces: Seq::empty(),
            }),
            r.wake == (WakeCoordinator {
                automatic: false,
                manual: false,
                protection: ProtectionState::Inactive,
            }),
    {
        ProductComposition {
            settings: None,
            automatic: None,
            launch_at_login: None,
            updater_registered: false,
            manual: ManualSession::new(),
            network: NetworkActivitySource::new(),
            wake: WakeCoordinator::new(),
        }
    }

    /// Whether all parts are there.
    pub fn operational(&self) -> (r: bool)
        ensures
            r == self.is_complete(),
    {
        self.settings.is_some() && self.automatic.is_some() && self.launch_at_login.is_some()
            && self.updater_registered
    }

    /// Takes over the settings, once.
    pub fn restore_settings(&mut self, settings: SettingsService) -> (r: Result<(), String>)
        ensures
            old(self).settings is Some ==> {
                &&& r is Err
                &&& r->Err_0@ == "settings initialized more than once"@
                &&& *final(self) == *old(self)
            },
            old(self).settings is None ==> {
                &&& r is Ok
                &&& *final(self) == (ProductComposition { settings: Some(settings), ..*old(self) })
            },
    {
        if self.settings.is_some() {
            return Err(String::from_str("settings initialized more than once"));
        }
        self.settings = Some(settings);
        Ok(())
    }

    /// Sets up the parts that deal with downloads, once, with the settings
    /// that were restored.
    pub fn start_automatic(&mut self, restored: &Settings) -> (r: Result<(), String>)
        ensures
            old(self).automatic is Some ==> {
                &&& r is Err
                &&& r->Err_0@ == "automatic subsystem initialized more than once"@
                &&& *final(self) == *old(self)
            },
            old(self).automatic is None ==> {
                &&& r is Ok
                &&& final(self).automatic is Some
                &&& *final(self) == (ProductComposition {
                    automatic: final(self).automatic,
                    ..*old(self)
                })
                &&& fresh_subsystem(final(self).automatic->0, restored@)
            },
    {
        if self.automatic.is_some() {
            return Err(String::from_str("automatic subsystem initialized more than once"));
        }
        let controller = AutomaticProtectionController::new(
            AutomaticProtectionSettings::from_settings(restored),
        );
        self.automatic =
        Some(
            AutomaticSubsystem {
                monitor: AutomaticDownloadMonitor::new(restored.automatic_download()),
                controller,
                power_source: PowerSourceObserver::new(),
            },
        );
        Ok(())
    }

    /// Takes over starting at login, once, or that it cannot be had: then it
    /// is there to be shown, but counts as not started.
    pub fn register_launch_at_login(
        &mut self,
        initialized: Result<LaunchAtLoginService, LaunchAtLoginFailure>,
    ) -> (r: Result<(), String>)
        ensures
            old(self).launch_at_login is Some ==> {
                &&& r is Err
                &&& r->Err_0@ == "launch-at-login facade initialized more than once"@
                &&& *final(self) == *old(self)
            },
            old(self).launch_at_login is None ==> {
                &&& final(self).launch_at_login is Some
                &&& *final(self) == (ProductComposition {
                    launch_at_login: final(self).launch_at_login,
                    ..*old(self)
                })
                &&& match initialized {
                    Ok(service) => r is Ok && final(self).launch_at_login->0 == service,
                    Err(failure) => {
                        &&& r is Err
                        &&& r->Err_0@ == failure@.words()
                        &&& final(self).launch_at_login->0@ == (LaunchModel {
                            backend: Some(failure@),
                            observed: Registration::Unknown,
                            failure: Some(failure@),
                        })
                    },
                }
            },
    {
        if self.launch_at_login.is_some() {
            return Err(String::from_str("launch-at-login facade initialized more than once"));
        }
        match initialized {
            Ok(service) => {
                self.launch_at_login = Some(service);
                Ok(())
            },
            Err(failure) => {
                let message = failure.message();
                self.launch_at_login = Some(LaunchAtLoginService::unavailable(failure));
                Err(message)
            },
        }
    }

    /// Whether the power source may be observed: only once it is settled what
    /// it leads to.
    pub fn power_source_ready(&self) -> (r: Result<(), String>)
        ensures
            r is Ok <==> self.automatic is Some,
            r is Err ==> r->Err_0@
                == "automatic policy was not initialized before power observation"@,
    {
        if self.automatic.is_some() {
            Ok(())
        } else {
            Err(
                String::from_str(
                    "automatic policy was not initialized before power observation",
                ),
            )
        }
    }

    /// Whether the network may be watched: only once there is a detector.
    pub fn network_ready(&self) -> (r: Result<(), String>)
        ensures
            r is Ok <==> self.automatic is Some,
            r is Err ==> r->Err_0@
                == "automatic detection was not initialized before network startup"@,
    {
        if self.automatic.is_some() {
            Ok(())
        } else {
            Err(
                String::from_str(
                    "automatic detection was not initialized before network startup",
                ),
            )
        }
    }

    /// Takes over the updater, once. One that could not be set up is there to
    /// be shown, but counts as not started.
    pub fn register_updater(&mut self, failure: Option<String>) -> (r: Result<(), String>)
        ensures
            old(self).updater_registered ==> {
                &&& r is Err
                &&& r->Err_0@ == "updater facade initialized more than once"@
                &&& *final(self) == *old(self)
            },
            !old(self).updater_registered ==> {
                &&& *final(self) == (ProductComposition { updater_registered: true, ..*old(self) })
                &&& match failure {
                    Some(message) => r == Err::<(), String>(message),
                    None => r is Ok,
                }
            },
    {
        if self.updater_registered {
            return Err(String::from_str("updater facade initialized more than once"));
        }
        self.updater_registered = true;
        match failure {
            Some(message) => Err(message),
            None => Ok(()),
        }
    }

    /// What a command comes to, where all parts are there. A wish that is
    /// refused at once, or that is already fulfilled, comes to nothing.
    pub fn execute(&self, command: TrayCommand) -> (r: ProductRequest)
        requires
            self.is_complete(),
            self.automatic->0.monitor@.tuning.fits_milliseconds(),
            for_the_parts(command),
        ensures
            serves(r, *self, command),
    {
        match (&self.settings, &self.automatic, &self.launch_at_login) {
            (Some(settings), Some(automatic), Some(launch_at_login)) => match command {
                TrayCommand::ToggleAutomaticProtection => ProductRequest::Protection(
                    AutomaticProtectionService::toggle_automatic_download_protection(
                        &automatic.controller,
                    ),
                ),
                TrayCommand::ToggleProtectOnBattery => ProductRequest::Protection(
                    AutomaticProtectionService::toggle_protect_on_battery(&automatic.controller),
                ),
                TrayCommand::ToggleLaunchAtLogin => {
                    let wished = settings.snapshot().launch_at_login();
                    match launch_at_login.toggle(wished) {
                        Ok(update) => ProductRequest::LaunchAtLogin(update),
                        Err(_) => ProductRequest::Nothing,
                    }
                },
                TrayCommand::ToggleAutomaticUpdates => ProductRequest::ToggleAutomaticUpdates,
                TrayCommand::CheckUpdates => ProductRequest::CheckUpdates,
                TrayCommand::InstallUpdate => ProductRequest::InstallUpdate,
                TrayCommand::Manual(command) => ProductRequest::Manual(command),
                TrayCommand::SetThreshold(threshold) => Self::tuned(
                    AutomaticDownloadTuningService::set_threshold(
                        &automatic.monitor,
                        threshold.bytes_per_second(),
                    ),
                ),
                TrayCommand::SetGrace(grace) => Self::tuned(
                    AutomaticDownloadTuningService::set_grace(
                        &automatic.monitor,
                        grace.duration(),
                    ),
                ),
                TrayCommand::CopyDiagnostics | TrayCommand::OpenLogs | TrayCommand::Quit => {
                    ProductRequest::Nothing
                },
            },
            _ => ProductRequest::Nothing,
        }
    }

    fn tuned(step: Result<TuningStep, SettingsUpdateError>) -> (r: ProductRequest)
        ensures
            r == match step {
                Ok(TuningStep::Persist { update, tuning }) => ProductRequest::Tuning {
                    update,
                    tuning,
                },
                _ => ProductRequest::Nothing,
            },
    {
        match step {
            Ok(TuningStep::Persist { update, tuning }) => ProductRequest::Tuning { update, tuning },
            _ => ProductRequest::Nothing,
        }
    }

    /// What the menu is made from at a time, where all parts are there.
    pub fn tray_input(
        &self,
        application_status: ApplicationStatus,
        now: Duration,
        updater: UpdaterSnapshot,
    ) -> (r: Option<TrayInput>)
        ensures
            r is Some <==> self.is_complete(),
            r is Some ==> collects(r->0, *self, application_status, now@, updater),
    {
        if !self.updater_registered {
            return None;
        }
        match (&self.settings, &self.automatic, &self.launch_at_login) {
            (Some(settings), Some(automatic), Some(launch_at_login)) => {
                let manual = self.manual.snapshot(now);
                let detector = automatic.monitor.snapshot();
                let controller = automatic.controller.snapshot();
                let network = self.network.snapshot();
                let power = automatic.power_source.snapshot();
                let launch = launch_at_login.snapshot(settings.snapshot().launch_at_login());
                let health = settings.health();
                let wake = self.wake.snapshot();
                Some(
                    TrayInput::collect(
                        application_status,
                        &manual,
                        &detector,
                        &controller,
                        &network,
                        &power,
                        &launch,
                        updater,
                        &health,
                        &wake,
                    ),
                )
            },
            _ => None,
        }
    }

    /// Gathers what the parts that are there show of themselves at a time.
    pub fn capture(
        &self,
        application: &ApplicationSnapshot,
        now: Duration,
        updater: Option<UpdaterSnapshot>,
    ) -> (r: DiagnosticInput)
        ensures
            captures(r, *self, *application, now@),
            r.updater is Some <==> self.updater_registered && updater is Some,
            r.updater is Some ==> {
                &&& r.updater->0.availability == updater->0.availability
                &&& r.updater->0.automatic_checks == updater->0.automatic_checks_enabled
                &&& r.updater->0.status == updater->0.status
            },
    {
        let manual = self.manual.snapshot(now);
        let network = self.network.snapshot();
        let settings = match &self.settings {
            Some(service) => Some((service.snapshot(), service.health())),
            None => None,
        };
        let settings = match &settings {
            Some((settings, health)) => Some((settings, health)),
            None => None,
        };
        let (detector, controller, power) = match &self.automatic {
            Some(automatic) => (
                Some(automatic.monitor.snapshot()),
                Some(automatic.controller.snapshot()),
                Some(automatic.power_source.snapshot()),
            ),
            None => (None, None, None),
        };
        let launch = match (&self.launch_at_login, &self.settings) {
            (Some(launch), Some(service)) => Some(
                launch.snapshot(service.snapshot().launch_at_login()),
            ),
            _ => None,
        };
        let updater = if self.updater_registered {
            updater
        } else {
            None
        };
        let wake = self.wake.snapshot();
        DiagnosticInput::capture(
            application,
            &manual,
            &network,
            &wake,
            settings,
            detector.as_ref(),
            controller.as_ref(),
            power.as_ref(),
            launch.as_ref(),
            updater,
        )
    }
}

/// Whether the parts that deal with downloads are as they start with restored
/// settings.
pub open spec fn fresh_subsystem(automatic: AutomaticSubsystem, restored: SettingsModel) -> bool {
    &&& automatic.monitor@ == (MonitorModel {
        phase: at_rest(),
        rate: None,
        tuning: restored.tuning,
    })
    &&& automatic.controller@ == (ProtectionModel {
        intent: false,
        settings: AutomaticProtectionSettings::of(restored),
        power: PowerSource::Unknown,
        commanded: false,
        failure: None,
    })
    &&& automatic.power_source.state == (PowerSourceObserverSnapshot {
        source: PowerSource::Unknown,
        health: PowerSourceObserverHealth::Starting,
        latest_failure: None,
    })
}

/// Whether what the menu is made from is what the parts show at a time.
pub open spec fn collects(
    input: TrayInput,
    parts: ProductComposition,
    status: ApplicationStatus,
    now: nat,
    updater: UpdaterSnapshot,
) -> bool {
    let settings = parts.settings->0@;
    let launch = parts.launch_at_login->0@;
    let monitor = parts.automatic->0.monitor@;
    let controller = parts.automatic->0.controller@;
    let power = parts.automatic->0.power_source.state;
    &&& input.application_status == status
    &&& shows(input.manual_state, parts.manual@.intent, now)
    &&& input.manual_failure == (parts.manual@.background_failure is Some)
    &&& shows_monitor(
        AutomaticDownloadSnapshot {
            state: input.detector_state,
            latest_receive_rate_bytes_per_second: input.receive_rate,
            settings: input.tuning,
        },
        monitor,
    )
    &&& input.automatic_settings == controller.settings
    &&& input.detector_intent == controller.intent
    &&& input.desired_automatic_reason == controller.desired()
    &&& input.suppression == controller.suppression()
    &&& input.automatic_failure == (controller.failure is Some)
    &&& input.network_status == parts.network@.status
    &&& input.network_failure == (parts.network@.failure is Some)
    &&& input.power_source == controller.power
    &&& input.power_health == power.health
    &&& input.power_failure == (power.latest_failure is Some)
    &&& input.settings_alert == alert_of(settings.health)
    &&& input.launch_at_login_available == (launch.backend is None)
    &&& input.launch_at_login_desired == settings.settings.launch
    &&& input.launch_at_login_observed == launch.observed
    &&& input.launch_at_login_failure == match launch.failure {
        Some(failure) => Some(failure.stage),
        None => None,
    }
    &&& input.updater == updater
    &&& input.wake_reasons@ == reasons_in_order(parts.wake.automatic, parts.wake.manual)
    &&& input.protection == parts.wake.protection
}

/// Whether what is gathered is what the parts that are there show at a time,
/// apart from the updater.
pub open spec fn captures(
    input: DiagnosticInput,
    parts: ProductComposition,
    application: ApplicationSnapshot,
    now: nat,
) -> bool {
    &&& input.application.status == application@.status
    &&& input.application.unavailable_capabilities@ == application@.unavailable
    &&& input.application.startup_failure == application@.startup_failure
    &&& input.application.cleanup_failures@ == application@.cleanup
    &&& input.settings is Some <==> parts.settings is Some
    &&& input.settings is Some ==> {
        let facts = input.settings->0;
        let service = parts.settings->0@;
        &&& facts.automatic_download_protection == service.settings.protection
        &&& facts.protect_on_battery == service.settings.on_battery
        &&& facts.launch_at_login == service.settings.launch
        &&& facts.automatic_update_checks == service.settings.update_checks
        &&& facts.threshold_bytes_per_second == service.settings.tuning.rate
        &&& facts.qualification@ == service.settings.tuning.qualification
        &&& facts.grace@ == service.settings.tuning.grace
        &&& facts.load_condition == service.health.condition
        &&& facts.persistence == service.health.persistence
        &&& facts.field_recoveries@ == service.health.recoveries
        &&& facts.artifact_warnings@ == service.health.warnings
        &&& facts.last_save_failure == service.health.save_failure
    }
    &&& shows(input.manual.state, parts.manual@.intent, now)
    &&& input.manual.background_failure == (parts.manual@.background_failure is Some)
    &&& input.detector is Some <==> parts.automatic is Some
    &&& input.automatic is Some <==> parts.automatic is Some
    &&& input.power is Some <==> parts.automatic is Some
    &&& parts.automatic is Some ==> {
        let monitor = parts.automatic->0.monitor@;
        let controller = parts.automatic->0.controller@;
        let power = parts.automatic->0.power_source.state;
        &&& exists|snapshot: AutomaticDownloadSnapshot| #[trigger]
            shows_monitor(snapshot, monitor) && input.detector->0.state == snapshot.state
                && input.detector->0.latest_receive_rate_bytes_per_second
                == snapshot.latest_receive_rate_bytes_per_second
        &&& input.automatic->0 == (AutomaticFacts {
            preference_enabled: controller.settings.automatic_download_protection_enabled,
            protect_on_battery: controller.settings.protect_on_battery,
            detector_intent: controller.intent,
            desired_automatic_reason: controller.desired(),
            suppression: controller.suppression(),
            coordination_failure: controller.failure is Some,
        })
        &&& input.power->0 == (PowerFacts {
            source: power.source,
            health: power.health,
            failure: match power.latest_failure {
                Some(failure) => Some(
                    PowerFailureFacts { operation: failure.operation, code: failure.code },
                ),
                None => None,
            },
        })
    }
    &&& input.wake.active_reasons@ == reasons_in_order(parts.wake.automatic, parts.wake.manual)
    &&& input.wake.protection == parts.wake.protection
    &&& input.network == (NetworkFacts {
        status: parts.network@.status,
        failure: parts.network@.failure,
    })
    &&& input.interfaces@ == parts.network@.interfaces.map_values(
        |interface: NetworkInterfaceDiagnostic| interface_fact(interface),
    )
    &&& input.launch_at_login is Some <==> parts.launch_at_login is Some && parts.settings is Some
    &&& input.launch_at_login is Some ==> {
        let facts = input.launch_at_login->0;
        let launch = parts.launch_at_login->0@;
        &&& facts.available == (launch.backend is None)
        &&& facts.desired == parts.settings->0@.settings.launch
        &&& facts.observed == launch.observed
        &&& facts.failure_stage == match launch.failure {
            Some(failure) => Some(failure.stage),
            None => None,
        }
    }
}

/// The program: its life, its parts, its diagnostics and its tray.
#[derive(Debug)]
pub struct ProductRuntime {
    pub lifecycle: ApplicationLifecycle,
    pub composition: ProductComposition,
    pub diagnostics: DiagnosticsService,
    pub tray: TrayApplication,
}

impl ProductRuntime {
    /// A program that has not begun to start.
    pub fn build(clipboard: bool) -> (r: ProductRuntime)
        ensures
            r.lifecycle@ == LifecycleModel::planned(product_plan()),
            r.composition.settings is None,
            r.composition.automatic is None,
            r.composition.launch_at_login is None,
            !r.composition.updater_registered,
            r.diagnostics == (DiagnosticsService { clipboard, accepting: true }),
            !r.tray.activated,
    {
        ProductRuntime {
            lifecycle: lifecycle_plan().build(),
            composition: ProductComposition::new(),
            diagnostics: DiagnosticsService::new(clipboard),
            tray: TrayApplication::new(),
        }
    }

    /// Gives the tray its parts, once the program has started.
    pub fn activate(&mut self)
        requires
            old(self).composition.is_complete(),
            !old(self).tray.activated,
        ensures
            *final(self) == (ProductRuntime {
                tray: TrayApplication { activated: true },
                ..*old(self)
            }),
    {
        self.tray.activate();
    }

    /// Announces the end: diagnostics are refused from now on, and so are the
    /// commands of the tray.
    pub fn begin_shutdown(&mut self)
        ensures
            final(self).diagnostics == (DiagnosticsService {
                accepting: false,
                ..old(self).diagnostics
            }),
            final(self).lifecycle@ == if old(self).lifecycle@.ending() {
                old(self).lifecycle@
            } else {
                old(self).lifecycle@.with_status(ApplicationStatus::ShuttingDown)
            },
            final(self).composition == old(self).composition,
            final(self).tray == old(self).tray,
    {
        self.diagnostics.begin_shutdown();
        let announced = self.lifecycle.request_shutdown();
    }

    /// Begins to stop what was started.
    pub fn shutdown(&mut self) -> (r: LifecycleStep)
        requires
            old(self).lifecycle@.phase == LifecyclePhase::Idle,
        ensures
            final(self).diagnostics == (DiagnosticsService {
                accepting: false,
                ..old(self).diagnostics
            }),
            (final(self).lifecycle@, r@) == old(self).lifecycle@.stopping(),
            final(self).composition == old(self).composition,
            final(self).tray == old(self).tray,
    {
        self.begin_shutdown();
        self.lifecycle.shutdown()
    }

    /// The menu at a time.
    pub fn view(&self, now: Duration, updater: UpdaterSnapshot, log: &LocalLog) -> (r: TrayView)
        ensures
            self.tray.activated && self.composition.is_complete() ==> exists|input: TrayInput|
                {
                    &&& #[trigger] collects(
                        input,
                        self.composition,
                        self.lifecycle@.state.status,
                        now@,
                        updater,
                    )
                    &&& crate::tray::shows(r, input)
                },
            !(self.tray.activated && self.composition.is_complete()) ==> shows_lifecycle(
                r,
                self.lifecycle@.state.status,
            ),
            shows_diagnostics(r.diagnostics, self.diagnostics.offers(*log)),
    {
        let status = self.lifecycle.state().status;
        let availability = self.diagnostics.availability(log);
        let input = if self.tray.activated {
            self.composition.tray_input(status, now, updater)
        } else {
            None
        };
        TrayApplication::view(input.as_ref(), status, availability)
    }
}

/// Every capability that the program cannot do without is started before any
/// that it can, and protection is the first of all, so that it is the last to
/// be stopped.
pub proof fn required_capabilities_come_first(i: int, j: int)
    requires
        0 <= i < product_plan().len(),
        0 <= j < product_plan().len(),
        product_plan()[i].required,
        !product_plan()[j].required,
    ensures
        i < j,
        product_plan()[0].capability == CapabilityId("wake-coordination"),
{
}

/// When downloads begin to be watched, what they may lead to has long been
/// settled by the restored settings: the parts that deal with downloads are
/// set up before the power source is observed and before the network is
/// watched.
pub proof fn policy_is_settled_before_activity(policy: int, activity: int)
    requires
        0 <= policy < product_plan().len(),
        0 <= activity < product_plan().len(),
        product_plan()[policy].capability.0@ == "automatic-download"@,
        product_plan()[activity].capability.0@ == "power-source"@
            || product_plan()[activity].capability.0@ == "network-activity"@,
    ensures
        policy < activity,
{
    reveal_strlit("wake-coordination");
    reveal_strlit("manual-session");
    reveal_strlit("automatic-download");
    reveal_strlit("launch-at-login");
    reveal_strlit("power-source");
    reveal_strlit("network-activity");
    reveal_strlit("updater");
    assert("wake-coordination"@.len() == 17);
    assert("manual-session"@.len() == 14);
    assert("automatic-download"@.len() == 18);
    assert("launch-at-login"@.len() == 15);
    assert("power-source"@.len() == 12);
    assert("network-activity"@.len() == 16);
    assert("updater"@.len() == 7);
}

/// While no part has failed, the menu never warns of protection that does not
/// fit together: where the wake coordinator holds the reasons that the manual
/// session and the controller want, the controller has the detector's wish,
/// and the native protection is settled.
pub proof fn fitting_parts_are_not_warned_of(
    input: TrayInput,
    parts: ProductComposition,
    status: ApplicationStatus,
    now: nat,
    updater: UpdaterSnapshot,
)
    requires
        collects(input, parts, status, now, updater),
        parts.wake.manual == crate::manual_session::keeps_awake(parts.manual@.intent),
        parts.wake.automatic == parts.automatic->0.controller@.desired(),
        parts.automatic->0.controller@.intent == parts.automatic->0.monitor@.wants(),
        parts.wake.settled(),
    ensures
        !input.inconsistent(),
{
    let reasons = reasons_in_order(parts.wake.automatic, parts.wake.manual);
    if parts.wake.automatic {
        assert(reasons[0] == crate::wake_coordinator::WakeReason::AutomaticDownload);
    }
    if parts.wake.manual {
        assert(reasons.last() == crate::wake_coordinator::WakeReason::ManualKeepAwake);
        assert(reasons[reasons.len() - 1] == reasons.last());
    }
}

} // verus!
