//! The provisioning orchestrator: the end-to-end state machine of one run.
//!
//! A run walks `Idle → ImageReady → RequirementsExtracted → IdentityReady →
//! ConfigurationValidated → VMRunning → Installing → Completed | Failed`,
//! where `RequirementsExtracted` is skipped on the load-identity path. Each
//! long-running external operation reports its outcome through the serial
//! execution queue; the orchestrator takes the outcome as a plain value and
//! makes the one transition the outcome dictates. `Completed` and `Failed`
//! are terminal: every further operation is rejected and changes nothing.
//!
//! A virtual-machine handle is only ever created from a validated
//! configuration, and a configuration only from an identity that passed the
//! supportability check: both are clauses of the orchestrator's
//! well-formedness, which every operation preserves.

use vstd::prelude::*;
use vstd::pervasive::unreached;
use crate::config::ResourceSpec;
use crate::config::VMConfiguration;
use crate::config::build;
use crate::config::spec_validation_ok;
use crate::errors::ErrorKind;
use crate::errors::ProvisioningError;
use crate::identity::VZMacOsConfigurationRequirements;
use crate::identity::VZMacPlatformConfiguration;

verus! {

/// The lifecycle states of a provisioning run.
#[derive(Clone, Copy, Debug, PartialEq, Eq, Structural)]
pub enum ProvisioningState {
    Idle,
    ImageReady,
    RequirementsExtracted,
    IdentityReady,
    ConfigurationValidated,
    VMRunning,
    Installing,
    Completed,
    Failed,
}

/// Whether an operation moved the state machine or was rejected — because it
/// arrived in the wrong state, or after a terminal state.
#[derive(Clone, Copy, Debug, PartialEq, Eq, Structural)]
pub enum StepOutcome {
    Advanced,
    Rejected,
}

/// The latest installation progress: completed and total units. Read by
/// polling while installation is in flight; the cached pair never decreases.
#[derive(Clone, Copy, Debug, PartialEq, Eq, Structural)]
pub struct InstallationProgress {
    pub completed_units: u64,
    pub total_units: u64,
}

impl InstallationProgress {
    pub open spec fn wf(self) -> bool {
        self.completed_units <= self.total_units
    }
}

/// The provisioning orchestrator: owns the lifecycle state of one run and
/// everything the run has produced so far. One run per orchestrator; a new
/// run takes a fresh instance.
pub struct Orchestrator {
    pub state: ProvisioningState,
    pub resource_spec: ResourceSpec,
    pub restore_image_ref: String,
    pub local_image_path: Option<String>,
    pub requirements: Option<VZMacOsConfigurationRequirements>,
    pub identity: Option<VZMacPlatformConfiguration>,
    pub configuration: Option<VMConfiguration>,
    pub vm_created: bool,
    pub installation_started: bool,
    pub progress: InstallationProgress,
    pub vm_lifecycle_state: Option<u64>,
    pub failure: Option<ProvisioningError>,
}

impl Orchestrator {
    /// Well-formedness, preserved by every operation. In particular: a
    /// virtual-machine handle exists only with a validated configuration; a
    /// configuration holds only an identity that passed the supportability
    /// check; and a run that failed before installation never created a
    /// handle.
    pub open spec fn wf(self) -> bool {
        &&& (self.state is Failed) <==> (self.failure is Some)
        &&& self.progress.wf()
        &&& (self.requirements matches Some(q) ==> q.supported)
        &&& (self.identity matches Some(id) ==> id.host_supported)
        &&& (self.configuration matches Some(c) ==> c.wf())
        &&& (self.vm_created ==> self.configuration is Some)
        &&& (self.failure matches Some(e) ==> e.kind == ErrorKind::InstallationError
            || !self.vm_created)
        &&& ((self.state is VMRunning || self.state is Installing || self.state is Completed)
            ==> self.vm_created)
        &&& ((self.state is Idle || self.state is ImageReady
            || self.state is RequirementsExtracted || self.state is IdentityReady
            || self.state is ConfigurationValidated) ==> !self.vm_created)
        &&& (self.state is IdentityReady ==> self.identity is Some)
        &&& ((self.state is Idle || self.state is ImageReady
            || self.state is RequirementsExtracted || self.state is IdentityReady)
            ==> self.configuration is None)
        &&& ((self.state is ConfigurationValidated || self.state is VMRunning
            || self.state is Installing || self.state is Completed)
            ==> self.configuration is Some)
        &&& (self.installation_started ==> self.vm_created)
        &&& ((self.state is Installing || self.state is Completed)
            ==> self.installation_started)
    }

    /// Whether the run is over: no further operation is accepted.
    pub open spec fn is_terminal(self) -> bool {
        self.state is Completed || self.state is Failed
    }

    /// A fresh run over the given resource constraints and restore-image
    /// reference, in state `Idle`.
    pub fn new(resource_spec: ResourceSpec, restore_image_ref: String) -> (r: Orchestrator)
        ensures
            r.wf(),
            r.state is Idle,
            r.resource_spec == resource_spec,
            r.restore_image_ref == restore_image_ref,
            r.local_image_path is None,
            r.requirements is None,
            r.identity is None,
            r.configuration is None,
            !r.vm_created,
            !r.installation_started,
            r.progress == (InstallationProgress { completed_units: 0, total_units: 0 }),
            r.vm_lifecycle_state is None,
            r.failure is None,
    {
        Orchestrator {
            state: ProvisioningState::Idle,
            resource_spec,
            restore_image_ref,
            local_image_path: None,
            requirements: None,
            identity: None,
            configuration: None,
            vm_created: false,
            installation_started: false,
            progress: InstallationProgress { completed_units: 0, total_units: 0 },
            vm_lifecycle_state: None,
            failure: None,
        }
    }

    /// The image store finished: the reference resolved to a local file, or
    /// the fetch failed. `Idle → ImageReady`, or `Idle → Failed` carrying
    /// the store's error.
    pub fn on_image_stored(&mut self, outcome: Result<String, ProvisioningError>) -> (r:
        StepOutcome)
        requires
            old(self).wf(),
        ensures
            final(self).wf(),
            old(self).state is Idle ==> match outcome {
                Ok(path) => *final(self) == (Orchestrator {
                    state: ProvisioningState::ImageReady,
                    local_image_path: Some(path),
                    ..*old(self)
                }) && r == StepOutcome::Advanced,
                Err(e) => *final(self) == (Orchestrator {
                    state: ProvisioningState::Failed,
                    failure: Some(e),
                    ..*old(self)
                }) && r == StepOutcome::Advanced,
            },
            !(old(self).state is Idle) ==> *final(self) == *old(self) && r
                == StepOutcome::Rejected,
    {
        if self.state != ProvisioningState::Idle {
            return StepOutcome::Rejected;
        }
        match outcome {
            Ok(path) => {
                self.state = ProvisioningState::ImageReady;
                self.local_image_path = Some(path);
            },
            Err(e) => {
                self.state = ProvisioningState::Failed;
                self.failure = Some(e);
            },
        }
        StepOutcome::Advanced
    }

    /// The image inspector finished, on the create-identity path.
    /// `ImageReady → RequirementsExtracted`, or `ImageReady → Failed`
    /// carrying the inspector's error.
    pub fn on_image_inspected(
        &mut self,
        outcome: Result<VZMacOsConfigurationRequirements, ProvisioningError>,
    ) -> (r: StepOutcome)
        requires
            old(self).wf(),
            outcome matches Ok(q) ==> q.supported,
        ensures
            final(self).wf(),
            old(self).state is ImageReady ==> match outcome {
                Ok(q) => *final(self) == (Orchestrator {
                    state: ProvisioningState::RequirementsExtracted,
                    requirements: Some(q),
                    ..*old(self)
                }) && r == StepOutcome::Advanced,
                Err(e) => *final(self) == (Orchestrator {
                    state: ProvisioningState::Failed,
                    failure: Some(e),
                    ..*old(self)
                }) && r == StepOutcome::Advanced,
            },
            !(old(self).state is ImageReady) ==> *final(self) == *old(self) && r
                == StepOutcome::Rejected,
    {
        if self.state != ProvisioningState::ImageReady {
            return StepOutcome::Rejected;
        }
        match outcome {
            Ok(q) => {
                self.state = ProvisioningState::RequirementsExtracted;
                self.requirements = Some(q);
            },
            Err(e) => {
                self.state = ProvisioningState::Failed;
                self.failure = Some(e);
            },
        }
        StepOutcome::Advanced
    }

    /// The identity store finished: a created identity (from
    /// `RequirementsExtracted`) or a loaded one (from `ImageReady`, skipping
    /// `RequirementsExtracted`). `→ IdentityReady`, or `→ Failed` carrying
    /// the store's error.
    pub fn on_identity_ready(
        &mut self,
        outcome: Result<VZMacPlatformConfiguration, ProvisioningError>,
    ) -> (r: StepOutcome)
        requires
            old(self).wf(),
            outcome matches Ok(id) ==> id.host_supported,
        ensures
            final(self).wf(),
            (old(self).state is ImageReady || old(self).state is RequirementsExtracted)
                ==> match outcome {
                Ok(id) => *final(self) == (Orchestrator {
                    state: ProvisioningState::IdentityReady,
                    identity: Some(id),
                    ..*old(self)
                }) && r == StepOutcome::Advanced,
                Err(e) => *final(self) == (Orchestrator {
                    state: ProvisioningState::Failed,
                    failure: Some(e),
                    ..*old(self)
                }) && r == StepOutcome::Advanced,
            },
            !(old(self).state is ImageReady || old(self).state is RequirementsExtracted)
                ==> *final(self) == *old(self) && r == StepOutcome::Rejected,
    {
        if self.state != ProvisioningState::ImageReady && self.state
            != ProvisioningState::RequirementsExtracted {
            return StepOutcome::Rejected;
        }
        match outcome {
            Ok(id) => {
                self.state = ProvisioningState::IdentityReady;
                self.identity = Some(id);
            },
            Err(e) => {
                self.state = ProvisioningState::Failed;
                self.failure = Some(e);
            },
        }
        StepOutcome::Advanced
    }

    /// Assemble and validate the virtual-machine configuration from the
    /// resource specification and the ready identity. `IdentityReady →
    /// ConfigurationValidated`, or `IdentityReady → Failed` with
    /// `ConfigValidationError` — and then no virtual-machine handle is ever
    /// created from this run.
    ///
    /// `resolved_disks` pairs with the specification's disk paths: the
    /// canonical path each resolved to, or `None` where it does not
    /// canonicalize to an existing file. `mac_entropy` is the unverified
    /// edge's draw of six random bytes for the MAC address.
    pub fn validate_configuration(
        &mut self,
        resolved_disks: Vec<Option<String>>,
        mac_entropy: &Vec<u8>,
    ) -> (r: StepOutcome)
        requires
            old(self).wf(),
            resolved_disks@.len() == old(self).resource_spec.disk_paths@.len(),
            mac_entropy@.len() == 6,
        ensures
            final(self).wf(),
            old(self).state is IdentityReady ==> ({
                &&& r == StepOutcome::Advanced
                &&& final(self).identity is None
                &&& final(self).resource_spec == old(self).resource_spec
                &&& final(self).restore_image_ref == old(self).restore_image_ref
                &&& final(self).local_image_path == old(self).local_image_path
                &&& final(self).requirements == old(self).requirements
                &&& !final(self).vm_created
                &&& !final(self).installation_started
                &&& final(self).progress == old(self).progress
                &&& (if spec_validation_ok(old(self).resource_spec, resolved_disks@) {
                    &&& final(self).state is ConfigurationValidated
                    &&& final(self).failure is None
                    &&& final(self).configuration matches Some(c)
                    &&& (final(self).configuration matches Some(c) ==> {
                        &&& c.wf()
                        &&& old(self).identity matches Some(id) && c.platform == id
                        &&& c.cpu_count == old(self).resource_spec.cpu_count
                        &&& c.memory_size == old(self).resource_spec.memory_size
                        &&& c.storage@.len() == resolved_disks@.len()
                    })
                } else {
                    &&& final(self).state is Failed
                    &&& final(self).configuration is None
                    &&& final(self).failure matches Some(e) && e.kind
                        == ErrorKind::ConfigValidationError && e.message@
                        == crate::config::spec_validation_error_message(
                        old(self).resource_spec,
                        resolved_disks@,
                    )
                })
            }),
            !(old(self).state is IdentityReady) ==> *final(self) == *old(self) && r
                == StepOutcome::Rejected,
    {
        if self.state != ProvisioningState::IdentityReady {
            return StepOutcome::Rejected;
        }
        let identity = match self.identity.take() {
            Some(id) => id,
            None => unreached(),
        };
        match build(&self.resource_spec, resolved_disks, identity, mac_entropy) {
            Ok(c) => {
                self.configuration = Some(c);
                self.state = ProvisioningState::ConfigurationValidated;
            },
            Err(e) => {
                self.state = ProvisioningState::Failed;
                self.failure = Some(e);
            },
        }
        StepOutcome::Advanced
    }

    /// A virtual-machine handle was constructed from the validated
    /// configuration, bound to the serial execution queue.
    /// `ConfigurationValidated → VMRunning`.
    pub fn on_vm_created(&mut self) -> (r: StepOutcome)
        requires
            old(self).wf(),
        ensures
            final(self).wf(),
            old(self).state is ConfigurationValidated ==> *final(self) == (Orchestrator {
                state: ProvisioningState::VMRunning,
                vm_created: true,
                ..*old(self)
            }) && r == StepOutcome::Advanced,
            !(old(self).state is ConfigurationValidated) ==> *final(self) == *old(self) && r
                == StepOutcome::Rejected,
    {
        if self.state != ProvisioningState::ConfigurationValidated {
            return StepOutcome::Rejected;
        }
        self.state = ProvisioningState::VMRunning;
        self.vm_created = true;
        StepOutcome::Advanced
    }

    /// The installation request was submitted to the serial execution queue
    /// with the restore-image path. `VMRunning → Installing`.
    pub fn on_installation_started(&mut self) -> (r: StepOutcome)
        requires
            old(self).wf(),
        ensures
            final(self).wf(),
            old(self).state is VMRunning ==> *final(self) == (Orchestrator {
                state: ProvisioningState::Installing,
                installation_started: true,
                ..*old(self)
            }) && r == StepOutcome::Advanced,
            !(old(self).state is VMRunning) ==> *final(self) == *old(self) && r
                == StepOutcome::Rejected,
    {
        if self.state != ProvisioningState::VMRunning {
            return StepOutcome::Rejected;
        }
        self.state = ProvisioningState::Installing;
        self.installation_started = true;
        StepOutcome::Advanced
    }

    /// Record a polled progress sample while installation is in flight.
    /// Progress is diagnostic only: it never drives a transition, and the
    /// cached pair never decreases — a stale or malformed sample is dropped.
    pub fn observe_progress(&mut self, completed_units: u64, total_units: u64) -> (accepted: bool)
        requires
            old(self).wf(),
        ensures
            final(self).wf(),
            accepted == (old(self).state is Installing && completed_units <= total_units
                && completed_units >= old(self).progress.completed_units && total_units >= old(
                self,
            ).progress.total_units),
            accepted ==> *final(self) == (Orchestrator {
                progress: InstallationProgress { completed_units, total_units },
                ..*old(self)
            }),
            !accepted ==> *final(self) == *old(self),
            final(self).state == old(self).state,
            final(self).progress.completed_units >= old(self).progress.completed_units,
            final(self).progress.total_units >= old(self).progress.total_units,
    {
        if self.state != ProvisioningState::Installing {
            return false;
        }
        if completed_units > total_units {
            return false;
        }
        if completed_units < self.progress.completed_units {
            return false;
        }
        if total_units < self.progress.total_units {
            return false;
        }
        self.progress = InstallationProgress { completed_units, total_units };
        true
    }

    /// Record the lifecycle state the virtual machine itself reported, polled
    /// while installation is in flight. Diagnostic only: it never drives a
    /// transition — the authoritative signal is the installer's completion
    /// callback.
    pub fn observe_vm_lifecycle_state(&mut self, state_code: u64) -> (accepted: bool)
        requires
            old(self).wf(),
        ensures
            final(self).wf(),
            accepted == (old(self).state is Installing),
            accepted ==> *final(self) == (Orchestrator {
                vm_lifecycle_state: Some(state_code),
                ..*old(self)
            }),
            !accepted ==> *final(self) == *old(self),
            final(self).state == old(self).state,
    {
        if self.state != ProvisioningState::Installing {
            return false;
        }
        self.vm_lifecycle_state = Some(state_code);
        true
    }

    /// The latest lifecycle state the virtual machine reported, if any.
    pub fn current_vm_lifecycle_state(&self) -> (r: Option<u64>)
        ensures
            r == self.vm_lifecycle_state,
    {
        self.vm_lifecycle_state
    }

    /// The latest cached installation progress, as (completed, total) units.
    pub fn current_progress(&self) -> (r: (u64, u64))
        ensures
            r.0 == self.progress.completed_units,
            r.1 == self.progress.total_units,
    {
        (self.progress.completed_units, self.progress.total_units)
    }

    /// The current lifecycle state of the run.
    pub fn current_state(&self) -> (s: ProvisioningState)
        ensures
            s == self.state,
    {
        self.state
    }

    /// The installer's completion callback fired: the authoritative end of
    /// the run. `Installing → Completed`, or `Installing → Failed` with
    /// `InstallationError` carrying the underlying cause.
    pub fn on_installation_finished(&mut self, outcome: Result<(), String>) -> (r: StepOutcome)
        requires
            old(self).wf(),
        ensures
            final(self).wf(),
            old(self).state is Installing ==> match outcome {
                Ok(_) => *final(self) == (Orchestrator {
                    state: ProvisioningState::Completed,
                    ..*old(self)
                }) && r == StepOutcome::Advanced,
                Err(message) => *final(self) == (Orchestrator {
                    state: ProvisioningState::Failed,
                    failure: Some(
                        ProvisioningError { kind: ErrorKind::InstallationError, message },
                    ),
                    ..*old(self)
                }) && r == StepOutcome::Advanced,
            },
            !(old(self).state is Installing) ==> *final(self) == *old(self) && r
                == StepOutcome::Rejected,
    {
        if self.state != ProvisioningState::Installing {
            return StepOutcome::Rejected;
        }
        match outcome {
            Ok(_) => {
                self.state = ProvisioningState::Completed;
            },
            Err(message) => {
                self.state = ProvisioningState::Failed;
                self.failure = Some(ProvisioningError::new(ErrorKind::InstallationError, message));
            },
        }
        StepOutcome::Advanced
    }
}

/// Law: a virtual-machine handle exists only with a fully validated
/// configuration, whose identity passed the supportability check.
pub proof fn lemma_vm_requires_validated_configuration(o: Orchestrator)
    requires
        o.wf(),
        o.vm_created,
    ensures
        o.configuration matches Some(c) && c.wf() && c.platform.host_supported,
{
}

/// Law: a run that failed for any cause other than a failed installation
/// never created a virtual-machine handle.
pub proof fn lemma_no_vm_after_early_failure(o: Orchestrator, e: ProvisioningError)
    requires
        o.wf(),
        o.failure == Some(e),
        e.kind != ErrorKind::InstallationError,
    ensures
        !o.vm_created,
{
}

} // verus!
