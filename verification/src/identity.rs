//! The identity store: persisting and restoring the platform identity.
//!
//! The platform identity is the triple of hardware-model blob,
//! machine-identifier blob, and auxiliary boot storage, kept as three
//! independent files. `create` derives the three file contents from the
//! configuration requirements of an inspected image; `load` reads them back.
//! Reading and writing the files is the unverified edge's work: the store
//! takes each file's bytes (or its absence) as a plain value.

use vstd::prelude::*;
use crate::blob::AUXILIARY_STORAGE_TAG;
use crate::blob::HARDWARE_MODEL_TAG;
use crate::blob::MACHINE_IDENTIFIER_TAG;
use crate::blob::MAX_PAYLOAD_LEN;
use crate::blob::decode_blob;
use crate::blob::encode_blob;
use crate::blob::lemma_blob_canonical;
use crate::blob::lemma_blob_round_trip;
use crate::blob::spec_decode_blob;
use crate::blob::spec_encode_blob;
use crate::errors::ErrorKind;
use crate::errors::ProvisioningError;

verus! {

/// The hardware-model descriptors the current host can run.
///
/// Supportability of a hardware model is a judgment of the external
/// framework about the host; here it arrives as the explicit list of
/// supported descriptors, handed in by the unverified edge.
pub struct HostProfile {
    pub supported_models: Vec<Vec<u8>>,
}

impl HostProfile {
    /// Whether the host supports a hardware-model descriptor.
    pub open spec fn spec_supports(self, descriptor: Seq<u8>) -> bool {
        exists|i: int|
            0 <= i < self.supported_models@.len() && self.supported_models@[i]@ == descriptor
    }

    pub fn supports(&self, descriptor: &Vec<u8>) -> (r: bool)
        ensures
            r == self.spec_supports(descriptor@),
    {
        let n: usize = self.supported_models.len();
        let mut i: usize = 0;
        while i < n
            invariant
                i <= n,
                n == self.supported_models@.len(),
                forall|j: int| 0 <= j < i ==> self.supported_models@[j]@ != descriptor@,
            decreases n - i,
        {
            if crate::blob::bytes_eq(&self.supported_models[i], descriptor) {
                return true;
            }
            i = i + 1;
        }
        false
    }
}

/// The configuration requirements extracted from an inspected restore image:
/// the hardware-model descriptor to build a matching platform identity from,
/// and whether the current host supports it. Produced only by the image
/// inspector, which rejects unsupported images, so the flag is always set.
pub struct VZMacOsConfigurationRequirements {
    pub hardware_model: Vec<u8>,
    pub supported: bool,
}

/// The platform identity of one provisioning run: the hardware-model
/// descriptor, the machine-identifier, and the handle (path) of the auxiliary
/// boot storage. Constructed only by `create` and `load`, both of which
/// enforce the supportability check, so `host_supported` is always set.
pub struct VZMacPlatformConfiguration {
    pub hardware_model: Vec<u8>,
    pub machine_identifier: Vec<u8>,
    pub aux_storage_path: String,
    pub host_supported: bool,
}

/// The contents of the three identity files, for the unverified edge to
/// write out (each to its caller-specified path, atomically).
pub struct IdentityFiles {
    pub aux_storage: Vec<u8>,
    pub hardware_model: Vec<u8>,
    pub machine_identifier: Vec<u8>,
}

/// The view of an optional file's bytes.
pub open spec fn spec_file_view(file: Option<Vec<u8>>) -> Option<Seq<u8>> {
    match file {
        Some(bytes) => Some(bytes@),
        None => None,
    }
}

/// What loading the three identity files yields: the hardware-model and
/// machine-identifier payloads, or the first failure in the store's checking
/// order — a file absent, a blob corrupt, the hardware model unsupported.
///
/// Only the two blobs parse. The auxiliary storage is an opaque volume,
/// owned by the external framework: the store checks its presence and
/// nothing of its contents.
pub open spec fn spec_load(
    aux: Option<Seq<u8>>,
    hw: Option<Seq<u8>>,
    mi: Option<Seq<u8>>,
    host: HostProfile,
) -> Result<(Seq<u8>, Seq<u8>), ErrorKind> {
    match (aux, hw, mi) {
        (Some(_a), Some(h), Some(m)) => {
            match (
                spec_decode_blob(HARDWARE_MODEL_TAG, h),
                spec_decode_blob(MACHINE_IDENTIFIER_TAG, m),
            ) {
                (Some(hd), Some(md)) => {
                    if !host.spec_supports(hd) {
                        Err(ErrorKind::UnsupportedHardwareError)
                    } else {
                        Ok((hd, md))
                    }
                },
                _ => Err(ErrorKind::CorruptIdentityError),
            }
        },
        _ => Err(ErrorKind::MissingIdentityError),
    }
}

/// The diagnostic payload of a failed load: the first file or check that
/// failed, in the store's checking order.
pub open spec fn spec_load_error_message(
    aux: Option<Seq<u8>>,
    hw: Option<Seq<u8>>,
    mi: Option<Seq<u8>>,
) -> Seq<char> {
    match (aux, hw, mi) {
        (None, _, _) => "auxiliary storage file is absent"@,
        (Some(_), None, _) => "hardware model file is absent"@,
        (Some(_), Some(_), None) => "machine identifier file is absent"@,
        (Some(_), Some(h), Some(m)) => {
            if spec_decode_blob(HARDWARE_MODEL_TAG, h) is None {
                "hardware model blob failed to parse"@
            } else if spec_decode_blob(MACHINE_IDENTIFIER_TAG, m) is None {
                "machine identifier blob failed to parse"@
            } else {
                "hardware model is not supported on this host"@
            }
        },
    }
}

impl VZMacPlatformConfiguration {
    /// Derive a fresh platform identity from the configuration requirements
    /// and produce the three file contents to persist it.
    ///
    /// The machine identifier is handed in: deriving a fresh one is the
    /// unverified edge's draw of randomness. The auxiliary storage image is
    /// shaped for the given hardware model. Writing the files — and failing
    /// with `StorageCreationError` where the auxiliary storage is rejected —
    /// is the caller's step; this derivation itself cannot fail.
    pub fn create(
        requirements: VZMacOsConfigurationRequirements,
        machine_identifier: Vec<u8>,
        aux_storage_path: String,
    ) -> (r: (VZMacPlatformConfiguration, IdentityFiles))
        requires
            requirements.supported,
            requirements.hardware_model@.len() <= MAX_PAYLOAD_LEN,
            machine_identifier@.len() <= MAX_PAYLOAD_LEN,
        ensures
            r.0.hardware_model@ == requirements.hardware_model@,
            r.0.machine_identifier@ == machine_identifier@,
            r.0.aux_storage_path@ == aux_storage_path@,
            r.0.host_supported,
            r.1.aux_storage@ == spec_encode_blob(
                AUXILIARY_STORAGE_TAG,
                requirements.hardware_model@,
            ),
            r.1.hardware_model@ == spec_encode_blob(
                HARDWARE_MODEL_TAG,
                requirements.hardware_model@,
            ),
            r.1.machine_identifier@ == spec_encode_blob(
                MACHINE_IDENTIFIER_TAG,
                machine_identifier@,
            ),
    {
        let files = IdentityFiles {
            aux_storage: encode_blob(AUXILIARY_STORAGE_TAG, &requirements.hardware_model),
            hardware_model: encode_blob(HARDWARE_MODEL_TAG, &requirements.hardware_model),
            machine_identifier: encode_blob(MACHINE_IDENTIFIER_TAG, &machine_identifier),
        };
        let identity = VZMacPlatformConfiguration {
            hardware_model: requirements.hardware_model,
            machine_identifier,
            aux_storage_path,
            host_supported: true,
        };
        (identity, files)
    }

    /// Restore a previously created platform identity from the bytes of the
    /// three identity files (`None` where a file is absent).
    ///
    /// Fails with `MissingIdentityError` where a file is absent, with
    /// `CorruptIdentityError` where the hardware-model or machine-identifier
    /// blob fails to parse, and with `UnsupportedHardwareError` where the
    /// loaded hardware model is not supported on the current host, in that
    /// checking order. The auxiliary storage is an opaque volume: only its
    /// presence is checked, never its contents.
    pub fn load(
        aux_storage_path: String,
        aux_bytes: Option<Vec<u8>>,
        hardware_model_bytes: Option<Vec<u8>>,
        machine_identifier_bytes: Option<Vec<u8>>,
        host: &HostProfile,
    ) -> (r: Result<VZMacPlatformConfiguration, ProvisioningError>)
        ensures
            match r {
                Ok(identity) => {
                    &&& spec_load(
                        spec_file_view(aux_bytes),
                        spec_file_view(hardware_model_bytes),
                        spec_file_view(machine_identifier_bytes),
                        *host,
                    ) == Ok::<(Seq<u8>, Seq<u8>), ErrorKind>(
                        (identity.hardware_model@, identity.machine_identifier@),
                    )
                    &&& identity.aux_storage_path@ == aux_storage_path@
                    &&& identity.host_supported
                    &&& host.spec_supports(identity.hardware_model@)
                },
                Err(e) => {
                    &&& spec_load(
                        spec_file_view(aux_bytes),
                        spec_file_view(hardware_model_bytes),
                        spec_file_view(machine_identifier_bytes),
                        *host,
                    ) == Err::<(Seq<u8>, Seq<u8>), ErrorKind>(e.kind)
                    &&& e.message@ == spec_load_error_message(
                        spec_file_view(aux_bytes),
                        spec_file_view(hardware_model_bytes),
                        spec_file_view(machine_identifier_bytes),
                    )
                },
            },
    {
        if aux_bytes.is_none() {
            return Err(ProvisioningError::new(
                ErrorKind::MissingIdentityError,
                String::from_str("auxiliary storage file is absent"),
            ));
        }
        let hw = match hardware_model_bytes {
            Some(h) => h,
            None => {
                return Err(ProvisioningError::new(
                    ErrorKind::MissingIdentityError,
                    String::from_str("hardware model file is absent"),
                ));
            },
        };
        let mi = match machine_identifier_bytes {
            Some(m) => m,
            None => {
                return Err(ProvisioningError::new(
                    ErrorKind::MissingIdentityError,
                    String::from_str("machine identifier file is absent"),
                ));
            },
        };
        let hardware_model = match decode_blob(HARDWARE_MODEL_TAG, &hw) {
            Some(h) => h,
            None => {
                return Err(ProvisioningError::new(
                    ErrorKind::CorruptIdentityError,
                    String::from_str("hardware model blob failed to parse"),
                ));
            },
        };
        let machine_identifier = match decode_blob(MACHINE_IDENTIFIER_TAG, &mi) {
            Some(m) => m,
            None => {
                return Err(ProvisioningError::new(
                    ErrorKind::CorruptIdentityError,
                    String::from_str("machine identifier blob failed to parse"),
                ));
            },
        };
        if !host.supports(&hardware_model) {
            return Err(ProvisioningError::new(
                ErrorKind::UnsupportedHardwareError,
                String::from_str("hardware model is not supported on this host"),
            ));
        }
        Ok(VZMacPlatformConfiguration {
            hardware_model,
            machine_identifier,
            aux_storage_path,
            host_supported: true,
        })
    }
}

/// Law: the identity store round-trips, and its encoding is canonical.
///
/// If a load of the three persisted files succeeds, then a create handed the
/// same hardware model and machine identifier writes hardware-model and
/// machine-identifier blobs byte-identical to the files the first load read,
/// and a second load of the created files succeeds with the same payloads.
/// (A create that draws a fresh machine identifier writes a different
/// machine-identifier blob; the law holds with the identifier reused.)
pub proof fn lemma_load_create_load_identical(
    aux: Seq<u8>,
    hw: Seq<u8>,
    mi: Seq<u8>,
    host: HostProfile,
    hw_descriptor: Seq<u8>,
    machine_identifier: Seq<u8>,
)
    requires
        spec_load(Some(aux), Some(hw), Some(mi), host) == Ok::<(Seq<u8>, Seq<u8>), ErrorKind>(
            (hw_descriptor, machine_identifier),
        ),
    ensures
        spec_encode_blob(HARDWARE_MODEL_TAG, hw_descriptor) =~= hw,
        spec_encode_blob(MACHINE_IDENTIFIER_TAG, machine_identifier) =~= mi,
        spec_load(
            Some(spec_encode_blob(AUXILIARY_STORAGE_TAG, hw_descriptor)),
            Some(spec_encode_blob(HARDWARE_MODEL_TAG, hw_descriptor)),
            Some(spec_encode_blob(MACHINE_IDENTIFIER_TAG, machine_identifier)),
            host,
        ) == Ok::<(Seq<u8>, Seq<u8>), ErrorKind>((hw_descriptor, machine_identifier)),
{
    lemma_blob_canonical(HARDWARE_MODEL_TAG, hw, hw_descriptor);
    lemma_blob_canonical(MACHINE_IDENTIFIER_TAG, mi, machine_identifier);
    assert(hw_descriptor.len() <= MAX_PAYLOAD_LEN);
    assert(machine_identifier.len() <= MAX_PAYLOAD_LEN);
    lemma_blob_round_trip(HARDWARE_MODEL_TAG, hw_descriptor);
    lemma_blob_round_trip(MACHINE_IDENTIFIER_TAG, machine_identifier);
}

/// Whether the write of one identity file completed.
pub enum FileWriteOutcome {
    Written,
    Failed(String),
}

/// Classify the outcomes of writing the three identity files that `create`
/// derived, each to its caller-specified path.
///
/// Creating the auxiliary boot storage is the step the external framework
/// may reject (insufficient permissions or disk space): its failure is
/// `StorageCreationError`. The auxiliary storage is created first, so its
/// outcome decides first; a failed write of the hardware-model or
/// machine-identifier blob after it is `IOError`.
pub fn identity_write_result(
    aux_storage: FileWriteOutcome,
    hardware_model: FileWriteOutcome,
    machine_identifier: FileWriteOutcome,
) -> (r: Result<(), ProvisioningError>)
    ensures
        match r {
            Ok(_) => {
                &&& aux_storage is Written
                &&& hardware_model is Written
                &&& machine_identifier is Written
            },
            Err(e) => match aux_storage {
                FileWriteOutcome::Failed(m) => {
                    &&& e.kind == ErrorKind::StorageCreationError
                    &&& e.message@ == m@
                },
                FileWriteOutcome::Written => match hardware_model {
                    FileWriteOutcome::Failed(m) => {
                        &&& e.kind == ErrorKind::IOError
                        &&& e.message@ == m@
                    },
                    FileWriteOutcome::Written => (machine_identifier matches
                        FileWriteOutcome::Failed(m) && e.kind == ErrorKind::IOError && e.message@
                        == m@),
                },
            },
        },
{
    if let FileWriteOutcome::Failed(message) = aux_storage {
        return Err(ProvisioningError::new(ErrorKind::StorageCreationError, message));
    }
    if let FileWriteOutcome::Failed(message) = hardware_model {
        return Err(ProvisioningError::new(ErrorKind::IOError, message));
    }
    if let FileWriteOutcome::Failed(message) = machine_identifier {
        return Err(ProvisioningError::new(ErrorKind::IOError, message));
    }
    Ok(())
}

} // verus!
