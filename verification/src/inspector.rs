//! The image inspector: extracting configuration requirements from a loaded
//! restore image.
//!
//! The external framework loads the image file asynchronously and reports,
//! through a callback, either an error or the image's candidate
//! hardware-model descriptors, most feature-complete first. The inspector
//! takes that callback's outcome as a plain value and extracts the most
//! feature-complete descriptor the current host supports.

use vstd::prelude::*;
use crate::errors::ErrorKind;
use crate::errors::ProvisioningError;
use crate::identity::HostProfile;
use crate::identity::VZMacOsConfigurationRequirements;

verus! {

/// What the external framework's image-load callback reported: the image's
/// candidate hardware-model descriptors in descending order of
/// feature-completeness, or a load error.
pub enum ImageLoadOutcome {
    Loaded(Vec<Vec<u8>>),
    LoadFailed(String),
}

/// The first candidate at or after position `i` that the host supports.
pub open spec fn spec_first_supported_from(
    candidates: Seq<Vec<u8>>,
    host: HostProfile,
    i: int,
) -> Option<Seq<u8>>
    decreases candidates.len() - i,
{
    if i < 0 || i >= candidates.len() {
        None
    } else if host.spec_supports(candidates[i]@) {
        Some(candidates[i]@)
    } else {
        spec_first_supported_from(candidates, host, i + 1)
    }
}

/// The most feature-complete supported descriptor: the first supported
/// candidate, the candidates being ordered most feature-complete first.
pub open spec fn spec_most_featureful_supported(
    candidates: Seq<Vec<u8>>,
    host: HostProfile,
) -> Option<Seq<u8>> {
    spec_first_supported_from(candidates, host, 0)
}

/// Extract the configuration requirements from a loaded restore image.
///
/// Fails with `LoadError` where the callback reported an error, and with
/// `UnsupportedImageError` where no candidate descriptor is supported on the
/// current host. On success the requirements hold the most feature-complete
/// supported descriptor, and their supportability flag is set.
pub fn inspect(
    outcome: ImageLoadOutcome,
    host: &HostProfile,
) -> (r: Result<VZMacOsConfigurationRequirements, ProvisioningError>)
    ensures
        match r {
            Ok(requirements) => {
                &&& outcome matches ImageLoadOutcome::Loaded(candidates)
                    && spec_most_featureful_supported(candidates@, *host) == Some(
                    requirements.hardware_model@,
                )
                &&& requirements.supported
                &&& host.spec_supports(requirements.hardware_model@)
            },
            Err(e) => match outcome {
                ImageLoadOutcome::Loaded(candidates) => {
                    &&& e.kind == ErrorKind::UnsupportedImageError
                    &&& e.message@ == "no supported configuration in the restore image"@
                    &&& spec_most_featureful_supported(candidates@, *host) is None
                },
                ImageLoadOutcome::LoadFailed(message) => {
                    &&& e.kind == ErrorKind::LoadError
                    &&& e.message@ == message@
                },
            },
        },
{
    let mut candidates = match outcome {
        ImageLoadOutcome::Loaded(candidates) => candidates,
        ImageLoadOutcome::LoadFailed(message) => {
            return Err(ProvisioningError::new(ErrorKind::LoadError, message));
        },
    };
    let n: usize = candidates.len();
    let mut i: usize = 0;
    while i < n
        invariant
            i <= n,
            n == candidates@.len(),
            outcome matches ImageLoadOutcome::Loaded(loaded) && loaded == candidates,
            spec_first_supported_from(candidates@, *host, 0) == spec_first_supported_from(
                candidates@,
                *host,
                i as int,
            ),
        decreases n - i,
    {
        if host.supports(&candidates[i]) {
            proof {
                assert(spec_first_supported_from(candidates@, *host, i as int) == Some(
                    candidates@[i as int]@,
                ));
            }
            let descriptor = candidates.remove(i);
            return Ok(VZMacOsConfigurationRequirements {
                hardware_model: descriptor,
                supported: true,
            });
        }
        i = i + 1;
    }
    proof {
        assert(spec_first_supported_from(candidates@, *host, n as int) is None);
    }
    Err(ProvisioningError::new(
        ErrorKind::UnsupportedImageError,
        String::from_str("no supported configuration in the restore image"),
    ))
}

} // verus!
