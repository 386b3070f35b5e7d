//! The image store: resolving a restore-image reference to local bytes.
//!
//! If the reference already resolves to a cached local file, that file is
//! used unchanged. Otherwise the unverified edge performs the bounded network
//! fetch and attempts the atomic persist (write to a temporary location, then
//! rename); the store takes both outcomes as plain values and keeps the model
//! of the cache file. Because a failed persist never completes the rename, a
//! failed run leaves the cache path exactly as it was — never a partial file.

use vstd::prelude::*;
use crate::errors::ErrorKind;
use crate::errors::ProvisioningError;

verus! {

/// What the bounded network fetch reported: the image bytes, a timeout, or a
/// mid-transfer failure (including a failed catalog resolution).
pub enum FetchOutcome {
    Fetched(Vec<u8>),
    TimedOut(String),
    TransferFailed(String),
}

/// Whether the atomic persist of fetched bytes completed its rename.
pub enum PersistOutcome {
    Persisted,
    WriteFailed(String),
}

/// The restore-image cache: the caller-specified cache path and the model of
/// the file committed at it (`None` while no complete file is there).
pub struct ImageStore {
    pub cache_path: String,
    pub cached: Option<Vec<u8>>,
}

impl ImageStore {
    /// A store over the cache path, told by the unverified edge whether a
    /// complete cached file is already present and with what bytes.
    pub fn new(cache_path: String, cached: Option<Vec<u8>>) -> (r: ImageStore)
        ensures
            r.cache_path@ == cache_path@,
            r.cached == cached,
    {
        ImageStore { cache_path, cached }
    }

    /// Whether the reference already resolves to a cached local file, in
    /// which case no fetch is performed.
    pub fn has_cached_image(&self) -> (r: bool)
        ensures
            r == (self.cached is Some),
    {
        match &self.cached {
            Some(_) => true,
            None => false,
        }
    }

    /// The local path of the cached image, owed exactly while a complete
    /// cached file is present.
    pub fn local_image_path(&self) -> (r: Option<&String>)
        ensures
            match r {
                Some(p) => self.cached is Some && p@ == self.cache_path@,
                None => self.cached is None,
            },
    {
        match &self.cached {
            Some(_) => Some(&self.cache_path),
            None => None,
        }
    }

    /// Commit the outcome of the fetch-and-persist attempt for a reference
    /// with no cached file, and return the local image path on success.
    ///
    /// Fails with `NetworkError` on a timeout or transfer failure and with
    /// `IOError` on a persist failure, if and only if one occurred; both
    /// leave the cache path exactly as it was — the rename of the atomic
    /// persist never completed, so no partial file is mistaken for a
    /// complete one. The `persist` outcome is the attempted write of the
    /// fetched bytes and is meaningful only when the fetch succeeded.
    pub fn fetch_or_cache(&mut self, fetch: FetchOutcome, persist: PersistOutcome) -> (r: Result<
        String,
        ProvisioningError,
    >)
        requires
            old(self).cached is None,
        ensures
            final(self).cache_path@ == old(self).cache_path@,
            match r {
                Ok(path) => {
                    &&& fetch matches FetchOutcome::Fetched(bytes) && final(self).cached == Some(
                        bytes,
                    )
                    &&& persist is Persisted
                    &&& path@ == old(self).cache_path@
                },
                Err(e) => {
                    &&& final(self).cached is None
                    &&& match fetch {
                        FetchOutcome::Fetched(_) => {
                            &&& persist matches PersistOutcome::WriteFailed(message)
                                && e.message@ == message@
                            &&& e.kind == ErrorKind::IOError
                        },
                        FetchOutcome::TimedOut(message) => {
                            &&& e.kind == ErrorKind::NetworkError
                            &&& e.message@ == message@
                        },
                        FetchOutcome::TransferFailed(message) => {
                            &&& e.kind == ErrorKind::NetworkError
                            &&& e.message@ == message@
                        },
                    }
                },
            },
    {
        let bytes = match fetch {
            FetchOutcome::Fetched(bytes) => bytes,
            FetchOutcome::TimedOut(message) => {
                return Err(ProvisioningError::new(ErrorKind::NetworkError, message));
            },
            FetchOutcome::TransferFailed(message) => {
                return Err(ProvisioningError::new(ErrorKind::NetworkError, message));
            },
        };
        match persist {
            PersistOutcome::Persisted => {
                self.cached = Some(bytes);
                Ok(self.cache_path.clone())
            },
            PersistOutcome::WriteFailed(message) => Err(
                ProvisioningError::new(ErrorKind::IOError, message),
            ),
        }
    }
}

} // verus!
