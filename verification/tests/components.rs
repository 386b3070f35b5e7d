use virtualization_rs::blob::{
    bytes_eq, decode_blob, encode_blob, AUXILIARY_STORAGE_TAG, HARDWARE_MODEL_TAG,
    MACHINE_IDENTIFIER_TAG,
};
use virtualization_rs::config::{
    build, NetworkDeviceConfiguration, ResourceSpec, VZMacGraphicsDeviceConfiguration,
};
use virtualization_rs::errors::ErrorKind;
use virtualization_rs::identity::{
    identity_write_result, FileWriteOutcome, HostProfile, VZMacOsConfigurationRequirements,
    VZMacPlatformConfiguration,
};
use virtualization_rs::image_store::{FetchOutcome, ImageStore, PersistOutcome};
use virtualization_rs::inspector::{inspect, ImageLoadOutcome};
use virtualization_rs::queue::{Rendezvous, SerialQueue};

fn sample_spec(cpu_count: usize, memory_size: usize, disk_paths: Vec<String>) -> ResourceSpec {
    ResourceSpec {
        cpu_count,
        memory_size,
        command_line: String::from("console=tty0"),
        disk_paths,
        pixel_width: 1920,
        pixel_height: 1200,
        pixel_per_inch: 80,
    }
}

#[test]
fn blob_round_trip_exact_bytes() {
    let payload = vec![1u8, 2, 3];
    let blob = encode_blob(HARDWARE_MODEL_TAG, &payload);
    assert_eq!(blob, vec![0xb1u8, 3, 0, 0, 0, 1, 2, 3]);
    let decoded = decode_blob(HARDWARE_MODEL_TAG, &blob);
    assert_eq!(decoded, Some(vec![1u8, 2, 3]));
}

#[test]
fn blob_empty_payload_round_trips() {
    let payload: Vec<u8> = Vec::new();
    let blob = encode_blob(MACHINE_IDENTIFIER_TAG, &payload);
    assert_eq!(blob, vec![0xb2u8, 0, 0, 0, 0]);
    assert_eq!(decode_blob(MACHINE_IDENTIFIER_TAG, &blob), Some(Vec::new()));
}

#[test]
fn blob_rejects_wrong_tag() {
    let blob = encode_blob(MACHINE_IDENTIFIER_TAG, &vec![4u8, 5]);
    assert_eq!(decode_blob(HARDWARE_MODEL_TAG, &blob), None);
}

#[test]
fn blob_rejects_truncated_header() {
    assert_eq!(decode_blob(HARDWARE_MODEL_TAG, &vec![0xb1u8, 1, 0, 0]), None);
}

#[test]
fn blob_rejects_length_mismatch() {
    assert_eq!(decode_blob(HARDWARE_MODEL_TAG, &vec![0xb1u8, 2, 0, 0, 0, 9]), None);
}

#[test]
fn bytes_eq_compares_contents() {
    assert!(bytes_eq(&vec![1u8, 2], &vec![1u8, 2]));
    assert!(!bytes_eq(&vec![1u8, 2], &vec![1u8, 3]));
    assert!(!bytes_eq(&vec![1u8, 2], &vec![1u8, 2, 3]));
}

#[test]
fn identity_create_then_load_returns_same_payloads() {
    let requirements = VZMacOsConfigurationRequirements {
        hardware_model: vec![7u8, 7],
        supported: true,
    };
    let (identity, files) = VZMacPlatformConfiguration::create(
        requirements,
        vec![9u8],
        String::from("./auxiliary_storage"),
    );
    assert_eq!(identity.hardware_model, vec![7u8, 7]);
    assert_eq!(identity.machine_identifier, vec![9u8]);
    assert!(identity.host_supported);
    assert_eq!(files.aux_storage[0], AUXILIARY_STORAGE_TAG);
    assert_eq!(files.hardware_model[0], HARDWARE_MODEL_TAG);
    assert_eq!(files.machine_identifier[0], MACHINE_IDENTIFIER_TAG);

    let host = HostProfile { supported_models: vec![vec![7u8, 7]] };
    let loaded = VZMacPlatformConfiguration::load(
        String::from("./auxiliary_storage"),
        Some(files.aux_storage),
        Some(files.hardware_model),
        Some(files.machine_identifier),
        &host,
    )
    .unwrap();
    assert_eq!(loaded.hardware_model, vec![7u8, 7]);
    assert_eq!(loaded.machine_identifier, vec![9u8]);
    assert_eq!(loaded.aux_storage_path, "./auxiliary_storage");
}

#[test]
fn identity_load_missing_file_fails() {
    let host = HostProfile { supported_models: vec![vec![7u8]] };
    let requirements = VZMacOsConfigurationRequirements {
        hardware_model: vec![7u8],
        supported: true,
    };
    let (_, files) =
        VZMacPlatformConfiguration::create(requirements, vec![1u8], String::from("./aux"));
    let r = VZMacPlatformConfiguration::load(
        String::from("./aux"),
        Some(files.aux_storage),
        None,
        Some(files.machine_identifier),
        &host,
    );
    let e = r.err().unwrap();
    assert_eq!(e.kind, ErrorKind::MissingIdentityError);
    assert_eq!(e.message, "hardware model file is absent");
}

#[test]
fn identity_load_corrupt_blob_fails() {
    let host = HostProfile { supported_models: vec![vec![7u8]] };
    let requirements = VZMacOsConfigurationRequirements {
        hardware_model: vec![7u8],
        supported: true,
    };
    let (_, files) =
        VZMacPlatformConfiguration::create(requirements, vec![1u8], String::from("./aux"));
    let r = VZMacPlatformConfiguration::load(
        String::from("./aux"),
        Some(files.aux_storage),
        Some(vec![0u8, 1, 2]),
        Some(files.machine_identifier),
        &host,
    );
    let e = r.err().unwrap();
    assert_eq!(e.kind, ErrorKind::CorruptIdentityError);
    assert_eq!(e.message, "hardware model blob failed to parse");
}

#[test]
fn identity_load_never_reads_aux_contents() {
    // The auxiliary storage is an opaque volume: a present file with any
    // bytes at all loads, as long as the two blobs parse and are supported.
    let host = HostProfile { supported_models: vec![vec![7u8]] };
    let requirements = VZMacOsConfigurationRequirements {
        hardware_model: vec![7u8],
        supported: true,
    };
    let (_, files) =
        VZMacPlatformConfiguration::create(requirements, vec![1u8], String::from("./aux"));
    let loaded = VZMacPlatformConfiguration::load(
        String::from("./aux"),
        Some(vec![0u8, 1, 2]),
        Some(files.hardware_model),
        Some(files.machine_identifier),
        &host,
    )
    .unwrap();
    assert_eq!(loaded.hardware_model, vec![7u8]);
    assert_eq!(loaded.machine_identifier, vec![1u8]);
}

#[test]
fn identity_load_unsupported_hardware_fails() {
    let host = HostProfile { supported_models: vec![vec![8u8]] };
    let requirements = VZMacOsConfigurationRequirements {
        hardware_model: vec![7u8],
        supported: true,
    };
    let (_, files) =
        VZMacPlatformConfiguration::create(requirements, vec![1u8], String::from("./aux"));
    let r = VZMacPlatformConfiguration::load(
        String::from("./aux"),
        Some(files.aux_storage),
        Some(files.hardware_model),
        Some(files.machine_identifier),
        &host,
    );
    let e = r.err().unwrap();
    assert_eq!(e.kind, ErrorKind::UnsupportedHardwareError);
    assert_eq!(e.message, "hardware model is not supported on this host");
}

#[test]
fn identity_write_classification() {
    let ok = identity_write_result(
        FileWriteOutcome::Written,
        FileWriteOutcome::Written,
        FileWriteOutcome::Written,
    );
    assert!(ok.is_ok());

    // A rejected auxiliary-storage creation decides first.
    let e = identity_write_result(
        FileWriteOutcome::Failed(String::from("no space left on device")),
        FileWriteOutcome::Failed(String::from("later")),
        FileWriteOutcome::Written,
    )
    .err()
    .unwrap();
    assert_eq!(e.kind, ErrorKind::StorageCreationError);
    assert_eq!(e.message, "no space left on device");

    let e = identity_write_result(
        FileWriteOutcome::Written,
        FileWriteOutcome::Failed(String::from("read-only filesystem")),
        FileWriteOutcome::Written,
    )
    .err()
    .unwrap();
    assert_eq!(e.kind, ErrorKind::IOError);
    assert_eq!(e.message, "read-only filesystem");

    let e = identity_write_result(
        FileWriteOutcome::Written,
        FileWriteOutcome::Written,
        FileWriteOutcome::Failed(String::from("interrupted")),
    )
    .err()
    .unwrap();
    assert_eq!(e.kind, ErrorKind::IOError);
    assert_eq!(e.message, "interrupted");
}

#[test]
fn load_then_create_then_load_is_byte_identical() {
    let host = HostProfile { supported_models: vec![vec![3u8, 1, 4]] };
    let requirements = VZMacOsConfigurationRequirements {
        hardware_model: vec![3u8, 1, 4],
        supported: true,
    };
    let (_, first_files) =
        VZMacPlatformConfiguration::create(requirements, vec![42u8, 42], String::from("./aux"));
    let first_hw_blob = first_files.hardware_model.clone();
    let first_mi_blob = first_files.machine_identifier.clone();

    let first = VZMacPlatformConfiguration::load(
        String::from("./aux"),
        Some(first_files.aux_storage),
        Some(first_files.hardware_model),
        Some(first_files.machine_identifier),
        &host,
    )
    .unwrap();

    // Re-create on the same paths from what the first load returned.
    let recreate = VZMacOsConfigurationRequirements {
        hardware_model: first.hardware_model.clone(),
        supported: true,
    };
    let (_, second_files) = VZMacPlatformConfiguration::create(
        recreate,
        first.machine_identifier.clone(),
        String::from("./aux"),
    );
    assert_eq!(second_files.hardware_model, first_hw_blob);
    assert_eq!(second_files.machine_identifier, first_mi_blob);

    let second = VZMacPlatformConfiguration::load(
        String::from("./aux"),
        Some(second_files.aux_storage),
        Some(second_files.hardware_model),
        Some(second_files.machine_identifier),
        &host,
    )
    .unwrap();
    assert_eq!(second.hardware_model, first.hardware_model);
    assert_eq!(second.machine_identifier, first.machine_identifier);
}

#[test]
fn inspector_picks_most_featureful_supported() {
    let host = HostProfile { supported_models: vec![vec![2u8], vec![3u8]] };
    let outcome = ImageLoadOutcome::Loaded(vec![vec![1u8], vec![2u8], vec![3u8]]);
    let requirements = inspect(outcome, &host).unwrap();
    assert_eq!(requirements.hardware_model, vec![2u8]);
    assert!(requirements.supported);
}

#[test]
fn inspector_rejects_unsupported_image() {
    let host = HostProfile { supported_models: vec![vec![9u8]] };
    let outcome = ImageLoadOutcome::Loaded(vec![vec![1u8], vec![2u8]]);
    let e = inspect(outcome, &host).err().unwrap();
    assert_eq!(e.kind, ErrorKind::UnsupportedImageError);
    assert_eq!(e.message, "no supported configuration in the restore image");
}

#[test]
fn inspector_reports_load_error() {
    let host = HostProfile { supported_models: vec![vec![9u8]] };
    let outcome = ImageLoadOutcome::LoadFailed(String::from("file unreadable"));
    let e = inspect(outcome, &host).err().unwrap();
    assert_eq!(e.kind, ErrorKind::LoadError);
    assert_eq!(e.message, "file unreadable");
}

#[test]
fn image_store_uses_cached_file_unchanged() {
    let store = ImageStore::new(String::from("./macos_image.ipsw"), Some(vec![1u8, 2]));
    assert!(store.has_cached_image());
    assert_eq!(store.local_image_path().unwrap(), "./macos_image.ipsw");
}

#[test]
fn image_store_persists_fetched_bytes() {
    let mut store = ImageStore::new(String::from("./macos_image.ipsw"), None);
    assert!(!store.has_cached_image());
    let r = store.fetch_or_cache(
        FetchOutcome::Fetched(vec![5u8, 6, 7]),
        PersistOutcome::Persisted,
    );
    assert_eq!(r.unwrap(), "./macos_image.ipsw");
    assert_eq!(store.cached, Some(vec![5u8, 6, 7]));
}

#[test]
fn image_store_timeout_leaves_no_partial_file() {
    let mut store = ImageStore::new(String::from("./macos_image.ipsw"), None);
    let r = store.fetch_or_cache(
        FetchOutcome::TimedOut(String::from("deadline exceeded")),
        PersistOutcome::Persisted,
    );
    let e = r.err().unwrap();
    assert_eq!(e.kind, ErrorKind::NetworkError);
    assert_eq!(e.message, "deadline exceeded");
    assert!(!store.has_cached_image());
}

#[test]
fn image_store_write_failure_leaves_no_partial_file() {
    let mut store = ImageStore::new(String::from("./macos_image.ipsw"), None);
    let r = store.fetch_or_cache(
        FetchOutcome::Fetched(vec![5u8]),
        PersistOutcome::WriteFailed(String::from("disk full")),
    );
    let e = r.err().unwrap();
    assert_eq!(e.kind, ErrorKind::IOError);
    assert!(!store.has_cached_image());
}

#[test]
fn rendezvous_first_delivery_wins() {
    let mut rendezvous = Rendezvous::new();
    assert_eq!(rendezvous.try_take(), None);
    assert!(rendezvous.deliver(5));
    assert!(!rendezvous.deliver(6));
    assert_eq!(rendezvous.try_take(), Some(5));
}

#[test]
fn queue_runs_in_submission_order() {
    let mut queue = SerialQueue::new();
    let first = queue.submit();
    let second = queue.submit();
    assert!(first < second);
    assert_eq!(queue.complete_next(10), Some(first));
    assert_eq!(queue.complete_next(20), Some(second));
    assert_eq!(queue.complete_next(30), None);
    assert_eq!(queue.delivered, vec![(first, 10), (second, 20)]);
}

#[test]
fn submit_and_wait_delivers_exactly_one_result() {
    let mut queue = SerialQueue::new();
    let earlier = queue.submit();
    let backlog = vec![111u64];
    let r = queue.submit_and_wait(&backlog, 222);
    assert_eq!(r, 222);
    assert_eq!(queue.pending.len(), 0);
    assert_eq!(queue.delivered, vec![(earlier, 111), (earlier + 1, 222)]);
    let own_results: Vec<&(u64, u64)> =
        queue.delivered.iter().filter(|entry| entry.0 == earlier + 1).collect();
    assert_eq!(own_results.len(), 1);
}

#[test]
fn submit_and_wait_on_empty_queue() {
    let mut queue = SerialQueue::new();
    let r = queue.submit_and_wait(&Vec::new(), 7);
    assert_eq!(r, 7);
    assert_eq!(queue.delivered, vec![(0, 7)]);
    assert_eq!(queue.pending.len(), 0);
}

#[test]
fn config_rejects_zero_cpu() {
    let spec = sample_spec(0, 1 << 30, Vec::new());
    let identity = sample_identity();
    let e = build(&spec, Vec::new(), identity, &vec![0u8; 6]).err().unwrap();
    assert_eq!(e.kind, ErrorKind::ConfigValidationError);
    assert_eq!(e.message, "resource specification has zero CPU count");
}

#[test]
fn config_rejects_zero_memory() {
    let spec = sample_spec(4, 0, Vec::new());
    let identity = sample_identity();
    let e = build(&spec, Vec::new(), identity, &vec![0u8; 6]).err().unwrap();
    assert_eq!(e.kind, ErrorKind::ConfigValidationError);
    assert_eq!(e.message, "resource specification has zero memory size");
}

#[test]
fn config_rejects_unresolved_disk_path() {
    let spec = sample_spec(4, 1 << 30, vec![String::from("missing.img")]);
    let identity = sample_identity();
    let e = build(&spec, vec![None], identity, &vec![0u8; 6]).err().unwrap();
    assert_eq!(e.kind, ErrorKind::ConfigValidationError);
    assert_eq!(e.message, "a disk path did not resolve to an existing file");
}

#[test]
fn config_builds_all_devices_from_valid_spec() {
    let spec = sample_spec(4, 1 << 31, vec![String::from("disk.img")]);
    let identity = sample_identity();
    let c = build(
        &spec,
        vec![Some(String::from("/images/disk.img"))],
        identity,
        &vec![0x01u8, 2, 3, 4, 5, 6],
    )
    .unwrap();
    assert_eq!(c.cpu_count, 4);
    assert_eq!(c.memory_size, 1 << 31);
    assert_eq!(c.graphics.pixel_width, 1920);
    assert_eq!(c.graphics.pixel_height, 1200);
    assert_eq!(c.graphics.pixel_per_inch, 80);
    assert_eq!(c.storage.len(), 1);
    assert_eq!(c.storage[0].path, "/images/disk.img");
    assert!(!c.storage[0].read_only);
    assert!(c.network.nat);
    assert_eq!(c.network.mac_address.len(), 6);
    // locally administered, not multicast
    assert_eq!(c.network.mac_address[0] & 0x02, 0x02);
    assert_eq!(c.network.mac_address[0] & 0x01, 0x00);
    assert_eq!(&c.network.mac_address[1..], &[2u8, 3, 4, 5, 6]);
}

#[test]
fn network_device_keeps_entropy_tail() {
    let device = NetworkDeviceConfiguration::new(&vec![0xffu8, 1, 2, 3, 4, 5]);
    assert_eq!(device.mac_address, vec![0xfeu8, 1, 2, 3, 4, 5]);
}

#[test]
fn graphics_device_holds_geometry() {
    let graphics = VZMacGraphicsDeviceConfiguration::new(800, 600, 72);
    assert_eq!(graphics.pixel_width, 800);
    assert_eq!(graphics.pixel_height, 600);
    assert_eq!(graphics.pixel_per_inch, 72);
}

fn sample_identity() -> VZMacPlatformConfiguration {
    let requirements = VZMacOsConfigurationRequirements {
        hardware_model: vec![1u8],
        supported: true,
    };
    let (identity, _) =
        VZMacPlatformConfiguration::create(requirements, vec![2u8], String::from("./aux"));
    identity
}
