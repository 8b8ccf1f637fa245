use remote_backup::clock::Timestamp;
use remote_backup::config::{Backup, Config, DdConfig, Filesystem, Options, Remote};
use remote_backup::dd::builder::{select_device, DdBuilder, DdSnapshotConfig};
use remote_backup::dd::probe::{lsblk_command, remote_lsblk, BlockDevice};
use remote_backup::dd::{Compression, ResumeMode};
use remote_backup::error::{AppError, ConfigError};

fn device(name: &str, serial: Option<&str>, uuid: Option<&str>) -> BlockDevice {
    BlockDevice {
        name: name.to_string(),
        serial: serial.map(|s| s.to_string()),
        uuid: uuid.map(|s| s.to_string()),
        size: "10G".to_string(),
        mountpoint: None,
    }
}

fn catalog() -> Vec<BlockDevice> {
    vec![
        device("sda", Some("S-100"), None),
        device("vda", None, Some("1234-5678")),
        device("vdb", Some("S-200"), Some("aaaa-bbbb")),
    ]
}

fn config(dd: Option<DdConfig>, dir: &str) -> Config {
    Config {
        mode: "dd".to_string(),
        filesystems: vec![Filesystem::Root],
        remote: Remote {
            host: "192.0.2.10".to_string(),
            port: 22,
            user: "root".to_string(),
            password: "pw".to_string(),
            private_key: None,
        },
        backup: Backup { dir: "/var/backups".to_string(), filename: "x".to_string() },
        options: Options { download_to_local: false, local_download_dir: dir.to_string() },
        dd,
    }
}

#[test]
fn compression_parse_reads_the_known_names() {
    assert_eq!(Compression::parse("gzip"), Compression::Gzip);
    assert_eq!(Compression::parse("zstd"), Compression::Zstd);
    assert_eq!(Compression::parse("xz"), Compression::Xz);
    assert_eq!(Compression::parse("none"), Compression::Identity);
    assert_eq!(Compression::parse("GZIP"), Compression::Gzip);
    assert_eq!(Compression::parse("Zstd"), Compression::Zstd);
    assert_eq!(Compression::parse("xZ"), Compression::Xz);
}

#[test]
fn unknown_compression_text_means_none() {
    for txt in ["lz4", "", "gzip ", " gzip", "bzip2", "gz", "none", "zstd\n"] {
        let c = Compression::parse(txt);
        assert_eq!(c, Compression::Identity, "{:?}", txt);
        assert_eq!(c.ext(), ".img");
        assert_eq!(c.pipe(), "cat");
    }
}

#[test]
fn compression_suffix_and_pipe() {
    assert_eq!(Compression::Identity.ext(), ".img");
    assert_eq!(Compression::Gzip.ext(), ".img.gz");
    assert_eq!(Compression::Zstd.ext(), ".img.zst");
    assert_eq!(Compression::Xz.ext(), ".img.xz");
    assert_eq!(Compression::Identity.pipe(), "cat");
    assert_eq!(Compression::Gzip.pipe(), "gzip -c");
    assert_eq!(Compression::Zstd.pipe(), "zstd -q -c");
    assert_eq!(Compression::Xz.pipe(), "xz -c");
}

#[test]
fn compression_labels() {
    assert_eq!(Compression::Identity.label(), "None");
    assert_eq!(Compression::Gzip.label(), "Gzip");
    assert_eq!(Compression::Zstd.label(), "Zstd");
    assert_eq!(Compression::Xz.label(), "Xz");
}

#[test]
fn resume_mode_parse() {
    assert_eq!(ResumeMode::parse("continue"), ResumeMode::Continue);
    assert_eq!(ResumeMode::parse("CONTINUE"), ResumeMode::Continue);
    assert_eq!(ResumeMode::parse("fresh"), ResumeMode::Fresh);
    assert_eq!(ResumeMode::parse("resume"), ResumeMode::Fresh);
    assert_eq!(ResumeMode::parse(""), ResumeMode::Fresh);
}

#[test]
fn dev_path_is_dev_slash_name() {
    assert_eq!(device("vda", None, None).dev_path(), "/dev/vda");
    assert_eq!(device("nvme0n1", None, None).dev_path(), "/dev/nvme0n1");
    assert_eq!(device("", None, None).dev_path(), "/dev/");
}

#[test]
fn select_device_by_path() {
    let list = catalog();
    assert_eq!(select_device("/dev/vda", &list), Some(&list[1]));
    assert_eq!(select_device("/dev/sda", &list), Some(&list[0]));
    assert_eq!(select_device("/dev/vd", &list), None);
    assert_eq!(select_device("/dev/vdaa", &list), None);
    assert_eq!(select_device("/dev/", &list), None);
}

#[test]
fn select_device_by_uuid() {
    let list = catalog();
    assert_eq!(select_device("UUID=1234-5678", &list), Some(&list[1]));
    assert_eq!(select_device("UUID=aaaa-bbbb", &list), Some(&list[2]));
    assert_eq!(select_device("UUID=1234", &list), None);
    assert_eq!(select_device("UUID=", &list), None);
    assert_eq!(select_device("UUID=S-100", &list), None);
}

#[test]
fn select_device_by_serial() {
    let list = catalog();
    assert_eq!(select_device("SERIAL=S-100", &list), Some(&list[0]));
    assert_eq!(select_device("SERIAL=S-200", &list), Some(&list[2]));
    assert_eq!(select_device("SERIAL=1234-5678", &list), None);
    assert_eq!(select_device("SERIAL=", &list), None);
}

#[test]
fn select_device_rejects_other_query_forms() {
    let list = catalog();
    assert_eq!(select_device("vda", &list), None);
    assert_eq!(select_device("uuid=1234-5678", &list), None);
    assert_eq!(select_device("LABEL=root", &list), None);
    assert_eq!(select_device("", &list), None);
    assert_eq!(select_device(" /dev/vda", &list), None);
}

#[test]
fn select_device_on_empty_catalog() {
    assert_eq!(select_device("/dev/vda", &[]), None);
    assert_eq!(select_device("UUID=1234-5678", &[]), None);
}

#[test]
fn select_device_takes_the_first_of_equal_answers() {
    let mut first = device("vda", None, Some("dup"));
    first.size = "1G".to_string();
    let mut second = device("vdb", None, Some("dup"));
    second.size = "2G".to_string();
    let list = vec![first, second];
    let found = select_device("UUID=dup", &list).unwrap();
    assert_eq!(found.name, "vda");
    assert_eq!(found.size, "1G");
}

#[test]
fn select_device_prefers_the_path_form() {
    let list = vec![device("UUID=x", None, Some("x")), device("vda", None, Some("/dev/vda"))];
    assert_eq!(select_device("/dev/UUID=x", &list), Some(&list[0]));
    assert_eq!(select_device("UUID=/dev/vda", &list), Some(&list[1]));
}

#[test]
fn lsblk_command_text() {
    assert_eq!(lsblk_command(true), "sudo lsblk -lJ -o NAME,SERIAL,UUID,SIZE,MOUNTPOINT");
    assert_eq!(lsblk_command(false), "lsblk -lJ -o NAME,SERIAL,UUID,SIZE,MOUNTPOINT");
}

#[test]
fn remote_lsblk_outcomes() {
    assert_eq!(remote_lsblk(0, Ok(catalog())), Ok(catalog()));
    assert_eq!(remote_lsblk(0, Ok(Vec::new())), Ok(Vec::new()));
    assert_eq!(remote_lsblk(1, Ok(catalog())), Err(AppError::RemoteExit(1)));
    assert_eq!(remote_lsblk(32, Err("EOF".to_string())), Err(AppError::RemoteExit(32)));
    assert_eq!(
        remote_lsblk(0, Err("missing field `blockdevices`".to_string())),
        Err(AppError::Remote("lsblk json: missing field `blockdevices`".to_string()))
    );
}

#[test]
fn plan_fills_in_defaults() {
    let cfg = config(None, ".");
    let plan = DdBuilder::new(&cfg).plan();
    assert_eq!(plan.dev_query, "/dev/vda");
    assert_eq!(plan.block_size, 65536);
    assert_eq!(plan.compression, Compression::Identity);
    assert_eq!(plan.resume_mode, ResumeMode::Fresh);
    assert!(plan.sudo);
}

#[test]
fn plan_reads_the_snapshot_settings() {
    let cfg = config(
        Some(DdConfig {
            device: "SERIAL=S-200".to_string(),
            block_size: 4096,
            compression: "ZSTD".to_string(),
            resume: "Continue".to_string(),
            sudo: false,
        }),
        "snaps",
    );
    let plan = DdBuilder::new(&cfg).plan();
    assert_eq!(plan.dev_query, "SERIAL=S-200");
    assert_eq!(plan.block_size, 4096);
    assert_eq!(plan.compression, Compression::Zstd);
    assert_eq!(plan.resume_mode, ResumeMode::Continue);
    assert!(!plan.sudo);
}

#[test]
fn assemble_resolves_the_job() {
    let cfg = config(
        Some(DdConfig {
            device: "UUID=1234-5678".to_string(),
            block_size: 1048576,
            compression: "gzip".to_string(),
            resume: "fresh".to_string(),
            sudo: true,
        }),
        "/srv/snaps",
    );
    let job = DdBuilder::new(&cfg)
        .assemble("192.0.2.10:22", &catalog(), "20240102T030405Z")
        .unwrap();
    assert_eq!(
        job,
        DdSnapshotConfig {
            host: "192.0.2.10:22".to_string(),
            device: device("vda", None, Some("1234-5678")),
            compression: Compression::Gzip,
            block_size: 1048576,
            resume_mode: ResumeMode::Fresh,
            sudo: true,
            local_path: "/srv/snaps/20240102T030405Z.img.gz".to_string(),
            read_to: 120,
            write_to: 120,
        }
    );
}

#[test]
fn assemble_names_the_destination_by_compression() {
    for (txt, path) in [
        ("none", "./S.img"),
        ("gzip", "./S.img.gz"),
        ("zstd", "./S.img.zst"),
        ("xz", "./S.img.xz"),
        ("lz4", "./S.img"),
    ] {
        let cfg = config(
            Some(DdConfig {
                device: "/dev/sda".to_string(),
                block_size: 65536,
                compression: txt.to_string(),
                resume: "fresh".to_string(),
                sudo: true,
            }),
            ".",
        );
        let job = DdBuilder::new(&cfg).assemble("h", &catalog(), "S").unwrap();
        assert_eq!(job.local_path, path);
        let mut std_path = std::path::PathBuf::from(".");
        std_path.push("S");
        std_path.set_extension(job.compression.ext().trim_start_matches('.'));
        assert_eq!(job.local_path, std_path.to_string_lossy());
    }
}

#[test]
fn assemble_fails_when_no_device_answers() {
    let cfg = config(
        Some(DdConfig {
            device: "UUID=missing".to_string(),
            block_size: 65536,
            compression: "none".to_string(),
            resume: "fresh".to_string(),
            sudo: true,
        }),
        ".",
    );
    assert_eq!(
        DdBuilder::new(&cfg).assemble("h", &catalog(), "S"),
        Err(AppError::DeviceNotFound("UUID=missing".to_string()))
    );
    let defaults = config(None, ".");
    assert_eq!(
        DdBuilder::new(&defaults).assemble("h", &[], "S"),
        Err(AppError::DeviceNotFound("/dev/vda".to_string()))
    );
}

#[test]
fn build_stamps_the_destination_in_utc() {
    let cfg = config(None, "snaps");
    let job = DdBuilder::new(&cfg)
        .build("192.0.2.10:22", &catalog(), Timestamp { secs: 1704164645, nanos: 999 })
        .unwrap();
    assert_eq!(job.local_path, "snaps/20240102T030405Z.img");
    assert_eq!(job.device.name, "vda");
    assert_eq!(job.read_to, 120);
    assert_eq!(job.write_to, 120);
    let epoch = DdBuilder::new(&cfg).build("h", &catalog(), Timestamp { secs: 0, nanos: 0 }).unwrap();
    assert_eq!(epoch.local_path, "snaps/19700101T000000Z.img");
}

#[test]
fn build_reports_a_missing_device() {
    let cfg = config(None, ".");
    assert_eq!(
        DdBuilder::new(&cfg).build("h", &[device("sda", None, None)], Timestamp { secs: 0, nanos: 0 }),
        Err(AppError::DeviceNotFound("/dev/vda".to_string()))
    );
}

#[test]
fn build_rejects_an_instant_outside_the_calendar() {
    let cfg = config(None, ".");
    assert_eq!(
        DdBuilder::new(&cfg).build("h", &catalog(), Timestamp { secs: i64::MAX, nanos: 0 }),
        Err(AppError::Config(ConfigError::Validation("timestamp out of range".to_string())))
    );
}
