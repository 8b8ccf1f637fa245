use remote_backup::backup::{
    archive_command, archive_record, fill_timestamp, plan_archive, remote_archive_path,
    resolve_filename, ArchivePlan,
};
use remote_backup::clock::Timestamp;
use remote_backup::config::{Backup, Config, Filesystem, Options, Remote};
use remote_backup::error::{AppError, ConfigError};
use remote_backup::metadata::{BackupMeta, JsonWriter};
use remote_backup::tar::builder::TarError;

const RUNTIME: &str = "--exclude=/proc --exclude=/sys --exclude=/dev --exclude=/run --exclude=/tmp --exclude=/mnt --exclude=/media --exclude=/var/run --exclude=/var/lock --exclude=/lost+found";

fn config(filesystems: Vec<Filesystem>, download: bool) -> Config {
    Config {
        mode: "tar".to_string(),
        filesystems,
        remote: Remote {
            host: "192.0.2.10".to_string(),
            port: 22,
            user: "root".to_string(),
            password: "pw".to_string(),
            private_key: None,
        },
        backup: Backup { dir: "/var/backups/".to_string(), filename: "s-{{timestamp}}.tgz".to_string() },
        options: Options { download_to_local: download, local_download_dir: "downloads".to_string() },
        dd: None,
    }
}

fn now() -> Timestamp {
    Timestamp { secs: 1431648000, nanos: 123 }
}

#[test]
fn fill_timestamp_replaces_each_placeholder() {
    assert_eq!(fill_timestamp("s-{{timestamp}}.tgz", "T"), "s-T.tgz");
    assert_eq!(fill_timestamp("{{timestamp}}/{{timestamp}}", "T"), "T/T");
    assert_eq!(fill_timestamp("plain.tgz", "T"), "plain.tgz");
    assert_eq!(fill_timestamp("{timestamp}", "T"), "{timestamp}");
    assert_eq!(fill_timestamp("{{{timestamp}}}", "T"), "{T}");
}

#[test]
fn resolve_filename_stamps_in_rfc3339() {
    assert_eq!(
        resolve_filename("s-{{timestamp}}.tgz", now()),
        Ok("s-2015-05-15T00:00:00Z.tgz".to_string())
    );
    assert_eq!(
        resolve_filename("{{timestamp}}", Timestamp { secs: 1704164645, nanos: 0 }),
        Ok("2024-01-02T03:04:05Z".to_string())
    );
}

#[test]
fn resolve_filename_keeps_a_plain_name() {
    assert_eq!(resolve_filename("snapshot.tar.gz", now()), Ok("snapshot.tar.gz".to_string()));
    assert_eq!(
        resolve_filename("snapshot.tar.gz", Timestamp { secs: i64::MAX, nanos: 0 }),
        Ok("snapshot.tar.gz".to_string())
    );
    assert_eq!(resolve_filename("", now()), Ok(String::new()));
}

#[test]
fn resolve_filename_rejects_an_instant_outside_the_calendar() {
    assert_eq!(
        resolve_filename("s-{{timestamp}}", Timestamp { secs: i64::MIN, nanos: 0 }),
        Err(AppError::Config(ConfigError::Validation("timestamp out of range".to_string())))
    );
}

#[test]
fn remote_archive_path_ignores_trailing_slashes() {
    assert_eq!(remote_archive_path("/var/backups", "s.tgz"), "/var/backups/s.tgz");
    assert_eq!(remote_archive_path("/var/backups/", "s.tgz"), "/var/backups/s.tgz");
    assert_eq!(remote_archive_path("/var/backups///", "s.tgz"), "/var/backups/s.tgz");
    assert_eq!(remote_archive_path("/", "s.tgz"), "/s.tgz");
    assert_eq!(remote_archive_path("", "s.tgz"), "/s.tgz");
}

#[test]
fn archive_command_lists_each_filesystem_once() {
    let cfg = config(
        vec![
            Filesystem::Etc,
            Filesystem::Custom("/data".to_string()),
            Filesystem::Custom("/etc".to_string()),
            Filesystem::VarWww,
        ],
        false,
    );
    assert_eq!(
        archive_command(&cfg, "/var/backups/s.tgz"),
        Ok(format!(
            "sudo tar -czpvf '/var/backups/s.tgz' --ignore-failed-read {} /etc /data /var/www",
            RUNTIME
        ))
    );
}

#[test]
fn archive_command_needs_a_filesystem() {
    assert_eq!(archive_command(&config(Vec::new(), false), "/b/s.tgz"), Err(TarError::EmptyPathList));
}

#[test]
fn plan_without_download() {
    let cfg = config(vec![Filesystem::Root], false);
    assert_eq!(
        plan_archive(&cfg, "s.tgz"),
        Ok(ArchivePlan {
            filename: "s.tgz".to_string(),
            remote_path: "/var/backups/s.tgz".to_string(),
            tar_cmd: format!("sudo tar -czpvf '/var/backups/s.tgz' --ignore-failed-read {} /", RUNTIME),
            local_path: None,
        })
    );
}

#[test]
fn plan_with_download() {
    let cfg = config(vec![Filesystem::Home, Filesystem::Etc], true);
    let plan = plan_archive(&cfg, "s.tgz").unwrap();
    assert_eq!(plan.local_path, Some("downloads/s.tgz".to_string()));
    assert_eq!(plan.remote_path, "/var/backups/s.tgz");
    assert_eq!(
        plan.tar_cmd,
        format!("sudo tar -czpvf '/var/backups/s.tgz' --ignore-failed-read {} /home /etc", RUNTIME)
    );
}

#[test]
fn plan_needs_a_filesystem() {
    assert_eq!(
        plan_archive(&config(Vec::new(), true), "s.tgz"),
        Err(AppError::Config(ConfigError::Validation(
            "`filesystems` list must not be empty".to_string()
        )))
    );
}

#[test]
fn archive_record_and_its_file() {
    let cfg = config(vec![Filesystem::Etc, Filesystem::Custom("/data".to_string())], true);
    let record = archive_record(&cfg, "s.tgz", "downloads/s.tgz", 4096, "ab12", now());
    assert_eq!(
        record,
        BackupMeta {
            snapshot_name: "s.tgz".to_string(),
            remote_path: "/var/backups/s.tgz".to_string(),
            local_path: "downloads/s.tgz".to_string(),
            size_bytes: 4096,
            sha256: "ab12".to_string(),
            timestamp: now(),
            filesystems: vec!["/etc".to_string(), "/data".to_string()],
        }
    );
    assert_eq!(JsonWriter::target(&record, "downloads"), "downloads/s.tgz.json");
    assert_eq!(JsonWriter::target(&record, "downloads/"), "downloads/s.tgz.json");
    assert_eq!(JsonWriter::target(&record, "."), "./s.tgz.json");
}
