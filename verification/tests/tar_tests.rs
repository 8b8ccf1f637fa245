use remote_backup::tar::builder::TarError;
use remote_backup::tar::command::build_tar_command;
use remote_backup::tar::exclude::ExcludeList;
use remote_backup::tar::paths::PathList;
use remote_backup::tar::verify::{VerifyMode, VerifyStep};
use remote_backup::tar::{Compression, TarBuilder};

const RUNTIME: &str = "--exclude=/proc --exclude=/sys --exclude=/dev --exclude=/run --exclude=/tmp --exclude=/mnt --exclude=/media --exclude=/var/run --exclude=/var/lock --exclude=/lost+found";

#[test]
fn compression_flags_and_names() {
    assert_eq!(Compression::Gzip.flag(), "z");
    assert_eq!(Compression::Xz.flag(), "J");
    assert_eq!(Compression::Zstd.flag(), "--zstd");
    assert_eq!(Compression::Gzip.to_string(), "gzip");
    assert_eq!(Compression::Xz.to_string(), "xz");
    assert_eq!(Compression::Zstd.to_string(), "zstd");
}

#[test]
fn verify_mode_names_and_steps() {
    assert_eq!(VerifyMode::Sha256.to_string(), "sha256");
    assert_eq!(VerifyMode::ListAndHash.to_string(), "list+sha256");
    assert_eq!(VerifyMode::Sha256.steps(), vec![VerifyStep::Hash]);
    assert_eq!(VerifyMode::ListAndHash.steps(), vec![VerifyStep::List, VerifyStep::Hash]);
}

#[test]
fn path_list_keeps_first_occurrences() {
    let mut list = PathList::new();
    assert!(list.is_empty());
    list.push_unique("/etc");
    list.push_unique("/home");
    list.push_unique("/etc");
    list.push_unique("/var/www");
    list.push_unique("/home");
    assert!(!list.is_empty());
    assert_eq!(list.as_slice(), ["/etc".to_string(), "/home".to_string(), "/var/www".to_string()]);
    assert_eq!(list.join_for_shell(), "/etc /home /var/www");
    assert_eq!(list.to_string(), "/etc /home /var/www");
}

#[test]
fn path_list_from_vec_and_default() {
    let list = PathList::from_vec(vec!["/a".to_string(), "/b".to_string(), "/a".to_string()]);
    assert_eq!(list.as_slice(), ["/a".to_string(), "/b".to_string()]);
    assert!(PathList::default().is_empty());
    assert_eq!(PathList::default().join_for_shell(), "");
    assert_eq!(PathList::from_vec(vec!["/only".to_string()]).join_for_shell(), "/only");
}

#[test]
fn path_list_extend_unique_skips_what_is_there() {
    let mut list = PathList::new();
    list.push_unique("/b");
    list.extend_unique(&vec!["/a".to_string(), "/b".to_string(), "/c".to_string(), "/a".to_string()]);
    assert_eq!(list.join_for_shell(), "/b /a /c");
}

#[test]
fn exclude_list_joins_as_options() {
    let mut list = ExcludeList::new();
    assert!(list.is_empty());
    assert_eq!(list.join_for_shell(), "");
    list.push_unique("/proc");
    assert_eq!(list.join_for_shell(), "--exclude=/proc");
    list.push_unique("*.cache");
    list.push_unique("/proc");
    assert_eq!(list.join_for_shell(), "--exclude=/proc --exclude=*.cache");
    assert_eq!(list.to_string(), "--exclude=/proc --exclude=*.cache");
    assert!(ExcludeList::default().is_empty());
}

#[test]
fn default_runtime_exclusions() {
    let mut list = ExcludeList::new();
    list.add_default_runtime();
    assert_eq!(list.join_for_shell(), RUNTIME);
    list.add_default_runtime();
    assert_eq!(list.join_for_shell(), RUNTIME);
}

#[test]
fn default_runtime_exclusions_keep_earlier_rules_in_place() {
    let mut list = ExcludeList::new();
    list.push_unique("/tmp");
    list.push_unique("/data/cache");
    list.add_default_runtime();
    assert_eq!(
        list.join_for_shell(),
        "--exclude=/tmp --exclude=/data/cache --exclude=/proc --exclude=/sys --exclude=/dev --exclude=/run --exclude=/mnt --exclude=/media --exclude=/var/run --exclude=/var/lock --exclude=/lost+found"
    );
}

#[test]
fn tar_command_for_gzip_and_xz() {
    let paths = PathList::from_vec(vec!["/etc".to_string(), "/home".to_string()]);
    let none = ExcludeList::new();
    assert_eq!(
        build_tar_command("/var/backups/s.tar.gz", &paths, &none, Compression::Gzip),
        "sudo tar -czpvf '/var/backups/s.tar.gz' --ignore-failed-read /etc /home"
    );
    assert_eq!(
        build_tar_command("/var/backups/s.tar.xz", &paths, &none, Compression::Xz),
        "sudo tar -cJpvf '/var/backups/s.tar.xz' --ignore-failed-read /etc /home"
    );
}

#[test]
fn tar_command_for_zstd() {
    let paths = PathList::from_vec(vec!["/".to_string()]);
    let mut excludes = ExcludeList::new();
    excludes.push_unique("/proc");
    assert_eq!(
        build_tar_command("/b/s.tar.zst", &paths, &excludes, Compression::Zstd),
        "sudo tar -cpvf '--zstd' /b/s.tar.zst --ignore-failed-read --exclude=/proc /"
    );
}

#[test]
fn tar_command_with_exclusions() {
    let paths = PathList::from_vec(vec!["/".to_string()]);
    let mut excludes = ExcludeList::new();
    excludes.add_default_runtime();
    assert_eq!(
        build_tar_command("/b/s.tgz", &paths, &excludes, Compression::Gzip),
        format!("sudo tar -czpvf '/b/s.tgz' --ignore-failed-read {} /", RUNTIME)
    );
}

#[test]
fn tar_command_without_paths_ends_in_a_space() {
    assert_eq!(
        build_tar_command("o", &PathList::new(), &ExcludeList::new(), Compression::Gzip),
        "sudo tar -czpvf 'o' --ignore-failed-read "
    );
}

#[test]
fn builder_needs_a_path() {
    assert_eq!(TarBuilder::new("/b/s.tgz").build(), Err(TarError::EmptyPathList));
    assert_eq!(
        TarBuilder::new("/b/s.tgz").exclude("/proc").compression(Compression::Xz).build(),
        Err(TarError::EmptyPathList)
    );
    assert_eq!(TarBuilder::new("/b/s.tgz").paths(Vec::new()).build(), Err(TarError::EmptyPathList));
    assert_eq!(TarBuilder::new("/b/s.tgz").to_string(), "<invalid tar builder>");
}

#[test]
fn builder_defaults_to_gzip() {
    assert_eq!(
        TarBuilder::new("/b/s.tgz").add_path("/etc").build(),
        Ok("sudo tar -czpvf '/b/s.tgz' --ignore-failed-read /etc".to_string())
    );
}

#[test]
fn builder_collects_everything() {
    let b = TarBuilder::new("/b/s.tar.xz")
        .paths(vec!["/etc".to_string(), "/home".to_string(), "/etc".to_string()])
        .add_path("/srv")
        .add_path("/home")
        .exclude("/home/*/.cache")
        .exclude_default_runtime()
        .exclude("/proc")
        .compression(Compression::Xz)
        .verify(VerifyMode::Sha256);
    let expected = format!(
        "sudo tar -cJpvf '/b/s.tar.xz' --ignore-failed-read --exclude=/home/*/.cache {} /etc /home /srv",
        RUNTIME
    );
    assert_eq!(b.build(), Ok(expected.clone()));
    assert_eq!(b.to_string(), expected);
    assert_eq!(b.verify_archive(), vec![VerifyStep::Hash]);
}

#[test]
fn verify_archive_steps() {
    let b = TarBuilder::new("a.tgz").add_path("/");
    assert_eq!(b.verify_archive(), Vec::<VerifyStep>::new());
    let b = b.verify(VerifyMode::ListAndHash);
    assert_eq!(b.verify_archive(), vec![VerifyStep::List, VerifyStep::Hash]);
    let b = b.verify(VerifyMode::Sha256);
    assert_eq!(b.verify_archive(), vec![VerifyStep::Hash]);
}
