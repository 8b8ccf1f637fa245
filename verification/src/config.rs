//! The settings of a backup run, as they stand after the configuration file
//! was decoded.

use vstd::prelude::*;
use vstd::string::*;

use crate::error::{AppError, ConfigError};
use crate::text::{is_blank, is_blank_text, str_eq};

verus! {

/// A filesystem path to include in an archive: one of the well-known roots,
/// or any other path.
#[derive(Debug, Clone, PartialEq, Eq)]
pub enum Filesystem {
    Root,
    RootHome,
    Home,
    Etc,
    Opt,
    Srv,
    Boot,
    Mnt,
    Media,
    Usr,
    Lib,
    Lib64,
    Bin,
    Sbin,
    Tmp,
    Var,
    VarWww,
    Dev,
    Proc,
    Sys,
    Custom(String),
}

impl Filesystem {
    /// The path that this value stands for.
    pub open spec fn path_text(&self) -> Seq<char> {
        match self {
            Filesystem::Root => "/"@,
            Filesystem::RootHome => "/root"@,
            Filesystem::Home => "/home"@,
            Filesystem::Etc => "/etc"@,
            Filesystem::Opt => "/opt"@,
            Filesystem::Srv => "/srv"@,
            Filesystem::Boot => "/boot"@,
            Filesystem::Mnt => "/mnt"@,
            Filesystem::Media => "/media"@,
            Filesystem::Usr => "/usr"@,
            Filesystem::Lib => "/lib"@,
            Filesystem::Lib64 => "/lib64"@,
            Filesystem::Bin => "/bin"@,
            Filesystem::Sbin => "/sbin"@,
            Filesystem::Tmp => "/tmp"@,
            Filesystem::Var => "/var"@,
            Filesystem::VarWww => "/var/www"@,
            Filesystem::Dev => "/dev"@,
            Filesystem::Proc => "/proc"@,
            Filesystem::Sys => "/sys"@,
            Filesystem::Custom(s) => s@,
        }
    }

    /// The well-known root that `txt` spells, if it spells one.
    pub open spec fn well_known(txt: Seq<char>) -> Option<Filesystem> {
        if txt == "/"@ {
            Some(Filesystem::Root)
        } else if txt == "/root"@ {
            Some(Filesystem::RootHome)
        } else if txt == "/home"@ {
            Some(Filesystem::Home)
        } else if txt == "/etc"@ {
            Some(Filesystem::Etc)
        } else if txt == "/opt"@ {
            Some(Filesystem::Opt)
        } else if txt == "/srv"@ {
            Some(Filesystem::Srv)
        } else if txt == "/boot"@ {
            Some(Filesystem::Boot)
        } else if txt == "/mnt"@ {
            Some(Filesystem::Mnt)
        } else if txt == "/media"@ {
            Some(Filesystem::Media)
        } else if txt == "/usr"@ {
            Some(Filesystem::Usr)
        } else if txt == "/lib"@ {
            Some(Filesystem::Lib)
        } else if txt == "/lib64"@ {
            Some(Filesystem::Lib64)
        } else if txt == "/bin"@ {
            Some(Filesystem::Bin)
        } else if txt == "/sbin"@ {
            Some(Filesystem::Sbin)
        } else if txt == "/tmp"@ {
            Some(Filesystem::Tmp)
        } else if txt == "/var"@ {
            Some(Filesystem::Var)
        } else if txt == "/var/www"@ {
            Some(Filesystem::VarWww)
        } else if txt == "/dev"@ {
            Some(Filesystem::Dev)
        } else if txt == "/proc"@ {
            Some(Filesystem::Proc)
        } else if txt == "/sys"@ {
            Some(Filesystem::Sys)
        } else {
            None
        }
    }

    /// Reads a path: a well-known root becomes its variant, any other text is
    /// kept as it is. Either way the value stands for exactly the text read.
    pub fn parse(txt: &str) -> (fs: Self)
        ensures
            match Self::well_known(txt@) {
                Some(known) => fs == known,
                None => fs matches Filesystem::Custom(s) && s@ == txt@,
            },
            fs.path_text() == txt@,
    {
        if str_eq(txt, "/") {
            Filesystem::Root
        } else if str_eq(txt, "/root") {
            Filesystem::RootHome
        } else if str_eq(txt, "/home") {
            Filesystem::Home
        } else if str_eq(txt, "/etc") {
            Filesystem::Etc
        } else if str_eq(txt, "/opt") {
            Filesystem::Opt
        } else if str_eq(txt, "/srv") {
            Filesystem::Srv
        } else if str_eq(txt, "/boot") {
            Filesystem::Boot
        } else if str_eq(txt, "/mnt") {
            Filesystem::Mnt
        } else if str_eq(txt, "/media") {
            Filesystem::Media
        } else if str_eq(txt, "/usr") {
            Filesystem::Usr
        } else if str_eq(txt, "/lib") {
            Filesystem::Lib
        } else if str_eq(txt, "/lib64") {
            Filesystem::Lib64
        } else if str_eq(txt, "/bin") {
            Filesystem::Bin
        } else if str_eq(txt, "/sbin") {
            Filesystem::Sbin
        } else if str_eq(txt, "/tmp") {
            Filesystem::Tmp
        } else if str_eq(txt, "/var") {
            Filesystem::Var
        } else if str_eq(txt, "/var/www") {
            Filesystem::VarWww
        } else if str_eq(txt, "/dev") {
            Filesystem::Dev
        } else if str_eq(txt, "/proc") {
            Filesystem::Proc
        } else if str_eq(txt, "/sys") {
            Filesystem::Sys
        } else {
            Filesystem::Custom(String::from_str(txt))
        }
    }

    /// The path that this value stands for.
    pub fn to_string(&self) -> (out: String)
        ensures
            out@ == self.path_text(),
    {
        match self {
            Filesystem::Root => String::from_str("/"),
            Filesystem::RootHome => String::from_str("/root"),
            Filesystem::Home => String::from_str("/home"),
            Filesystem::Etc => String::from_str("/etc"),
            Filesystem::Opt => String::from_str("/opt"),
            Filesystem::Srv => String::from_str("/srv"),
            Filesystem::Boot => String::from_str("/boot"),
            Filesystem::Mnt => String::from_str("/mnt"),
            Filesystem::Media => String::from_str("/media"),
            Filesystem::Usr => String::from_str("/usr"),
            Filesystem::Lib => String::from_str("/lib"),
            Filesystem::Lib64 => String::from_str("/lib64"),
            Filesystem::Bin => String::from_str("/bin"),
            Filesystem::Sbin => String::from_str("/sbin"),
            Filesystem::Tmp => String::from_str("/tmp"),
            Filesystem::Var => String::from_str("/var"),
            Filesystem::VarWww => String::from_str("/var/www"),
            Filesystem::Dev => String::from_str("/dev"),
            Filesystem::Proc => String::from_str("/proc"),
            Filesystem::Sys => String::from_str("/sys"),
            Filesystem::Custom(s) => s.clone(),
        }
    }
}

/// How to reach the remote host.
#[derive(Debug, Clone, PartialEq, Eq)]
pub struct Remote {
    /// The address of the host, in text.
    pub host: String,
    pub port: u16,
    pub user: String,
    pub password: String,
    /// Path of a private key file; when present it is used in place of the
    /// password.
    pub private_key: Option<String>,
}

impl Remote {
    /// The port used when the configuration names none.
    pub fn default_port() -> (p: u16)
        ensures
            p == 22,
    {
        22
    }

    /// The user name used when the configuration names none.
    pub fn default_user() -> (u: String)
        ensures
            u@ == "root"@,
    {
        String::from_str("root")
    }
}

/// Where on the remote host the archive is created, and under which name.
#[derive(Debug, Clone, PartialEq, Eq)]
pub struct Backup {
    /// Remote directory where the archive will be created.
    pub dir: String,
    /// Archive file name; `{{timestamp}}` in it stands for the time of the run.
    pub filename: String,
}

/// Optional feature toggles.
#[derive(Debug, Clone, PartialEq, Eq)]
pub struct Options {
    /// Whether the archive is downloaded after it was created.
    pub download_to_local: bool,
    /// The local directory that downloads and snapshots are written to.
    pub local_download_dir: String,
}

impl Options {
    /// The local directory used when the configuration names none.
    pub fn default_download_dir() -> (d: String)
        ensures
            d@ == "."@,
    {
        String::from_str(".")
    }
}

impl Default for Options {
    fn default() -> (o: Self)
        ensures
            !o.download_to_local,
            o.local_download_dir@ == "."@,
    {
        Options { download_to_local: false, local_download_dir: Options::default_download_dir() }
    }
}

/// Settings of the raw-disk snapshot mode.
#[derive(Debug, Clone, PartialEq, Eq)]
pub struct DdConfig {
    /// `/dev/<name>`, `UUID=<uuid>` or `SERIAL=<serial>`.
    pub device: String,
    /// Block size in bytes.
    pub block_size: u64,
    /// `none`, `gzip`, `zstd` or `xz`.
    pub compression: String,
    /// `fresh` or `continue`.
    pub resume: String,
    /// Whether the remote commands run under `sudo`.
    pub sudo: bool,
}

impl DdConfig {
    /// The block size used when the configuration names none.
    pub fn default_block_size() -> (n: u64)
        ensures
            n == 65536,
    {
        65536
    }

    /// The compression used when the configuration names none.
    pub fn default_compression() -> (c: String)
        ensures
            c@ == "none"@,
    {
        String::from_str("none")
    }

    /// The resume policy used when the configuration names none.
    pub fn default_resume() -> (r: String)
        ensures
            r@ == "fresh"@,
    {
        String::from_str("fresh")
    }

    /// Whether remote commands run under `sudo` when the configuration does
    /// not say.
    pub fn default_sudo() -> (s: bool)
        ensures
            s,
    {
        true
    }
}

/// Which kind of backup a run performs.
#[derive(Debug, Clone, Copy, PartialEq, Eq, Structural)]
pub enum Mode {
    /// A raw block-device snapshot.
    Dd,
    /// A filesystem archive.
    Tar,
}

/// All settings of a run.
#[derive(Debug, Clone, PartialEq, Eq)]
pub struct Config {
    /// `dd` or `tar`.
    pub mode: String,
    /// The filesystem paths to include in an archive.
    pub filesystems: Vec<Filesystem>,
    pub remote: Remote,
    pub backup: Backup,
    pub options: Options,
    pub dd: Option<DdConfig>,
}

impl Config {
    /// What stops this configuration from being used, if anything does: an
    /// empty list of filesystems, then a blank archive file name, then a
    /// blank password.
    pub open spec fn defect(&self) -> Option<Seq<char>> {
        if self.filesystems@.len() == 0 {
            Some("`filesystems` list must not be empty"@)
        } else if is_blank_text(self.backup.filename@) {
            Some("`backup.filename` must not be empty"@)
        } else if is_blank_text(self.remote.password@) {
            Some("`remote.password` must not be empty"@)
        } else {
            None
        }
    }

    /// Accepts the configuration, or says which setting is unusable.
    pub fn validate(&self) -> (r: Result<(), ConfigError>)
        ensures
            match self.defect() {
                Some(why) => r matches Err(ConfigError::Validation(m)) && m@ == why,
                None => r is Ok,
            },
    {
        if self.filesystems.len() == 0 {
            Err(ConfigError::Validation(String::from_str("`filesystems` list must not be empty")))
        } else if is_blank(self.backup.filename.as_str()) {
            Err(ConfigError::Validation(String::from_str("`backup.filename` must not be empty")))
        } else if is_blank(self.remote.password.as_str()) {
            Err(ConfigError::Validation(String::from_str("`remote.password` must not be empty")))
        } else {
            Ok(())
        }
    }

    /// The kind of backup that `mode` selects, where it selects one.
    pub open spec fn mode_of(txt: Seq<char>) -> Option<Mode> {
        if txt == "dd"@ {
            Some(Mode::Dd)
        } else if txt == "tar"@ {
            Some(Mode::Tar)
        } else {
            None
        }
    }

    /// The kind of backup to run. Any mode other than `dd` and `tar` is a
    /// configuration error that quotes the mode.
    pub fn run_mode(&self) -> (r: Result<Mode, AppError>)
        ensures
            match Self::mode_of(self.mode@) {
                Some(m) => r == Ok::<Mode, AppError>(m),
                None => r matches Err(AppError::Config(ConfigError::Validation(m))) && m@
                    == "Invalid mode: "@ + self.mode@,
            },
    {
        if str_eq(self.mode.as_str(), "dd") {
            Ok(Mode::Dd)
        } else if str_eq(self.mode.as_str(), "tar") {
            Ok(Mode::Tar)
        } else {
            Err(
                AppError::Config(
                    ConfigError::Validation(
                        String::from_str("Invalid mode: ").concat(self.mode.as_str()),
                    ),
                ),
            )
        }
    }
}

} // verus!
