//! The text of the remote `tar` command.

use vstd::prelude::*;
use vstd::string::*;

use crate::tar::compression::Compression;
use crate::tar::exclude::ExcludeList;
use crate::tar::paths::PathList;
use crate::text::{join_text, prefixed};

verus! {

/// The part of the command that selects the mode, the compression and the
/// archive file.
pub open spec fn archive_flags_text(out_file: Seq<char>, comp: Compression) -> Seq<char> {
    match comp {
        Compression::Gzip | Compression::Xz => " -c"@ + comp.flag_text() + "pvf"@ + " '"@
            + out_file + "'"@,
        Compression::Zstd => " -cpvf"@ + " '"@ + comp.flag_text() + "' "@ + out_file,
    }
}

/// The part of the command that names the exclusions: nothing where there
/// are none, else a space and the options.
pub open spec fn exclude_part_text(excludes: Seq<Seq<char>>) -> Seq<char> {
    let options = join_text(prefixed(excludes, "--exclude="@), " "@);
    if options.len() == 0 {
        Seq::<char>::empty()
    } else {
        " "@ + options
    }
}

/// The command that archives `paths` into `out_file` on the remote host.
pub open spec fn tar_command_text(
    out_file: Seq<char>,
    paths: Seq<Seq<char>>,
    excludes: Seq<Seq<char>>,
    comp: Compression,
) -> Seq<char> {
    "sudo tar"@ + archive_flags_text(out_file, comp) + " --ignore-failed-read"@
        + exclude_part_text(excludes) + " "@ + join_text(paths, " "@)
}

/// Assembles the command that archives `paths` into `out_file`, leaving out
/// `excludes`, compressed as `comp` says.
pub fn build_tar_command(
    out_file: &str,
    paths: &PathList,
    excludes: &ExcludeList,
    comp: Compression,
) -> (cmd: String)
    ensures
        cmd@ == tar_command_text(out_file@, paths@, excludes@, comp),
{
    let mut cmd = String::from_str("sudo tar");
    match comp {
        Compression::Gzip | Compression::Xz => {
            cmd.append(" -c");
            cmd.append(comp.flag());
            cmd.append("pvf");
            cmd.append(" '");
            cmd.append(out_file);
            cmd.append("'");
        },
        Compression::Zstd => {
            cmd.append(" -cpvf");
            cmd.append(" '");
            cmd.append(comp.flag());
            cmd.append("' ");
            cmd.append(out_file);
        },
    }
    assert(cmd@ =~= "sudo tar"@ + archive_flags_text(out_file@, comp));
    cmd.append(" --ignore-failed-read");
    let exclude_str = excludes.to_string();
    if !exclude_str.as_str().is_empty() {
        cmd.append(" ");
        cmd.append(exclude_str.as_str());
    }
    assert(cmd@ =~= "sudo tar"@ + archive_flags_text(out_file@, comp) + " --ignore-failed-read"@
        + exclude_part_text(excludes@));
    cmd.append(" ");
    let path_str = paths.to_string();
    cmd.append(path_str.as_str());
    cmd
}

} // verus!
