//! The catalog of block devices that a remote host reports.

use vstd::prelude::*;
use vstd::string::*;

use crate::error::AppError;

verus! {

/// One block device of the remote host, as `lsblk` lists it.
#[derive(Debug, Clone, PartialEq, Eq)]
pub struct BlockDevice {
    /// Kernel name, such as `vda`.
    pub name: String,
    pub serial: Option<String>,
    pub uuid: Option<String>,
    /// Size in the human-readable form that the remote tool prints.
    pub size: String,
    pub mountpoint: Option<String>,
}

impl BlockDevice {
    /// The canonical device path: `/dev/` followed by the name.
    pub open spec fn path_text(&self) -> Seq<char> {
        "/dev/"@ + self.name@
    }

    /// The canonical device path: `/dev/` followed by the name.
    pub fn dev_path(&self) -> (out: String)
        ensures
            out@ == self.path_text(),
    {
        String::from_str("/dev/").concat(self.name.as_str())
    }
}

/// The remote command that lists the block devices as JSON.
pub open spec fn lsblk_text(sudo: bool) -> Seq<char> {
    if sudo {
        "sudo lsblk -lJ -o NAME,SERIAL,UUID,SIZE,MOUNTPOINT"@
    } else {
        "lsblk -lJ -o NAME,SERIAL,UUID,SIZE,MOUNTPOINT"@
    }
}

/// The remote command that lists the block devices, with or without
/// privilege escalation.
pub fn lsblk_command(sudo: bool) -> (cmd: &'static str)
    ensures
        cmd@ == lsblk_text(sudo),
{
    if sudo {
        "sudo lsblk -lJ -o NAME,SERIAL,UUID,SIZE,MOUNTPOINT"
    } else {
        "lsblk -lJ -o NAME,SERIAL,UUID,SIZE,MOUNTPOINT"
    }
}

/// What a finished device listing amounts to.
///
/// `status` is the exit status of the listing command and `parsed` what its
/// output decoded to: the catalog, or a description of why the output has
/// not the expected shape. A non-zero status wins over whatever was printed;
/// after a zero status, undecodable output is a malformed response. A failed
/// probe is never retried.
pub fn remote_lsblk(status: i32, parsed: Result<Vec<BlockDevice>, String>) -> (r: Result<
    Vec<BlockDevice>,
    AppError,
>)
    ensures
        status != 0 ==> r == Err::<Vec<BlockDevice>, AppError>(AppError::RemoteExit(status)),
        status == 0 ==> match parsed {
            Ok(devices) => r == Ok::<Vec<BlockDevice>, AppError>(devices),
            Err(why) => r matches Err(AppError::Remote(m)) && m@ == "lsblk json: "@ + why@,
        },
{
    if status != 0 {
        return Err(AppError::RemoteExit(status));
    }
    match parsed {
        Ok(devices) => Ok(devices),
        Err(why) => Err(AppError::Remote(String::from_str("lsblk json: ").concat(why.as_str()))),
    }
}

} // verus!
