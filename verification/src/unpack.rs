//! Unpacking the filesystem of a partition image into a directory.

use vstd::prelude::*;
use vstd::string::StringExecFns;

use crate::command::{command_line, working_dir, Command};
use crate::error::DiskError;
use crate::fs_type::{FsKind, FsType};
use crate::text::{debug_quote, debug_text};

verus! {

/// The message of the error for a filesystem that cannot be unpacked.
pub open spec fn cannot_extract_message(name: Seq<char>) -> Seq<char> {
    "cannot extract filesystem: unsupported type "@ + debug_text(name)
}

/// The command that unpacks the filesystem of `partition_image` into
/// `dst_dir`, which the caller has created before it runs the command.
///
/// * ext: `debugfs -R "rdump / ." <partition_image>`, run in `dst_dir`.
///   Since the command runs in another directory, `partition_image` has to
///   be an absolute path.
/// * FAT: `mcopy -i <partition_image> -snop :: <dst_dir>`.
/// * Any other type is an error, which names the type.
pub fn extract_filesystem(partition_image: &str, dst_dir: &str, fs_type: &FsType) -> (result:
    Result<Command, DiskError>)
    ensures
        match fs_type@ {
            FsKind::Ext => result matches Ok(cmd) && command_line(cmd) == seq![
                "debugfs"@,
                "-R"@,
                "rdump / ."@,
                partition_image@,
            ] && working_dir(cmd) == Some(dst_dir@),
            FsKind::Fat => result matches Ok(cmd) && command_line(cmd) == seq![
                "mcopy"@,
                "-i"@,
                partition_image@,
                "-snop"@,
                "::"@,
                dst_dir@,
            ] && working_dir(cmd) == None::<Seq<char>>,
            FsKind::Unknown(name) => result matches Err(error) && error@
                == cannot_extract_message(name),
        },
{
    match fs_type {
        FsType::Ext => {
            let mut cmd = Command::new("debugfs");
            cmd.add_arg("-R");
            cmd.add_arg("rdump / .");
            cmd.add_arg(partition_image);
            Ok(cmd.with_cwd(dst_dir))
        },
        FsType::Fat => {
            let mut cmd = Command::new("mcopy");
            cmd.add_arg("-i");
            cmd.add_arg(partition_image);
            cmd.add_arg("-snop");
            cmd.add_arg("::");
            cmd.add_arg(dst_dir);
            Ok(cmd)
        },
        FsType::Unknown(name) => {
            let mut message = "cannot extract filesystem: unsupported type ".to_owned();
            let quoted = debug_quote(name.as_str());
            message.append(quoted.as_str());
            Err(DiskError::new(message))
        },
    }
}

} // verus!
