//! Disk identifiers and the formatting of partitions.

use vstd::prelude::*;
use vstd::string::StrSliceExecFns;

use crate::command::{command_line, texts, working_dir, Command};

verus! {

/// Whether `id` begins with the prefix `0x`.
pub open spec fn has_hex_prefix(id: Seq<char>) -> bool {
    id.len() >= 2 && id[0] == '0' && id[1] == 'x'
}

/// The disk id that `sfdisk` output `id` stands for: an MBR id is printed
/// with a leading `0x`, which is left out; any other id is kept as it is.
pub open spec fn normalized_disk_id(id: Seq<char>) -> Seq<char> {
    if has_hex_prefix(id) {
        id.skip(2)
    } else {
        id
    }
}

/// The command that prints the disk id of an image or device:
/// `/usr/bin/env sfdisk --disk-id <path>`.
pub fn disk_id_command(path: &str) -> (cmd: Command)
    ensures
        command_line(cmd) == seq!["/usr/bin/env"@, "sfdisk"@, "--disk-id"@, path@],
        working_dir(cmd) == None::<Seq<char>>,
{
    let mut cmd = Command::new("/usr/bin/env");
    cmd.add_arg("sfdisk");
    cmd.add_arg("--disk-id");
    cmd.add_arg(path);
    cmd
}

/// Returns the disk id that the output of the disk id command stands for.
/// `output` is what the command printed, without the line break at its end.
pub fn get_disk_id(output: &str) -> (disk_id: String)
    ensures
        disk_id@ == normalized_disk_id(output@),
{
    let len = output.unicode_len();
    if len >= 2 && output.get_char(0) == '0' && output.get_char(1) == 'x' {
        assert(output@.subrange(2, len as int) =~= output@.skip(2));
        output.substring_char(2, len).to_owned()
    } else {
        output.to_owned()
    }
}

/// Exactly one prefix is stripped: of an id that begins with `0x`, what
/// follows the first `0x` is returned whole, whatever it begins with.
pub proof fn lemma_disk_id_strips_one_prefix(rest: Seq<char>)
    ensures
        normalized_disk_id(seq!['0', 'x'] + rest) == rest,
{
    assert((seq!['0', 'x'] + rest).skip(2) =~= rest);
}

/// An id without the prefix `0x`, such as a GPT GUID, passes through unchanged.
pub proof fn lemma_disk_id_without_prefix(id: Seq<char>)
    requires
        !has_hex_prefix(id),
    ensures
        normalized_disk_id(id) == id,
{
}

/// The command that formats a partition with FAT32:
/// `/usr/bin/env mkfs.vfat -n <label> <dev>`.
pub fn mkfs_vfat(dev: &str, label: &str) -> (cmd: Command)
    ensures
        command_line(cmd) == seq!["/usr/bin/env"@, "mkfs.vfat"@, "-n"@, label@, dev@],
        working_dir(cmd) == None::<Seq<char>>,
{
    let mut cmd = Command::new("/usr/bin/env");
    cmd.add_arg("mkfs.vfat");
    cmd.add_arg("-n");
    cmd.add_arg(label);
    cmd.add_arg(dev);
    cmd
}

/// The command that formats a partition with ext4:
/// `/usr/bin/env mkfs.ext4 -F -L <label> <dev>`, followed by the additional
/// options as they are given. `-F` lets the target be a regular file.
pub fn mkfs_ext4(dev: &str, label: &str, additional_options: &[String]) -> (cmd: Command)
    ensures
        command_line(cmd) == seq![
            "/usr/bin/env"@,
            "mkfs.ext4"@,
            "-F"@,
            "-L"@,
            label@,
            dev@,
        ] + texts(additional_options@),
        working_dir(cmd) == None::<Seq<char>>,
{
    let mut cmd = Command::new("/usr/bin/env");
    cmd.add_arg("mkfs.ext4");
    cmd.add_arg("-F");
    cmd.add_arg("-L");
    cmd.add_arg(label);
    cmd.add_arg(dev);
    cmd.extend_args(additional_options);
    cmd
}

} // verus!
