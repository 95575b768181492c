//! Filesystem types, as `blkid` names them.

use vstd::prelude::*;
use vstd::string::StringExecFns;

use crate::command::{command_line, working_dir, Command};
use crate::text::{
    debug_quote, debug_text, lemma_trimmed_unchanged, str_eq, trim, trimmed, whitespace,
};

verus! {

/// Filesystem type detected by probing a partition image.
#[derive(Debug, PartialEq, Eq)]
pub enum FsType {
    /// FAT filesystem (FAT12, FAT16, FAT32).
    Fat,
    /// Linux ext filesystem (ext2, ext3, ext4).
    Ext,
    /// Unknown or unsupported filesystem type.
    Unknown(String),
}

/// What an `FsType` stands for: the variant, with the text of `Unknown`.
pub enum FsKind {
    Fat,
    Ext,
    Unknown(Seq<char>),
}

impl View for FsType {
    type V = FsKind;

    open spec fn view(&self) -> FsKind {
        match self {
            FsType::Fat => FsKind::Fat,
            FsType::Ext => FsKind::Ext,
            FsType::Unknown(name) => FsKind::Unknown(name@),
        }
    }
}

impl Clone for FsType {
    fn clone(&self) -> (copy: FsType)
        ensures
            copy@ == self@,
    {
        match self {
            FsType::Fat => FsType::Fat,
            FsType::Ext => FsType::Ext,
            FsType::Unknown(name) => FsType::Unknown(name.clone()),
        }
    }
}

/// Whether `token` is one of the names `blkid` gives a FAT filesystem.
pub open spec fn is_fat_token(token: Seq<char>) -> bool {
    ||| token == "vfat"@
    ||| token == "fat"@
    ||| token == "fat12"@
    ||| token == "fat16"@
    ||| token == "fat32"@
    ||| token == "msdos"@
}

/// Whether `token` is one of the names `blkid` gives an ext filesystem.
pub open spec fn is_ext_token(token: Seq<char>) -> bool {
    ||| token == "ext2"@
    ||| token == "ext3"@
    ||| token == "ext4"@
}

/// The filesystem type that a `blkid` TYPE token stands for. The match is
/// exact and case-sensitive; an empty token is reported as unformatted.
pub open spec fn classify(token: Seq<char>) -> FsKind {
    if is_fat_token(token) {
        FsKind::Fat
    } else if is_ext_token(token) {
        FsKind::Ext
    } else if token.len() == 0 {
        FsKind::Unknown("empty or unformatted"@)
    } else {
        FsKind::Unknown(token)
    }
}

/// The text that formatting a filesystem type with `{:?}` produces.
pub open spec fn fs_debug_text(kind: FsKind) -> Seq<char> {
    match kind {
        FsKind::Fat => "Fat"@,
        FsKind::Ext => "Ext"@,
        FsKind::Unknown(name) => "Unknown("@ + debug_text(name) + ")"@,
    }
}

impl FsType {
    /// Converts a `blkid` TYPE token to a filesystem type.
    pub fn from_blkid_type(ty: &str) -> (fs_type: FsType)
        ensures
            fs_type@ == classify(ty@),
    {
        if str_eq(ty, "vfat") || str_eq(ty, "fat") || str_eq(ty, "fat12") || str_eq(ty, "fat16")
            || str_eq(ty, "fat32") || str_eq(ty, "msdos") {
            FsType::Fat
        } else if str_eq(ty, "ext2") || str_eq(ty, "ext3") || str_eq(ty, "ext4") {
            FsType::Ext
        } else if ty.is_empty() {
            FsType::Unknown("empty or unformatted".to_owned())
        } else {
            FsType::Unknown(ty.to_owned())
        }
    }

    /// Whether this is a known, extractable filesystem type.
    pub fn is_supported(&self) -> (supported: bool)
        ensures
            supported == (self@ is Fat || self@ is Ext),
    {
        match self {
            FsType::Fat => true,
            FsType::Ext => true,
            FsType::Unknown(_) => false,
        }
    }

    /// The command that probes the filesystem type of an image file:
    /// `blkid -o value -s TYPE <image_path>`.
    pub fn probe_command(image_path: &str) -> (cmd: Command)
        ensures
            command_line(cmd) == seq!["blkid"@, "-o"@, "value"@, "-s"@, "TYPE"@, image_path@],
            working_dir(cmd) == None::<Seq<char>>,
    {
        let mut cmd = Command::new("blkid");
        cmd.add_arg("-o");
        cmd.add_arg("value");
        cmd.add_arg("-s");
        cmd.add_arg("TYPE");
        cmd.add_arg(image_path);
        cmd
    }

    /// The filesystem type that the output of the probe command stands for:
    /// the output is trimmed of whitespace and read as a TYPE token.
    pub fn probe(output: &str) -> (fs_type: FsType)
        ensures
            fs_type@ == classify(trimmed(output@)),
    {
        FsType::from_blkid_type(trim(output))
    }

    /// The text that formatting this value with `{:?}` produces.
    pub fn debug_string(&self) -> (text: String)
        ensures
            text@ == fs_debug_text(self@),
    {
        match self {
            FsType::Fat => "Fat".to_owned(),
            FsType::Ext => "Ext".to_owned(),
            FsType::Unknown(name) => {
                let mut text = "Unknown(".to_owned();
                let quoted = debug_quote(name.as_str());
                text.append(quoted.as_str());
                text.append(")");
                text
            },
        }
    }
}

/// The table of tokens is unambiguous: a token stands for FAT exactly if it
/// is one of the FAT names, for ext exactly if it is one of the ext names,
/// and for an unknown type otherwise. The unknown type carries the token as
/// it is, but for the empty token, which is reported as unformatted.
pub proof fn lemma_classify_table(token: Seq<char>)
    ensures
        classify(token) is Fat <==> is_fat_token(token),
        classify(token) is Ext <==> is_ext_token(token),
        classify(token) is Unknown <==> !is_fat_token(token) && !is_ext_token(token),
        token.len() == 0 ==> classify(token) == FsKind::Unknown("empty or unformatted"@),
        token.len() > 0 && !is_fat_token(token) && !is_ext_token(token) ==> classify(token)
            == FsKind::Unknown(token),
{
    reveal_strlit("vfat");
    reveal_strlit("fat");
    reveal_strlit("fat12");
    reveal_strlit("fat16");
    reveal_strlit("fat32");
    reveal_strlit("msdos");
    reveal_strlit("ext2");
    reveal_strlit("ext3");
    reveal_strlit("ext4");
    if is_fat_token(token) {
        assert(token[0] == 'v' || token[0] == 'f' || token[0] == 'm');
    }
    if is_ext_token(token) {
        assert(token[0] == 'e');
    }
}

/// Output of the probe command that neither begins nor ends with
/// whitespace is read as the token that it is.
pub proof fn lemma_probe_reads_token(output: Seq<char>)
    requires
        output.len() > 0 ==> !whitespace(output[0]) && !whitespace(output.last()),
    ensures
        classify(trimmed(output)) == classify(output),
{
    lemma_trimmed_unchanged(output);
}

} // verus!
