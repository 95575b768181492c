use img_extract::{extract_filesystem, Command, DiskError, FsType};

fn words(cmd: &Command) -> Vec<String> {
    let mut line = vec![cmd.inner.prog().to_string()];
    line.extend(cmd.inner.args().map(|arg| arg.to_string()));
    line
}

fn command(result: Result<Command, DiskError>) -> Command {
    match result {
        Ok(cmd) => cmd,
        Err(error) => panic!("unexpected error: {}", error.message()),
    }
}

fn error(result: Result<Command, DiskError>) -> DiskError {
    match result {
        Ok(cmd) => panic!("unexpected command: {:?}", cmd),
        Err(error) => error,
    }
}

#[test]
fn ext_is_dumped_by_debugfs_in_the_destination() {
    let cmd = command(extract_filesystem("/tmp/work/partition-2.img", "/out/root", &FsType::Ext));
    assert_eq!(
        words(&cmd),
        vec!["debugfs", "-R", "rdump / .", "/tmp/work/partition-2.img"]
    );
    assert_eq!(cmd.inner.cwd(), Some("/out/root"));
}

#[test]
fn fat_is_copied_by_mcopy() {
    let cmd = command(extract_filesystem("/tmp/work/partition-1.img", "/out/boot", &FsType::Fat));
    assert_eq!(
        words(&cmd),
        vec!["mcopy", "-i", "/tmp/work/partition-1.img", "-snop", "::", "/out/boot"]
    );
    assert_eq!(cmd.inner.cwd(), None);
}

#[test]
fn unknown_filesystem_cannot_be_extracted() {
    let failed = error(extract_filesystem(
        "/tmp/work/partition-3.img",
        "/out/data",
        &FsType::Unknown("ntfs".to_string()),
    ));
    assert_eq!(
        failed.message(),
        "cannot extract filesystem: unsupported type \"ntfs\""
    );
}

#[test]
fn unformatted_partition_cannot_be_extracted() {
    let failed = error(extract_filesystem("p.img", "out", &FsType::from_blkid_type("")));
    assert_eq!(
        failed.message(),
        "cannot extract filesystem: unsupported type \"empty or unformatted\""
    );
}

#[test]
fn unknown_type_is_quoted_in_the_message() {
    let name = "odd \"type\"\n";
    let failed = error(extract_filesystem("p.img", "out", &FsType::Unknown(name.to_string())));
    assert_eq!(
        failed.message(),
        format!("cannot extract filesystem: unsupported type {:?}", name)
    );
    assert_eq!(
        failed,
        DiskError::new("cannot extract filesystem: unsupported type \"odd \\\"type\\\"\\n\"".to_string())
    );
}
