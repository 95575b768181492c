use img_extract::{disk_id_command, get_disk_id, mkfs_ext4, mkfs_vfat, Command};

fn line(cmd: &Command) -> Vec<String> {
    let mut line = vec![cmd.inner.prog().to_string()];
    line.extend(cmd.inner.args().map(|arg| arg.to_string()));
    line
}

#[test]
fn mbr_disk_id_loses_its_prefix() {
    assert_eq!(get_disk_id("0xdeadbeef"), "deadbeef");
}

#[test]
fn gpt_disk_id_passes_through() {
    assert_eq!(
        get_disk_id("A1B2C3D4-E5F6-4711-8899-AABBCCDDEEFF"),
        "A1B2C3D4-E5F6-4711-8899-AABBCCDDEEFF"
    );
}

#[test]
fn only_one_prefix_is_stripped() {
    assert_eq!(get_disk_id("0x0x1234"), "0x1234");
    assert_eq!(get_disk_id("0x"), "");
    assert_eq!(get_disk_id("0x0"), "0");
}

#[test]
fn prefix_is_matched_exactly() {
    assert_eq!(get_disk_id(""), "");
    assert_eq!(get_disk_id("0"), "0");
    assert_eq!(get_disk_id("x0"), "x0");
    assert_eq!(get_disk_id("0X12"), "0X12");
    assert_eq!(get_disk_id(" 0x12"), " 0x12");
    assert_eq!(get_disk_id("00x12"), "00x12");
    assert_eq!(get_disk_id("0xé越"), "é越");
}

#[test]
fn disk_id_command_asks_sfdisk() {
    let cmd = disk_id_command("/dev/sda");
    assert_eq!(line(&cmd), vec!["/usr/bin/env", "sfdisk", "--disk-id", "/dev/sda"]);
    assert_eq!(cmd.inner.cwd(), None);
}

#[test]
fn mkfs_vfat_sets_the_label() {
    let cmd = mkfs_vfat("/dev/sda1", "BOOT");
    assert_eq!(line(&cmd), vec!["/usr/bin/env", "mkfs.vfat", "-n", "BOOT", "/dev/sda1"]);
    assert_eq!(cmd.inner.cwd(), None);
}

#[test]
fn mkfs_ext4_without_options() {
    let cmd = mkfs_ext4("image.img", "system", &[]);
    assert_eq!(
        line(&cmd),
        vec!["/usr/bin/env", "mkfs.ext4", "-F", "-L", "system", "image.img"]
    );
    assert_eq!(cmd.inner.cwd(), None);
}

#[test]
fn mkfs_ext4_appends_the_options_as_given() {
    let options = vec![
        "-E".to_string(),
        "lazy_itable_init=0".to_string(),
        "-m".to_string(),
        "0".to_string(),
        "-E".to_string(),
    ];
    let cmd = mkfs_ext4("/dev/sda2", "root fs", &options);
    assert_eq!(
        line(&cmd),
        vec![
            "/usr/bin/env",
            "mkfs.ext4",
            "-F",
            "-L",
            "root fs",
            "/dev/sda2",
            "-E",
            "lazy_itable_init=0",
            "-m",
            "0",
            "-E",
        ]
    );
}
