use std::collections::BTreeSet;

use img_extract::extraction::temp_name;
use img_extract::{
    extract_image_partitions, Action, DiskError, Event, Extraction, FsType, Partition,
    PartitionTable,
};

const BOOT: Partition = Partition { number: 1, start: 2048, size: 131072 };
const ROOT: Partition = Partition { number: 2, start: 133120, size: 262144 };

fn table() -> PartitionTable {
    PartitionTable { partitions: vec![BOOT, ROOT], block_size: 512 }
}

/// Runs an extraction to its end. `probe` stands for the probe of a
/// partition, by its number. Returns the actions in order, the temporary
/// files that exist at the end, and the extraction itself.
fn drive(
    table: PartitionTable,
    requests: Vec<u8>,
    probe: fn(u8) -> FsType,
) -> (Vec<Action>, BTreeSet<String>, Extraction) {
    let (mut extraction, mut action) = extract_image_partitions(table, requests);
    let mut actions = Vec::new();
    let mut temp_files = BTreeSet::new();
    let mut number = 0;
    loop {
        let event = match &action {
            Action::CopyPartition { partition, temp_name, .. } => {
                number = partition.number;
                assert!(temp_files.insert(temp_name.clone()));
                Some(Event::Done)
            }
            Action::Probe { temp_name } => {
                assert!(temp_files.contains(temp_name));
                Some(Event::Probed(probe(number)))
            }
            Action::Unpack { temp_name, .. } => {
                assert!(temp_files.contains(temp_name));
                Some(Event::Done)
            }
            Action::Report { .. } => Some(Event::Done),
            Action::RemoveTemp { temp_name } => {
                assert!(temp_files.remove(temp_name));
                Some(Event::Done)
            }
            Action::Fail(_) | Action::Finish => None,
        };
        actions.push(action);
        match event {
            Some(event) => {
                assert!(extraction.is_active());
                assert!(extraction.accepts(&event));
                let next = extraction.advance(event);
                extraction = next.0;
                action = next.1;
            }
            None => {
                assert!(!extraction.is_active());
                return (actions, temp_files, extraction);
            }
        }
    }
}

fn by_number(number: u8) -> FsType {
    match number {
        1 => FsType::Fat,
        2 => FsType::Ext,
        _ => FsType::Unknown("ntfs".to_string()),
    }
}

fn always_ntfs(_: u8) -> FsType {
    FsType::Unknown("ntfs".to_string())
}

fn unformatted(_: u8) -> FsType {
    FsType::from_blkid_type("")
}

fn served(request: usize, partition: Partition, fs_type: FsType) -> Vec<Action> {
    let temp = format!("partition-{}.img", partition.number);
    vec![
        Action::CopyPartition { request, partition, block_size: 512, temp_name: temp.clone() },
        Action::Probe { temp_name: temp.clone() },
        Action::Unpack { request, temp_name: temp.clone(), fs_type: fs_type.clone() },
        Action::Report { request, number: partition.number, fs_type },
        Action::RemoveTemp { temp_name: temp },
    ]
}

#[test]
fn temp_name_holds_the_decimal_number() {
    assert_eq!(temp_name(1), "partition-1.img");
    assert_eq!(temp_name(0), "partition-0.img");
    assert_eq!(temp_name(42), "partition-42.img");
    assert_eq!(temp_name(255), "partition-255.img");
}

#[test]
fn single_fat_partition_is_extracted() {
    let single = PartitionTable { partitions: vec![BOOT], block_size: 512 };
    let (actions, temp_files, extraction) = drive(single.clone(), vec![1], by_number);
    let mut expected = served(0, BOOT, FsType::Fat);
    expected.push(Action::Finish);
    assert_eq!(actions, expected);
    assert!(temp_files.is_empty());
    let returned = extraction.into_table();
    assert_eq!(returned, single);
    assert_eq!(returned.partitions.len(), 1);
}

#[test]
fn requests_are_served_in_their_order() {
    let (actions, temp_files, _) = drive(table(), vec![2, 1], by_number);
    let mut expected = served(0, ROOT, FsType::Ext);
    expected.extend(served(1, BOOT, FsType::Fat));
    expected.push(Action::Finish);
    assert_eq!(actions, expected);
    assert!(temp_files.is_empty());
    let reported: Vec<u8> = actions
        .iter()
        .filter_map(|action| match action {
            Action::Report { number, .. } => Some(*number),
            _ => None,
        })
        .collect();
    assert_eq!(reported, vec![2, 1]);
}

#[test]
fn unsupported_filesystem_fails_after_the_cleanup() {
    let (actions, temp_files, _) = drive(table(), vec![2], always_ntfs);
    assert_eq!(
        actions,
        vec![
            Action::CopyPartition {
                request: 0,
                partition: ROOT,
                block_size: 512,
                temp_name: "partition-2.img".to_string(),
            },
            Action::Probe { temp_name: "partition-2.img".to_string() },
            Action::RemoveTemp { temp_name: "partition-2.img".to_string() },
            Action::Fail(DiskError::new(
                "partition 2 has unsupported filesystem type: Unknown(\"ntfs\")".to_string()
            )),
        ]
    );
    assert!(temp_files.is_empty());
    match actions.last() {
        Some(Action::Fail(error)) => {
            assert!(error.message().contains("partition 2 has unsupported filesystem type"));
            assert!(error.message().contains("ntfs"));
        }
        other => panic!("unexpected end: {:?}", other),
    }
}

#[test]
fn unformatted_partition_fails_with_the_sentinel() {
    let (actions, temp_files, _) = drive(table(), vec![1], unformatted);
    assert_eq!(
        actions.last(),
        Some(&Action::Fail(DiskError::new(
            "partition 1 has unsupported filesystem type: Unknown(\"empty or unformatted\")"
                .to_string()
        )))
    );
    assert_eq!(actions.len(), 4);
    assert!(temp_files.is_empty());
}

#[test]
fn absent_partition_fails_before_any_work() {
    let (actions, temp_files, extraction) = drive(table(), vec![7], by_number);
    assert_eq!(
        actions,
        vec![Action::Fail(DiskError::new("partition 7 not found in image".to_string()))]
    );
    assert!(temp_files.is_empty());
    assert!(!extraction.accepts(&Event::Done));
    assert!(!extraction.accepts(&Event::Probed(FsType::Fat)));
}

#[test]
fn failure_keeps_what_was_done_and_starts_nothing_more() {
    let three = PartitionTable {
        partitions: vec![BOOT, ROOT, Partition { number: 3, start: 400000, size: 8 }],
        block_size: 512,
    };
    let (actions, temp_files, _) = drive(three, vec![1, 3, 2], by_number);
    let mut expected = served(0, BOOT, FsType::Fat);
    expected.extend(vec![
        Action::CopyPartition {
            request: 1,
            partition: Partition { number: 3, start: 400000, size: 8 },
            block_size: 512,
            temp_name: "partition-3.img".to_string(),
        },
        Action::Probe { temp_name: "partition-3.img".to_string() },
        Action::RemoveTemp { temp_name: "partition-3.img".to_string() },
        Action::Fail(DiskError::new(
            "partition 3 has unsupported filesystem type: Unknown(\"ntfs\")".to_string(),
        )),
    ]);
    assert_eq!(actions, expected);
    assert!(temp_files.is_empty());
}

#[test]
fn absent_partition_after_a_served_one() {
    let (actions, temp_files, _) = drive(table(), vec![1, 9, 2], by_number);
    let mut expected = served(0, BOOT, FsType::Fat);
    expected.push(Action::Fail(DiskError::new("partition 9 not found in image".to_string())));
    assert_eq!(actions, expected);
    assert!(temp_files.is_empty());
}

#[test]
fn no_request_finishes_at_once() {
    let (actions, temp_files, extraction) = drive(table(), Vec::new(), by_number);
    assert_eq!(actions, vec![Action::Finish]);
    assert!(temp_files.is_empty());
    assert!(!extraction.accepts(&Event::Done));
    assert_eq!(extraction.into_table(), table());
}

#[test]
fn a_partition_may_be_requested_twice() {
    let (actions, temp_files, _) = drive(table(), vec![1, 1], by_number);
    let mut expected = served(0, BOOT, FsType::Fat);
    expected.extend(served(1, BOOT, FsType::Fat));
    expected.push(Action::Finish);
    assert_eq!(actions, expected);
    assert!(temp_files.is_empty());
}

#[test]
fn only_a_probe_is_answered_with_a_filesystem_type() {
    let (extraction, first) = extract_image_partitions(table(), vec![1]);
    assert!(matches!(first, Action::CopyPartition { .. }));
    assert!(extraction.accepts(&Event::Done));
    assert!(!extraction.accepts(&Event::Probed(FsType::Fat)));
    let (extraction, second) = extraction.advance(Event::Done);
    assert_eq!(second, Action::Probe { temp_name: "partition-1.img".to_string() });
    assert!(!extraction.accepts(&Event::Done));
    assert!(extraction.accepts(&Event::Probed(FsType::Ext)));
    assert!(extraction.accepts(&Event::Probed(FsType::Unknown("ntfs".to_string()))));
    let (extraction, third) = extraction.advance(Event::Probed(FsType::Ext));
    assert_eq!(
        third,
        Action::Unpack {
            request: 0,
            temp_name: "partition-1.img".to_string(),
            fs_type: FsType::Ext
        }
    );
    assert!(extraction.accepts(&Event::Done));
    assert!(!extraction.accepts(&Event::Probed(FsType::Ext)));
}

#[test]
fn copy_uses_the_block_size_of_the_table() {
    let table = PartitionTable { partitions: vec![BOOT], block_size: 4096 };
    let (_, first) = extract_image_partitions(table, vec![1]);
    assert_eq!(
        first,
        Action::CopyPartition {
            request: 0,
            partition: BOOT,
            block_size: 4096,
            temp_name: "partition-1.img".to_string(),
        }
    );
}
