use iggy_server::dispatch::poll::ConsumerKind;
use iggy_server::offset_recovery::{
    examine_entry, lists_entry, load_consumer_group_offsets, load_consumer_offsets,
    offset_kind_label, parse_consumer_id, read_offset_file, remove_invalid_offset_file,
    ConsumerGroupId, DirectoryEvent, EntryStep, FinishedScan, OffsetFileLoad, OffsetFileStep,
    OffsetRecord, OffsetScan, RecoveredOffsets, ScanStep,
};

fn finish(scan: OffsetScan) -> FinishedScan {
    match scan.advance(DirectoryEvent::End) {
        ScanStep::Finished(scan) => scan,
        _ => panic!("all entries were listed"),
    }
}

#[test]
fn given_missing_directory_when_loading_should_report_error_instead_of_empty_state() {
    for kind in [ConsumerKind::Consumer, ConsumerKind::ConsumerGroup] {
        for event in [DirectoryEvent::Failed, DirectoryEvent::Closed] {
            assert!(matches!(
                OffsetScan::start(kind).advance(event),
                ScanStep::Fail
            ));
        }
    }
}

#[test]
fn a_load_that_fails_half_way_keeps_nothing() {
    let ScanStep::Examine(scan) =
        OffsetScan::start(ConsumerKind::Consumer).advance(DirectoryEvent::Entry)
    else {
        panic!("an entry is examined");
    };
    let scan = scan.settle(1, "dir/1".to_owned(), OffsetFileLoad::Loaded(4));
    assert!(matches!(
        scan.advance(DirectoryEvent::Closed),
        ScanStep::Fail
    ));
}

#[test]
fn a_load_carries_its_files_to_the_end() {
    let scan = OffsetScan::start(ConsumerKind::Consumer).settle(
        1,
        "dir/1".to_owned(),
        OffsetFileLoad::Loaded(4),
    );
    let ScanStep::Examine(scan) = scan.advance(DirectoryEvent::Entry) else {
        panic!("an entry is examined");
    };
    let scan = scan.settle(2, "dir/2".to_owned(), OffsetFileLoad::Stranded);
    let recovered = load_consumer_offsets(finish(scan));
    assert_eq!(recovered.entries.len(), 1);
    assert_eq!(recovered.entries[0].kind, ConsumerKind::Consumer);
    assert_eq!(recovered.entries[0].consumer_id, 1);
    assert_eq!(recovered.stranded_ids, vec![2]);
}

#[test]
fn given_numeric_directory_and_torn_file_when_loading_should_remove_only_invalid_file() {
    assert!(!lists_entry(Some(false)), "the directory 7 is not listed");
    assert!(!lists_entry(None));
    assert!(lists_entry(Some(true)));
    for kind in [ConsumerKind::Consumer, ConsumerKind::ConsumerGroup] {
        let mut scan = OffsetScan::start(kind);
        let files = [
            ("8", false, OffsetRecord::Torn),
            ("9", false, OffsetRecord::Value(12)),
            ("9.tmp", true, OffsetRecord::Torn),
            ("notes.tmp", false, OffsetRecord::Torn),
        ];
        let mut removed = Vec::new();
        for (name, is_replacement, record) in files {
            match examine_entry(is_replacement, name.as_bytes(), true) {
                EntryStep::RemoveReplacement => removed.push(name),
                EntryStep::SkipName | EntryStep::SkipPath => {}
                EntryStep::Read { consumer_id } => {
                    let load = match read_offset_file(Some(record)) {
                        OffsetFileStep::Done(load) => load,
                        OffsetFileStep::Remove => {
                            removed.push(name);
                            remove_invalid_offset_file(true, Some(true))
                        }
                    };
                    scan = scan.settle(consumer_id, format!("dir/{name}"), load);
                }
            }
        }
        assert_eq!(removed, vec!["8", "9.tmp"]);
        if kind == ConsumerKind::Consumer {
            let consumers = load_consumer_offsets(finish(scan));
            assert_eq!(consumers.entries.len(), 1);
            assert_eq!(consumers.entries[0].consumer_id, 9);
            assert_eq!(consumers.entries[0].offset, 12);
            assert_eq!(consumers.entries[0].path, "dir/9");
            assert!(consumers.stranded_ids.is_empty());
        } else {
            let groups = load_consumer_group_offsets(finish(scan));
            assert_eq!(groups.entries.len(), 1);
            assert_eq!(groups.entries[0].0, ConsumerGroupId(9));
            assert_eq!(groups.entries[0].1.kind, ConsumerKind::ConsumerGroup);
            assert!(groups.stranded_ids.is_empty());
        }
    }
}

#[test]
fn file_names_are_parsed_like_numbers() {
    for (name, expected) in [
        ("0", Some(0)),
        ("7", Some(7)),
        ("+7", Some(7)),
        ("007", Some(7)),
        ("4294967295", Some(u32::MAX)),
        ("4294967296", None),
        ("42949672950", None),
        ("99999999999999999999", None),
        ("00000000000000000001", Some(1)),
        ("", None),
        ("+", None),
        ("++1", None),
        ("-1", None),
        ("-0", None),
        ("1a", None),
        (" 1", None),
        ("1 ", None),
        ("٣", None),
        ("4294967296x", None),
    ] {
        assert_eq!(parse_consumer_id(name.as_bytes()), expected, "{name:?}");
        assert_eq!(name.parse::<u32>().ok(), expected, "{name:?}");
    }
}

#[test]
fn entries_without_a_printable_path_are_skipped() {
    assert_eq!(examine_entry(false, b"12", false), EntryStep::SkipPath);
    assert_eq!(examine_entry(false, b"x", false), EntryStep::SkipName);
    assert_eq!(
        examine_entry(false, b"12", true),
        EntryStep::Read { consumer_id: 12 }
    );
    assert_eq!(
        examine_entry(true, b"12", true),
        EntryStep::RemoveReplacement
    );
}

#[test]
fn unusable_files_keep_their_place_until_they_are_gone_for_good() {
    assert_eq!(
        read_offset_file(None),
        OffsetFileStep::Done(OffsetFileLoad::Stranded)
    );
    assert_eq!(
        read_offset_file(Some(OffsetRecord::Value(5))),
        OffsetFileStep::Done(OffsetFileLoad::Loaded(5))
    );
    assert_eq!(
        read_offset_file(Some(OffsetRecord::Torn)),
        OffsetFileStep::Remove
    );
    assert_eq!(
        read_offset_file(Some(OffsetRecord::Corrupt)),
        OffsetFileStep::Remove
    );
    assert_eq!(
        remove_invalid_offset_file(false, Some(true)),
        OffsetFileLoad::Stranded
    );
    assert_eq!(
        remove_invalid_offset_file(true, Some(false)),
        OffsetFileLoad::Stranded
    );
    assert_eq!(
        remove_invalid_offset_file(true, Some(true)),
        OffsetFileLoad::Removed
    );
    assert_eq!(
        remove_invalid_offset_file(true, None),
        OffsetFileLoad::Removed
    );
}

fn scan(kind: ConsumerKind) -> FinishedScan {
    let mut scan = OffsetScan::start(kind);
    for (id, path, load) in [
        (9, "9", OffsetFileLoad::Loaded(1)),
        (3, "3", OffsetFileLoad::Loaded(2)),
        (9, "09", OffsetFileLoad::Loaded(3)),
        (5, "5", OffsetFileLoad::Stranded),
        (1, "1", OffsetFileLoad::Loaded(4)),
        (4, "4", OffsetFileLoad::Removed),
        (3, "+3", OffsetFileLoad::Loaded(5)),
        (2, "2", OffsetFileLoad::Stranded),
    ] {
        scan = scan.settle(id, path.to_owned(), load);
    }
    finish(scan)
}

#[test]
fn consumers_are_sorted_stably() {
    let recovered = load_consumer_offsets(scan(ConsumerKind::Consumer));
    let order: Vec<(u32, &str, u64)> = recovered
        .entries
        .iter()
        .map(|entry| (entry.consumer_id, entry.path.as_str(), entry.offset))
        .collect();
    assert_eq!(
        order,
        vec![
            (1, "1", 4),
            (3, "3", 2),
            (3, "+3", 5),
            (9, "9", 1),
            (9, "09", 3)
        ]
    );
    assert_eq!(recovered.stranded_ids, vec![5, 2]);
}

#[test]
fn groups_keep_directory_order() {
    let recovered = load_consumer_group_offsets(scan(ConsumerKind::ConsumerGroup));
    let order: Vec<(usize, u64)> = recovered
        .entries
        .iter()
        .map(|(group, entry)| (group.0, entry.offset))
        .collect();
    assert_eq!(order, vec![(9, 1), (3, 2), (9, 3), (1, 4), (3, 5)]);
    assert_eq!(recovered.stranded_ids, vec![5, 2]);
}

#[test]
fn defaults_are_empty() {
    let recovered: RecoveredOffsets<u8> = RecoveredOffsets::default();
    assert!(recovered.entries.is_empty());
    assert!(recovered.stranded_ids.is_empty());
    assert_eq!(offset_kind_label(ConsumerKind::Consumer), "consumer offset");
    assert_eq!(
        offset_kind_label(ConsumerKind::ConsumerGroup),
        "consumer group offset"
    );
}
