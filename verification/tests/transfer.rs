use httpget::transfer::{Action, Event, Phase, Transfer, CHUNK_SIZE};

fn opened(declared: Option<u64>) -> Transfer {
    let mut transfer = Transfer::new(declared, "out.bin".to_string());
    assert_eq!(transfer.step(Event::Opened), Action::Report { percent: 0 });
    assert_eq!(transfer.phase, Phase::Reading);
    transfer
}

fn copy(source: &[u8], chunk_sizes: &[usize], declared: Option<u64>) -> (Vec<u8>, Vec<u32>, Transfer) {
    let mut transfer = opened(declared);
    let mut file = Vec::new();
    let mut reports = Vec::new();
    let mut at = 0;
    for &size in chunk_sizes {
        let event = Event::ReadOk { len: size };
        assert!(transfer.can_take(event));
        match transfer.step(event) {
            Action::Write { len } => {
                assert_eq!(len, size);
                file.extend_from_slice(&source[at..at + len]);
                at += len;
            }
            other => panic!("expected a write, got {:?}", other),
        }
        match transfer.step(Event::WriteOk) {
            Action::Report { percent } => reports.push(percent),
            other => panic!("expected a report, got {:?}", other),
        }
    }
    assert_eq!(transfer.step(Event::ReadOk { len: 0 }), Action::Finish);
    (file, reports, transfer)
}

#[test]
fn chunk_size_is_one_kibibyte() {
    assert_eq!(CHUNK_SIZE, 1024);
}

#[test]
fn new_transfer_waits_for_its_file() {
    let transfer = Transfer::new(Some(4096), "output.json".to_string());
    assert_eq!(transfer.total_bytes, 4096);
    assert_eq!(transfer.bytes_written, 0);
    assert_eq!(transfer.destination_path, "output.json");
    assert_eq!(transfer.phase, Phase::Opening);
    assert_eq!(transfer.current_percent(), 0);
    assert!(!transfer.is_over());
    let unknown = Transfer::new(None, "output.txt".to_string());
    assert_eq!(unknown.total_bytes, 0);
}

#[test]
fn any_chunking_copies_the_body_and_ends_at_100() {
    let source: Vec<u8> = (0..3000u32).map(|i| (i % 251) as u8).collect();
    let chunkings: [&[usize]; 5] = [
        &[3000],
        &[1024, 1024, 952],
        &[1, 2999],
        &[1000, 1, 1, 998, 1000],
        &[500, 500, 500, 500, 500, 500],
    ];
    for sizes in chunkings {
        let (file, reports, transfer) = copy(&source, sizes, Some(3000));
        assert_eq!(file, source);
        assert_eq!(reports.last(), Some(&100));
        assert_eq!(transfer.bytes_written, 3000);
        assert_eq!(transfer.phase, Phase::Finished);
        assert_eq!(transfer.destination_path, "out.bin");
        assert!(transfer.is_over());
    }
}

#[test]
fn reports_follow_the_bytes_written() {
    let source = [7u8; 4096];
    let (_, reports, _) = copy(&source, &[1024, 1024, 1024, 1024], Some(4096));
    assert_eq!(reports, vec![25, 50, 75, 100]);
    let (_, reports, _) = copy(&source[..3], &[1, 1, 1], Some(3));
    assert_eq!(reports, vec![33, 66, 100]);
}

#[test]
fn unknown_length_reports_zero_for_every_chunk() {
    let source = [1u8; 2500];
    for declared in [None, Some(0)] {
        let (file, reports, transfer) = copy(&source, &[1024, 1024, 452], declared);
        assert_eq!(file, source);
        assert_eq!(reports, vec![0, 0, 0]);
        assert_eq!(transfer.bytes_written, 2500);
        assert_eq!(transfer.current_percent(), 0);
    }
}

#[test]
fn empty_body_finishes_at_once() {
    let (file, reports, transfer) = copy(&[], &[], Some(0));
    assert!(file.is_empty());
    assert!(reports.is_empty());
    assert_eq!(transfer.bytes_written, 0);
    assert_eq!(transfer.phase, Phase::Finished);
}

#[test]
fn body_longer_than_declared_stays_at_100() {
    let source = [0u8; 30];
    let (_, reports, transfer) = copy(&source, &[10, 10, 10], Some(20));
    assert_eq!(reports, vec![50, 100, 100]);
    assert_eq!(transfer.bytes_written, 30);
}

#[test]
fn failed_read_aborts() {
    let mut transfer = opened(Some(100));
    assert_eq!(transfer.step(Event::ReadOk { len: 40 }), Action::Write { len: 40 });
    assert_eq!(transfer.step(Event::WriteOk), Action::Report { percent: 40 });
    assert_eq!(transfer.step(Event::ReadFailed), Action::Abort);
    assert_eq!(transfer.phase, Phase::Aborted);
    assert_eq!(transfer.bytes_written, 40);
    assert!(transfer.is_over());
    assert_eq!(transfer.step(Event::ReadOk { len: 10 }), Action::Abort);
    assert_eq!(transfer.bytes_written, 40);
}

#[test]
fn failed_write_aborts_without_counting_the_chunk() {
    let mut transfer = opened(Some(100));
    assert_eq!(transfer.step(Event::ReadOk { len: 40 }), Action::Write { len: 40 });
    assert_eq!(transfer.phase, Phase::Writing { len: 40 });
    assert_eq!(transfer.bytes_written, 0);
    assert_eq!(transfer.step(Event::WriteFailed), Action::Abort);
    assert_eq!(transfer.phase, Phase::Aborted);
    assert_eq!(transfer.bytes_written, 0);
}

#[test]
fn events_out_of_turn_abort() {
    let mut transfer = opened(Some(100));
    assert_eq!(transfer.step(Event::WriteOk), Action::Abort);
    assert_eq!(transfer.phase, Phase::Aborted);
    let mut transfer = opened(Some(100));
    assert_eq!(transfer.step(Event::ReadOk { len: 1 }), Action::Write { len: 1 });
    assert_eq!(transfer.step(Event::ReadOk { len: 1 }), Action::Abort);
    assert_eq!(transfer.bytes_written, 0);
}

#[test]
fn finished_transfer_stays_finished() {
    let mut transfer = opened(Some(1));
    assert_eq!(transfer.step(Event::ReadOk { len: 0 }), Action::Finish);
    for event in [
        Event::Opened,
        Event::OpenFailed,
        Event::ReadOk { len: 5 },
        Event::ReadFailed,
        Event::WriteOk,
        Event::WriteFailed,
    ] {
        assert!(transfer.can_take(event));
        assert_eq!(transfer.step(event), Action::Finish);
        assert_eq!(transfer.phase, Phase::Finished);
        assert_eq!(transfer.bytes_written, 0);
    }
}

#[test]
fn counter_turns_away_what_it_cannot_hold() {
    let mut transfer = opened(None);
    transfer.bytes_written = u64::MAX - 10;
    assert!(transfer.can_take(Event::ReadOk { len: 10 }));
    assert!(!transfer.can_take(Event::ReadOk { len: 11 }));
    assert!(transfer.can_take(Event::ReadFailed));
    assert_eq!(transfer.step(Event::ReadOk { len: 10 }), Action::Write { len: 10 });
    assert_eq!(transfer.step(Event::WriteOk), Action::Report { percent: 0 });
    assert_eq!(transfer.bytes_written, u64::MAX);
}

#[test]
fn file_is_created_before_anything_is_read() {
    let mut transfer = Transfer::new(Some(10), "out.bin".to_string());
    assert_eq!(transfer.step(Event::Opened), Action::Report { percent: 0 });
    assert_eq!(transfer.phase, Phase::Reading);
    let mut early = Transfer::new(Some(10), "out.bin".to_string());
    assert_eq!(early.step(Event::ReadOk { len: 5 }), Action::Abort);
    assert_eq!(early.phase, Phase::Aborted);
    assert_eq!(early.bytes_written, 0);
}

#[test]
fn failed_creation_aborts_before_any_read() {
    let mut transfer = Transfer::new(Some(10), "/no/such/dir/out.bin".to_string());
    assert_eq!(transfer.step(Event::OpenFailed), Action::Abort);
    assert_eq!(transfer.phase, Phase::Aborted);
    assert!(transfer.is_over());
    assert_eq!(transfer.step(Event::Opened), Action::Abort);
    assert_eq!(transfer.bytes_written, 0);
}
