use dlsite_manager::dlsite::download::{
    download_product_files, InvalidFileSize, range_header, resolve_file_urls, total_file_size, FileTransfer, ProgressMeter,
    ProgressReport, TransferAction, TransferError, TransferEvent, TransferPhase,
    MAX_RETRY_COUNT, RETRY_BACKOFF_SECS,
};
use dlsite_manager::dlsite::dto::{DLsiteProductFile, DLsiteProductFiles};

fn manifest(files: &[(&str, &str)]) -> DLsiteProductFiles {
    DLsiteProductFiles {
        files: files
            .iter()
            .map(|(name, size)| DLsiteProductFile {
                file_name: (*name).to_owned(),
                file_size: (*size).to_owned(),
            })
            .collect(),
    }
}

#[test]
fn single_file_has_canonical_address() {
    assert_eq!(
        resolve_file_urls("RJ123", &manifest(&[("a.zip", "10")])),
        vec!["https://www.dlsite.com/maniax/download/=/product_id/RJ123.html".to_owned()]
    );
}

#[test]
fn several_files_are_numbered_from_one() {
    let urls = resolve_file_urls("RJ5", &manifest(&[("a.exe", "1"), ("a.r00", "2"), ("a.r01", "3")]));
    assert_eq!(
        urls,
        vec![
            "https://www.dlsite.com/maniax/download/=/number/1/product_id/RJ5.html".to_owned(),
            "https://www.dlsite.com/maniax/download/=/number/2/product_id/RJ5.html".to_owned(),
            "https://www.dlsite.com/maniax/download/=/number/3/product_id/RJ5.html".to_owned(),
        ]
    );
    assert_eq!(resolve_file_urls("RJ5", &manifest(&[])), Vec::<String>::new());
    let many: Vec<(&str, &str)> = (0..12).map(|_| ("f", "1")).collect();
    let urls = resolve_file_urls("X", &manifest(&many));
    assert_eq!(urls.len(), 12);
    assert_eq!(urls[9], "https://www.dlsite.com/maniax/download/=/number/10/product_id/X.html");
    assert_eq!(urls[11], "https://www.dlsite.com/maniax/download/=/number/12/product_id/X.html");
}

#[test]
fn total_size_sums_declared_sizes() {
    assert_eq!(total_file_size(&manifest(&[])), Some(0));
    assert_eq!(total_file_size(&manifest(&[("a", "10"), ("b", "0"), ("c", "+5")])), Some(15));
    assert_eq!(total_file_size(&manifest(&[("a", "10"), ("b", "ten")])), None);
    assert_eq!(total_file_size(&manifest(&[("a", ""), ("b", "1")])), None);
    assert_eq!(
        total_file_size(&manifest(&[("a", "18446744073709551615")])),
        Some(u64::MAX)
    );
    assert_eq!(
        total_file_size(&manifest(&[("a", "18446744073709551615"), ("b", "1")])),
        None
    );
    assert_eq!(
        total_file_size(&manifest(&[("a", "18446744073709551615"), ("b", "0")])),
        Some(u64::MAX)
    );
}

#[test]
fn range_header_names_offset() {
    assert_eq!(range_header(0), "bytes=0-");
    assert_eq!(range_header(1048576), "bytes=1048576-");
    assert_eq!(range_header(u64::MAX), "bytes=18446744073709551615-");
}

#[test]
fn interrupted_transfer_resumes_at_written_offset() {
    let mut transfer = FileTransfer::new();
    assert_eq!(transfer.step(TransferEvent::Start), TransferAction::Request { offset: 0 });
    assert_eq!(transfer.step(TransferEvent::Connected), TransferAction::Receive);
    assert_eq!(transfer.step(TransferEvent::ChunkWritten { len: 700 }), TransferAction::Receive);
    assert_eq!(transfer.step(TransferEvent::ChunkWritten { len: 300 }), TransferAction::Receive);
    assert_eq!(
        transfer.step(TransferEvent::TransportError),
        TransferAction::Wait { secs: 5 }
    );
    assert_eq!(transfer.step(TransferEvent::Waited), TransferAction::Request { offset: 1000 });
    assert_eq!(range_header(transfer.offset), "bytes=1000-");
    assert_eq!(transfer.step(TransferEvent::Connected), TransferAction::Receive);
    assert_eq!(transfer.step(TransferEvent::ChunkWritten { len: 24 }), TransferAction::Receive);
    assert_eq!(transfer.step(TransferEvent::StreamEnded), TransferAction::Flush);
    assert_eq!(transfer.step(TransferEvent::Flushed), TransferAction::Finish);
    assert_eq!(transfer.phase, TransferPhase::Done);
    assert_eq!(transfer.offset, 1024);
    assert_eq!(transfer.retries, 1);
}

#[test]
fn retries_are_bounded() {
    assert_eq!(MAX_RETRY_COUNT, 3);
    assert_eq!(RETRY_BACKOFF_SECS, 5);
    let mut transfer = FileTransfer::new();
    transfer.step(TransferEvent::Start);
    for _ in 0..3 {
        assert_eq!(
            transfer.step(TransferEvent::TransportError),
            TransferAction::Wait { secs: 5 }
        );
        assert_eq!(transfer.step(TransferEvent::Waited), TransferAction::Request { offset: 0 });
    }
    assert_eq!(
        transfer.step(TransferEvent::TransportError),
        TransferAction::Abort { error: TransferError::RetriesExhausted }
    );
    assert_eq!(transfer.phase, TransferPhase::Failed);
    assert_eq!(
        transfer.step(TransferEvent::Waited),
        TransferAction::Abort { error: TransferError::UnexpectedEvent }
    );
}

#[test]
fn mid_stream_errors_count_as_retries() {
    let mut transfer = FileTransfer::new();
    transfer.step(TransferEvent::Start);
    let mut written = 0;
    for round in 0..3u64 {
        transfer.step(TransferEvent::Connected);
        transfer.step(TransferEvent::ChunkWritten { len: 10 + round });
        written += 10 + round;
        assert_eq!(
            transfer.step(TransferEvent::TransportError),
            TransferAction::Wait { secs: 5 }
        );
        assert_eq!(
            transfer.step(TransferEvent::Waited),
            TransferAction::Request { offset: written }
        );
    }
    transfer.step(TransferEvent::Connected);
    assert_eq!(
        transfer.step(TransferEvent::TransportError),
        TransferAction::Abort { error: TransferError::RetriesExhausted }
    );
}

#[test]
fn write_failures_and_overflow_end_the_transfer() {
    let mut transfer = FileTransfer::new();
    transfer.step(TransferEvent::Start);
    transfer.step(TransferEvent::Connected);
    assert_eq!(
        transfer.step(TransferEvent::WriteFailed),
        TransferAction::Abort { error: TransferError::Filesystem }
    );
    let mut transfer = FileTransfer::new();
    transfer.step(TransferEvent::Start);
    transfer.step(TransferEvent::Connected);
    transfer.step(TransferEvent::StreamEnded);
    assert_eq!(
        transfer.step(TransferEvent::WriteFailed),
        TransferAction::Abort { error: TransferError::Filesystem }
    );
    let mut transfer = FileTransfer { phase: TransferPhase::Streaming, offset: u64::MAX - 1, retries: 0 };
    assert_eq!(transfer.step(TransferEvent::ChunkWritten { len: 1 }), TransferAction::Receive);
    assert_eq!(
        transfer.step(TransferEvent::ChunkWritten { len: 1 }),
        TransferAction::Abort { error: TransferError::SizeOverflow }
    );
    let mut transfer = FileTransfer::new();
    assert_eq!(
        transfer.step(TransferEvent::Connected),
        TransferAction::Abort { error: TransferError::UnexpectedEvent }
    );
}

#[test]
fn progress_is_reported_once_per_second() {
    let mut meter = ProgressMeter::new(1000);
    assert_eq!(
        meter.on_chunk(100, 17),
        Some(ProgressReport { progress: 100, total: 1000 })
    );
    assert_eq!(meter.on_chunk(100, 17), None);
    assert_eq!(meter.on_chunk(100, 17), None);
    assert_eq!(
        meter.on_chunk(100, 18),
        Some(ProgressReport { progress: 400, total: 1000 })
    );
    assert_eq!(meter.on_chunk(1, 18), None);
    assert_eq!(meter.progress, 401);
    assert_eq!(meter.complete(), ProgressReport { progress: 1000, total: 1000 });
}

#[test]
fn progress_in_second_zero_and_at_the_limit() {
    let mut meter = ProgressMeter::new(5);
    assert_eq!(meter.on_chunk(1, 0), None);
    assert_eq!(meter.on_chunk(1, 1), Some(ProgressReport { progress: 2, total: 5 }));
    let mut meter = ProgressMeter { total: 5, progress: u64::MAX - 1, last_second: 3 };
    assert_eq!(
        meter.on_chunk(7, 4),
        Some(ProgressReport { progress: u64::MAX, total: 5 })
    );
}

#[test]
fn download_plan_names_addresses_and_total() {
    let plan = download_product_files("RJ5", &manifest(&[("a.exe", "10"), ("a.r00", "20")])).unwrap();
    assert_eq!(
        plan.file_urls,
        vec![
            "https://www.dlsite.com/maniax/download/=/number/1/product_id/RJ5.html".to_owned(),
            "https://www.dlsite.com/maniax/download/=/number/2/product_id/RJ5.html".to_owned(),
        ]
    );
    assert_eq!(plan.file_names, vec!["a.exe".to_owned(), "a.r00".to_owned()]);
    assert_eq!(plan.total_file_size, 30);
    let single = download_product_files("RJ6", &manifest(&[("b.zip", "7")])).unwrap();
    assert_eq!(
        single.file_urls,
        vec!["https://www.dlsite.com/maniax/download/=/product_id/RJ6.html".to_owned()]
    );
    assert_eq!(single.total_file_size, 7);
    let empty = download_product_files("RJ7", &manifest(&[])).unwrap();
    assert_eq!((empty.file_urls.len(), empty.file_names.len(), empty.total_file_size), (0, 0, 0));
    assert_eq!(
        download_product_files("RJ8", &manifest(&[("c", "1"), ("d", "x")])).unwrap_err(),
        InvalidFileSize
    );
}
