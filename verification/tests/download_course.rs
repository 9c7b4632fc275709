use proxy_updater::download::{
    DownloadAction, DownloadErrorKind, DownloadEvent, DownloadProgress, DownloadState,
    Downloader, StreamFault,
};

fn run(events: &[DownloadEvent]) -> Vec<DownloadState> {
    let mut state = DownloadState::start();
    let mut seen = vec![state];
    for e in events {
        state = state.step(*e);
        seen.push(state);
    }
    seen
}

fn progress(downloaded: u64, total: u64) -> DownloadProgress {
    DownloadProgress { downloaded, total }
}

#[test]
fn progress_starts_at_zero() {
    assert_eq!(DownloadProgress::new(100), progress(0, 100));
    assert!(!DownloadProgress::new(100).is_complete());
    assert!(DownloadProgress::new(0).is_complete());
}

#[test]
fn a_chunk_adds_its_length() {
    assert_eq!(DownloadProgress::new(100).advance(30), progress(30, 100));
    assert_eq!(progress(30, 100).advance(70), progress(100, 100));
    assert_eq!(progress(30, 100).advance(0), progress(30, 100));
    assert!(progress(30, 100).advance(70).is_complete());
}

#[test]
fn progress_is_clamped_to_the_declared_total() {
    assert_eq!(progress(90, 100).advance(11), progress(100, 100));
    assert_eq!(progress(100, 100).advance(1), progress(100, 100));
    assert_eq!(DownloadProgress::new(0).advance(5), progress(0, 0));
    assert_eq!(progress(1, u64::MAX).advance(usize::MAX), progress(u64::MAX, u64::MAX));
    assert_eq!(progress(u64::MAX - 1, u64::MAX).advance(5), progress(u64::MAX, u64::MAX));
}

#[test]
fn a_download_into_an_existing_directory() {
    let seen = run(&[
        DownloadEvent::DirExists(true),
        DownloadEvent::Response(Some(10)),
        DownloadEvent::Done,
        DownloadEvent::Chunk(4),
        DownloadEvent::Chunk(6),
        DownloadEvent::EndOfStream,
    ]);
    assert_eq!(
        seen,
        vec![
            DownloadState::CheckingDir,
            DownloadState::Requesting,
            DownloadState::CreatingFile { total: 10 },
            DownloadState::Transferring(progress(0, 10)),
            DownloadState::Transferring(progress(4, 10)),
            DownloadState::Transferring(progress(10, 10)),
            DownloadState::Finished(progress(10, 10)),
        ]
    );
    let actions: Vec<DownloadAction> = seen.iter().map(|s| s.action()).collect();
    assert_eq!(
        actions,
        vec![
            DownloadAction::CheckDir,
            DownloadAction::Get,
            DownloadAction::CreateFile,
            DownloadAction::Transfer(progress(0, 10)),
            DownloadAction::Transfer(progress(4, 10)),
            DownloadAction::Transfer(progress(10, 10)),
            DownloadAction::Finish,
        ]
    );
}

#[test]
fn a_missing_directory_is_created_first() {
    let seen = run(&[DownloadEvent::DirExists(false), DownloadEvent::Done]);
    assert_eq!(
        seen,
        vec![DownloadState::CheckingDir, DownloadState::CreatingDir, DownloadState::Requesting]
    );
    assert_eq!(seen[1].action(), DownloadAction::CreateDir);
}

#[test]
fn a_directory_that_cannot_be_created_ends_the_download() {
    let seen = run(&[DownloadEvent::DirExists(false), DownloadEvent::Failed]);
    let last = *seen.last().unwrap();
    assert_eq!(last, DownloadState::Failed(DownloadErrorKind::Directory));
    assert_eq!(last.action(), DownloadAction::Abort(DownloadErrorKind::Directory));
}

#[test]
fn a_failed_request_ends_the_download() {
    let seen = run(&[DownloadEvent::DirExists(true), DownloadEvent::Failed]);
    assert_eq!(*seen.last().unwrap(), DownloadState::Failed(DownloadErrorKind::Request));
}

#[test]
fn a_response_without_content_length_ends_the_download_before_any_file() {
    let seen = run(&[DownloadEvent::DirExists(true), DownloadEvent::Response(None)]);
    let last = *seen.last().unwrap();
    assert_eq!(last, DownloadState::Failed(DownloadErrorKind::ContentLength));
    assert_eq!(last.action(), DownloadAction::Abort(DownloadErrorKind::ContentLength));
    for s in &seen {
        assert_ne!(s.action(), DownloadAction::CreateFile);
        assert!(!matches!(s.action(), DownloadAction::Transfer(_)));
        assert_ne!(s.action(), DownloadAction::Finish);
    }
    let later = last.step(DownloadEvent::Done).step(DownloadEvent::Chunk(5));
    assert_eq!(later, DownloadState::Failed(DownloadErrorKind::ContentLength));
}

#[test]
fn a_file_that_cannot_be_created_ends_the_download() {
    let seen = run(&[
        DownloadEvent::DirExists(true),
        DownloadEvent::Response(Some(10)),
        DownloadEvent::Failed,
    ]);
    assert_eq!(*seen.last().unwrap(), DownloadState::Failed(DownloadErrorKind::FileCreate));
}

#[test]
fn a_chunk_that_cannot_be_read_or_written_ends_the_download() {
    let head = [
        DownloadEvent::DirExists(true),
        DownloadEvent::Response(Some(10)),
        DownloadEvent::Done,
        DownloadEvent::Chunk(4),
    ];
    let mut read = head.to_vec();
    read.push(DownloadEvent::ReadFailed);
    assert_eq!(
        *run(&read).last().unwrap(),
        DownloadState::Failed(DownloadErrorKind::Stream(StreamFault::Read))
    );
    let mut write = head.to_vec();
    write.push(DownloadEvent::WriteFailed);
    assert_eq!(
        *run(&write).last().unwrap(),
        DownloadState::Failed(DownloadErrorKind::Stream(StreamFault::Write))
    );
}

#[test]
fn a_completed_download_reports_the_declared_total() {
    let seen = run(&[
        DownloadEvent::DirExists(true),
        DownloadEvent::Response(Some(1000)),
        DownloadEvent::Done,
        DownloadEvent::Chunk(300),
        DownloadEvent::Chunk(300),
        DownloadEvent::Chunk(400),
        DownloadEvent::EndOfStream,
    ]);
    assert_eq!(*seen.last().unwrap(), DownloadState::Finished(progress(1000, 1000)));
}

#[test]
fn a_body_that_ends_early_reports_what_arrived() {
    let seen = run(&[
        DownloadEvent::DirExists(true),
        DownloadEvent::Response(Some(10)),
        DownloadEvent::Done,
        DownloadEvent::Chunk(3),
        DownloadEvent::EndOfStream,
    ]);
    assert_eq!(*seen.last().unwrap(), DownloadState::Finished(progress(3, 10)));
}

#[test]
fn an_empty_body_finishes_at_once() {
    let seen = run(&[
        DownloadEvent::DirExists(true),
        DownloadEvent::Response(Some(0)),
        DownloadEvent::Done,
        DownloadEvent::EndOfStream,
    ]);
    assert_eq!(*seen.last().unwrap(), DownloadState::Finished(progress(0, 0)));
}

#[test]
fn progress_never_falls_and_never_exceeds_the_total() {
    let seen = run(&[
        DownloadEvent::DirExists(true),
        DownloadEvent::Response(Some(10)),
        DownloadEvent::Done,
        DownloadEvent::Chunk(4),
        DownloadEvent::Chunk(0),
        DownloadEvent::Chunk(9),
        DownloadEvent::Chunk(50),
        DownloadEvent::EndOfStream,
    ]);
    let reported: Vec<u64> = seen
        .iter()
        .filter_map(|s| match s.action() {
            DownloadAction::Transfer(p) => Some(p.downloaded),
            _ => None,
        })
        .collect();
    assert_eq!(reported, vec![0, 4, 4, 10, 10]);
    for pair in reported.windows(2) {
        assert!(pair[0] <= pair[1]);
    }
    assert!(reported.iter().all(|d| *d <= 10));
    assert_eq!(*seen.last().unwrap(), DownloadState::Finished(progress(10, 10)));
}

#[test]
fn events_that_answer_nothing_are_ignored() {
    let s = DownloadState::CheckingDir;
    assert_eq!(s.step(DownloadEvent::Done), s);
    assert_eq!(s.step(DownloadEvent::Chunk(3)), s);
    assert_eq!(s.step(DownloadEvent::Response(Some(3))), s);
    let s = DownloadState::Requesting;
    assert_eq!(s.step(DownloadEvent::DirExists(true)), s);
    assert_eq!(s.step(DownloadEvent::EndOfStream), s);
    let s = DownloadState::CreatingFile { total: 5 };
    assert_eq!(s.step(DownloadEvent::Chunk(5)), s);
    let s = DownloadState::Transferring(progress(1, 5));
    assert_eq!(s.step(DownloadEvent::Done), s);
    assert_eq!(s.step(DownloadEvent::Failed), s);
    let s = DownloadState::Finished(progress(5, 5));
    assert_eq!(s.step(DownloadEvent::Chunk(1)), s);
    assert_eq!(s.step(DownloadEvent::ReadFailed), s);
}

#[test]
fn the_downloader_gives_the_next_state_with_its_action() {
    let d = Downloader::new("out");
    let (s, a) = d.download(DownloadState::start(), DownloadEvent::DirExists(false));
    assert_eq!((s, a), (DownloadState::CreatingDir, DownloadAction::CreateDir));
    let (s, a) = d.download(s, DownloadEvent::Done);
    assert_eq!((s, a), (DownloadState::Requesting, DownloadAction::Get));
    let (s, a) = d.download(s, DownloadEvent::Response(Some(7)));
    assert_eq!((s, a), (DownloadState::CreatingFile { total: 7 }, DownloadAction::CreateFile));
    let (s, a) = d.download(s, DownloadEvent::Done);
    assert_eq!(a, DownloadAction::Transfer(progress(0, 7)));
    let (s, a) = d.download(s, DownloadEvent::Chunk(9));
    assert_eq!(a, DownloadAction::Transfer(progress(7, 7)));
    let (s, a) = d.download(s, DownloadEvent::EndOfStream);
    assert_eq!((s, a), (DownloadState::Finished(progress(7, 7)), DownloadAction::Finish));
    assert_eq!(d.outcome("https://x/a.bin", s), Some(Ok("out/a.bin".to_string())));
}
