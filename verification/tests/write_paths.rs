use iobench::file_prep::{clear_existing, prepare_for_append, prepare_fresh_file, PathProbe, PrepAction};
use iobench::write_bench::{all_workers_finished, mode_name, worker_file_path, write_mode_for, WriteMode};

#[test]
fn selects_writers_by_name() {
    assert_eq!(write_mode_for("std_thread_buffer_io"), Some(WriteMode::StdThreadBufferIo));
    assert_eq!(write_mode_for("tokio_async_buffer_io"), Some(WriteMode::TokioAsyncBufferIo));
    assert_eq!(write_mode_for("tokio"), None);
    assert_eq!(mode_name(WriteMode::TokioAsyncBufferIo), "tokio_async_buffer_io");
}

#[test]
fn worker_files_are_numbered() {
    assert_eq!(
        worker_file_path("/data", 3, WriteMode::StdThreadBufferIo),
        format!("{}/{}.std_thread_buffer_io.file", "/data", 3)
    );
    assert_eq!(
        worker_file_path("/data", 12, WriteMode::TokioAsyncBufferIo),
        "/data/12.tokio_async_buffer_io.file"
    );
}

#[test]
fn waits_for_every_worker() {
    assert!(!all_workers_finished(3, 4));
    assert!(all_workers_finished(4, 4));
}

#[test]
fn prepares_files() {
    assert_eq!(prepare_for_append(PathProbe::Missing), PrepAction::Create);
    assert_eq!(prepare_for_append(PathProbe::Exists), PrepAction::Keep);
    assert_eq!(prepare_for_append(PathProbe::Failed), PrepAction::Keep);
    assert_eq!(prepare_fresh_file(PathProbe::Exists), PrepAction::Remove);
    assert_eq!(prepare_fresh_file(PathProbe::Missing), PrepAction::Create);
    assert_eq!(prepare_fresh_file(PathProbe::Failed), PrepAction::Keep);
    assert_eq!(clear_existing(PathProbe::Exists), PrepAction::Remove);
    assert_eq!(clear_existing(PathProbe::Missing), PrepAction::Keep);
    assert_eq!(clear_existing(PathProbe::Failed), PrepAction::Keep);
}
