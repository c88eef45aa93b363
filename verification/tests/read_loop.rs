use iobench::read_bench::{data_file_path, read_mode_for, ReadLoop, ReadMode};

#[test]
fn selects_readers_by_name() {
    assert_eq!(read_mode_for("buf_read"), Some(ReadMode::BufRead));
    assert_eq!(read_mode_for("read"), Some(ReadMode::Read));
    assert_eq!(read_mode_for("buf_read_of_relative_seek"), Some(ReadMode::Read));
    assert_eq!(read_mode_for("pread"), Some(ReadMode::PRead));
    assert_eq!(read_mode_for("mmap"), None);
}

#[test]
fn data_file_is_inside_directory() {
    assert_eq!(data_file_path("/tmp/bench"), "/tmp/bench/1.data");
}

#[test]
fn reads_at_consecutive_batches() {
    let mut plan = ReadLoop::new(4, 10);
    let mut offsets = vec![];
    while let Some(offset) = plan.next_offset() {
        offsets.push(offset);
        plan.finish_read(plan.batch_size());
    }
    assert_eq!(offsets, vec![0, 4, 8]);
    assert_eq!(plan.reads_done(), 3);
    assert_eq!(plan.total_size(), 12);
}

#[test]
fn exact_multiple_reads_one_more_batch() {
    let mut plan = ReadLoop::new(5, 10);
    let mut offsets = vec![];
    while let Some(offset) = plan.next_offset() {
        offsets.push(offset);
        plan.finish_read(0);
    }
    assert_eq!(offsets, vec![0, 5, 10]);
    assert_eq!(plan.total_size(), 0);
}

#[test]
fn empty_data_still_reads_once() {
    let mut plan = ReadLoop::new(8, 0);
    assert_eq!(plan.next_offset(), Some(0));
    plan.finish_read(3);
    assert_eq!(plan.next_offset(), None);
    assert_eq!(plan.total_size(), 3);
}
