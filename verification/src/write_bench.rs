//! The write benchmark: which writer a benchmark name selects, the file that
//! each worker appends to, and when the workers are all done.

use vstd::prelude::*;

use crate::decimal::{
    decimal_digits, format_usize, lemma_decimal_digits_no_dot, lemma_decimal_digits_shape,
    lemma_parse_format_roundtrip, parse_usize_spec, IntErrorKind,
};
use crate::text::same_text;

verus! {

/// How the workers write their files.
#[derive(Debug, Clone, Copy, PartialEq, Eq, Structural)]
pub enum WriteMode {
    /// One OS thread per worker, each with a buffered writer.
    StdThreadBufferIo,
    /// One task per worker on a multi-threaded async runtime.
    TokioAsyncBufferIo,
}

/// The name of a writer, as the command line gives it and as file names carry it.
pub open spec fn write_mode_name(mode: WriteMode) -> Seq<char> {
    match mode {
        WriteMode::StdThreadBufferIo => "std_thread_buffer_io"@,
        WriteMode::TokioAsyncBufferIo => "tokio_async_buffer_io"@,
    }
}

/// The writer that a benchmark name selects, if any.
pub open spec fn write_mode_spec(name: Seq<char>) -> Option<WriteMode> {
    if name == write_mode_name(WriteMode::StdThreadBufferIo) {
        Some(WriteMode::StdThreadBufferIo)
    } else if name == write_mode_name(WriteMode::TokioAsyncBufferIo) {
        Some(WriteMode::TokioAsyncBufferIo)
    } else {
        None
    }
}

/// The name of `mode`.
pub fn mode_name(mode: WriteMode) -> (r: &'static str)
    ensures
        r@ == write_mode_name(mode),
{
    match mode {
        WriteMode::StdThreadBufferIo => "std_thread_buffer_io",
        WriteMode::TokioAsyncBufferIo => "tokio_async_buffer_io",
    }
}

/// The writer that the benchmark name `io_bench_type` selects, if any.
pub fn write_mode_for(io_bench_type: &str) -> (r: Option<WriteMode>)
    ensures
        r == write_mode_spec(io_bench_type@),
{
    if same_text(io_bench_type, mode_name(WriteMode::StdThreadBufferIo)) {
        Some(WriteMode::StdThreadBufferIo)
    } else if same_text(io_bench_type, mode_name(WriteMode::TokioAsyncBufferIo)) {
        Some(WriteMode::TokioAsyncBufferIo)
    } else {
        None
    }
}

/// The file of worker `idx`: `<data_dir>/<idx>.<mode name>.file`.
pub open spec fn worker_file_spec(data_dir: Seq<char>, idx: nat, mode: WriteMode) -> Seq<char> {
    data_dir + "/"@ + decimal_digits(idx) + "."@ + write_mode_name(mode) + ".file"@
}

/// The path of the file that worker `idx` appends to.
pub fn worker_file_path(data_dir: &str, idx: usize, mode: WriteMode) -> (r: String)
    ensures
        r@ == worker_file_spec(data_dir@, idx as nat, mode),
{
    let mut path = String::from_str(data_dir);
    path.append("/");
    let number = format_usize(idx);
    path.append(number.as_str());
    path.append(".");
    path.append(mode_name(mode));
    path.append(".file");
    path
}

/// Whether the waiting loop may stop: every one of the `workers` workers has
/// counted itself finished.
pub fn all_workers_finished(finished: usize, workers: usize) -> (r: bool)
    ensures
        r == (finished == workers),
{
    finished == workers
}

/// Worker `idx`'s file lies directly in `data_dir`, and its name is the
/// decimal number of the worker, a `.`, the writer's name and `.file`: the
/// text before the name's first `.` is not empty and reads back as `idx`, for
/// every worker, the first one (0) included.
pub proof fn lemma_worker_file_name_carries_index(data_dir: Seq<char>, idx: usize, mode: WriteMode)
    ensures
        worker_file_spec(data_dir, idx as nat, mode).take((data_dir.len() + 1) as int) == data_dir.push('/'),
        ({
            let name = worker_file_spec(data_dir, idx as nat, mode).skip((data_dir.len() + 1) as int);
            exists|k: int|
                0 < k < name.len() && name[k] == '.' && (forall|i: int|
                    0 <= i < k ==> name[i] != '.') && parse_usize_spec(name.take(k)) == Ok::<
                    usize,
                    IntErrorKind,
                >(idx) && name.skip(k + 1) == write_mode_name(mode) + ".file"@
        }),
{
    reveal_strlit("/");
    reveal_strlit(".");
    let path = worker_file_spec(data_dir, idx as nat, mode);
    let d = decimal_digits(idx as nat);
    let tail = write_mode_name(mode) + ".file"@;
    assert(path =~= data_dir.push('/') + (d + (seq!['.'] + tail)));
    assert(path.take((data_dir.len() + 1) as int) =~= data_dir.push('/'));
    let name = path.skip((data_dir.len() + 1) as int);
    assert(name =~= d + (seq!['.'] + tail));
    lemma_decimal_digits_shape(idx as nat);
    lemma_decimal_digits_no_dot(idx as nat);
    lemma_parse_format_roundtrip(idx);
    let k = d.len() as int;
    assert(name[k] == '.');
    assert(name.take(k) =~= d);
    assert(name.skip(k + 1) =~= tail);
    assert forall|i: int| 0 <= i < k implies name[i] != '.' by {
        assert(name[i] == d[i]);
    }
}

/// Different workers write different files.
pub proof fn lemma_worker_files_distinct(data_dir: Seq<char>, i: nat, j: nat, mode: WriteMode)
    requires
        i != j,
    ensures
        worker_file_spec(data_dir, i, mode) != worker_file_spec(data_dir, j, mode),
{
    crate::decimal::lemma_decimal_digits_injective(i, j);
    let a = worker_file_spec(data_dir, i, mode);
    let b = worker_file_spec(data_dir, j, mode);
    let di = decimal_digits(i);
    let dj = decimal_digits(j);
    let p = data_dir + "/"@;
    let tail = "."@ + write_mode_name(mode) + ".file"@;
    assert(a =~= p + (di + tail));
    assert(b =~= p + (dj + tail));
    if a == b {
        assert((p + (di + tail)).subrange(p.len() as int, a.len() as int) =~= di + tail);
        assert((p + (dj + tail)).subrange(p.len() as int, b.len() as int) =~= dj + tail);
        reveal_strlit(".");
        assert(tail[0] == '.');
        crate::decimal::lemma_decimal_digits_no_dot(i);
        crate::decimal::lemma_decimal_digits_no_dot(j);
        lemma_prefix_before_dot(di, dj, tail);
    }
}

/// Two digit strings followed by the same text that starts with `.` are equal
/// only when the digit strings are.
proof fn lemma_prefix_before_dot(di: Seq<char>, dj: Seq<char>, tail: Seq<char>)
    requires
        di + tail == dj + tail,
        tail.len() > 0,
        tail[0] == '.',
        forall|k: int| 0 <= k < di.len() ==> di[k] != '.',
        forall|k: int| 0 <= k < dj.len() ==> dj[k] != '.',
    ensures
        di == dj,
{
    if di.len() < dj.len() {
        assert((di + tail)[di.len() as int] == '.');
        assert((dj + tail)[di.len() as int] == dj[di.len() as int]);
    } else if dj.len() < di.len() {
        assert((dj + tail)[dj.len() as int] == '.');
        assert((di + tail)[dj.len() as int] == di[dj.len() as int]);
    } else {
        assert forall|k: int| 0 <= k < di.len() implies di[k] == dj[k] by {
            assert((di + tail)[k] == di[k]);
            assert((dj + tail)[k] == dj[k]);
        }
        assert(di =~= dj);
    }
}

} // verus!
