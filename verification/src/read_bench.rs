//! The read benchmark: which reader a benchmark name selects, where the data
//! file lies, and the plan of the read loop. The loop reads the data file in
//! rounds of `batch` bytes, one round more than `total / batch`, each round at
//! the offset where the previous one ended, and sums what each round counts.

use vstd::prelude::*;

use crate::text::same_text;

verus! {

/// How the data file is read.
#[derive(Debug, Clone, Copy, PartialEq, Eq, Structural)]
pub enum ReadMode {
    /// A `BufReader` over a freshly opened file, seeked to the offset.
    BufRead,
    /// A freshly opened file, seeked to the offset.
    Read,
    /// A positioned read (`pread`) at the offset.
    PRead,
}

/// The reader that a benchmark name selects. `buf_read_of_relative_seek`
/// selects the plain seeked read.
pub open spec fn read_mode_spec(name: Seq<char>) -> Option<ReadMode> {
    if name == "buf_read"@ {
        Some(ReadMode::BufRead)
    } else if name == "read"@ {
        Some(ReadMode::Read)
    } else if name == "buf_read_of_relative_seek"@ {
        Some(ReadMode::Read)
    } else if name == "pread"@ {
        Some(ReadMode::PRead)
    } else {
        None
    }
}

/// The reader that the benchmark name `bench_type` selects, if any.
pub fn read_mode_for(bench_type: &str) -> (r: Option<ReadMode>)
    ensures
        r == read_mode_spec(bench_type@),
{
    if same_text(bench_type, "buf_read") {
        Some(ReadMode::BufRead)
    } else if same_text(bench_type, "read") {
        Some(ReadMode::Read)
    } else if same_text(bench_type, "buf_read_of_relative_seek") {
        Some(ReadMode::Read)
    } else if same_text(bench_type, "pread") {
        Some(ReadMode::PRead)
    } else {
        None
    }
}

/// The path of the data file inside the directory `data_path`.
pub fn data_file_path(data_path: &str) -> (r: String)
    ensures
        r@ == data_path@ + "/"@ + "1.data"@,
{
    let mut path = String::from_str(data_path);
    path.append("/");
    path.append("1.data");
    path
}

/// The number of reads: one more than the number of whole batches in the data.
pub open spec fn read_rounds(batch: nat, total: nat) -> nat
    recommends
        batch > 0,
{
    total / batch + 1
}

/// The progress of the read loop.
pub struct ReadLoop {
    batch: usize,
    rounds: usize,
    done: usize,
    offset: usize,
    total_size: usize,
}

impl ReadLoop {
    /// The size of each read.
    pub closed spec fn batch(&self) -> nat {
        self.batch as nat
    }

    /// The number of reads the loop makes.
    pub closed spec fn rounds(&self) -> nat {
        self.rounds as nat
    }

    /// The number of reads made so far.
    pub closed spec fn done(&self) -> nat {
        self.done as nat
    }

    /// Where the next read starts.
    pub closed spec fn offset(&self) -> nat {
        self.offset as nat
    }

    /// The sum of what the reads made so far counted.
    pub closed spec fn total(&self) -> nat {
        self.total_size as nat
    }

    /// The loop's internal consistency: every read so far advanced the offset
    /// by one batch, counted at most one batch, and the whole plan fits in a
    /// `usize`.
    pub closed spec fn wf(&self) -> bool {
        &&& self.batch > 0
        &&& self.done <= self.rounds
        &&& self.rounds * self.batch <= usize::MAX
        &&& self.offset == self.done * self.batch
        &&& self.total_size <= self.done * self.batch
    }

    /// The loop before its first read, for `total_data_bytes` bytes of data read
    /// `batch_read_bytes` at a time. A batch of zero bytes, and a plan whose
    /// last offset does not fit in a `usize`, are left out: there the loop
    /// would divide by zero or overflow.
    pub fn new(batch_read_bytes: usize, total_data_bytes: usize) -> (r: ReadLoop)
        requires
            batch_read_bytes > 0,
            read_rounds(batch_read_bytes as nat, total_data_bytes as nat) * batch_read_bytes
                <= usize::MAX,
        ensures
            r.wf(),
            r.batch() == batch_read_bytes,
            r.rounds() == read_rounds(batch_read_bytes as nat, total_data_bytes as nat),
            r.done() == 0,
            r.offset() == 0,
            r.total() == 0,
    {
        proof {
            let q = total_data_bytes as nat / batch_read_bytes as nat;
            assert(q + 1 <= (q + 1) * batch_read_bytes) by (nonlinear_arith)
                requires
                    batch_read_bytes >= 1,
            ;
        }
        let rounds = total_data_bytes / batch_read_bytes + 1;
        ReadLoop { batch: batch_read_bytes, rounds, done: 0, offset: 0, total_size: 0 }
    }

    /// Where the next read starts, or `None` once every read is made. The
    /// read numbered `k`, from zero, starts at `k` batches.
    pub fn next_offset(&self) -> (r: Option<usize>)
        requires
            self.wf(),
        ensures
            self.done() < self.rounds() ==> r == Some((self.done() * self.batch()) as usize),
            self.done() >= self.rounds() ==> r is None,
            self.offset() == self.done() * self.batch(),
    {
        if self.done < self.rounds {
            Some(self.offset)
        } else {
            None
        }
    }

    /// Records a read that counted `counted` bytes, at most one batch.
    pub fn finish_read(&mut self, counted: usize)
        requires
            old(self).wf(),
            old(self).done() < old(self).rounds(),
            counted <= old(self).batch(),
        ensures
            final(self).wf(),
            final(self).batch() == old(self).batch(),
            final(self).rounds() == old(self).rounds(),
            final(self).done() == old(self).done() + 1,
            final(self).offset() == old(self).offset() + old(self).batch(),
            final(self).total() == old(self).total() + counted,
    {
        proof {
            assert((self.done + 1) * self.batch <= self.rounds * self.batch) by (nonlinear_arith)
                requires
                    self.done + 1 <= self.rounds,
            ;
            assert((self.done + 1) * self.batch == self.done * self.batch + self.batch) by (nonlinear_arith);
        }
        self.done = self.done + 1;
        self.offset = self.offset + self.batch;
        self.total_size = self.total_size + counted;
    }

    /// The size of each read.
    pub fn batch_size(&self) -> (r: usize)
        ensures
            r == self.batch(),
    {
        self.batch
    }

    /// The number of reads made so far.
    pub fn reads_done(&self) -> (r: usize)
        ensures
            r == self.done(),
    {
        self.done
    }

    /// The sum of what the reads made so far counted.
    pub fn total_size(&self) -> (r: usize)
        ensures
            r == self.total(),
    {
        self.total_size
    }
}

/// The reads cover the data: every offset up to the end of the data falls
/// inside the window of some read, the one numbered `offset / batch`.
pub proof fn lemma_reads_cover_data(batch: nat, total: nat, offset: nat)
    requires
        batch > 0,
        offset <= total,
    ensures
        offset / batch < read_rounds(batch, total),
        (offset / batch) * batch <= offset < (offset / batch + 1) * batch,
{
    assert(offset / batch <= total / batch) by (nonlinear_arith)
        requires
            offset <= total,
            batch > 0,
    ;
    assert((offset / batch) * batch <= offset < (offset / batch + 1) * batch) by (nonlinear_arith)
        requires
            batch > 0,
    ;
}

/// When every read counts a whole batch, the sum after the loop is the number
/// of reads times the batch, that is, more than the data holds.
pub proof fn lemma_full_reads_total(batch: nat, total: nat)
    requires
        batch > 0,
    ensures
        read_rounds(batch, total) * batch > total,
{
    assert((total / batch + 1) * batch > total) by (nonlinear_arith)
        requires
            batch > 0,
    ;
}

} // verus!
