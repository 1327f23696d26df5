use vstd::prelude::*;
use crate::lines::{
    complete_lines,
    consumed_len,
    lemma_consumed_prefix,
    lemma_scan_append,
    lemma_scan_prefix,
    partial_tail,
    scan,
    split_complete_lines,
};

verus! {

/// What the watcher knows of the log: the file it follows and how many of its bytes have
/// been delivered as complete lines.
#[derive(Clone, Debug)]
pub struct TailState {
    pub active_path: String,
    pub offset: u64,
}

/// One read of a file whose content is `content`, from `offset` to its end: the complete lines
/// found there and the offset after them.
pub open spec fn tail_read(offset: int, content: Seq<u8>) -> (Seq<Seq<u8>>, int) {
    let d = content.subrange(offset, content.len() as int);
    (complete_lines(d), offset + consumed_len(d))
}

impl TailState {
    /// Begins to follow `path`, whose file holds `file_len` bytes already: those are never
    /// delivered.
    pub fn start(path: String, file_len: u64) -> (r: TailState)
        ensures
            r.active_path@ == path@,
            r.offset == file_len,
    {
        TailState { active_path: path, offset: file_len }
    }

    /// Handles one filesystem event. A change of a file's data asks for a read, returned as
    /// the offset to read from; where the changed path is not the one followed, the file was
    /// replaced: the new path is followed from its start. Any other event changes nothing.
    pub fn on_event(&mut self, data_modified: bool, paths: &Vec<String>) -> (r: Option<u64>)
        ensures
            !data_modified || paths@.len() == 0 ==> r is None && *final(self) == *old(self),
            data_modified && paths@.len() > 0 ==> r == Some(final(self).offset),
            data_modified && paths@.len() > 0 && paths@[0]@ == old(self).active_path@
                ==> *final(self) == *old(self),
            data_modified && paths@.len() > 0 && paths@[0]@ != old(self).active_path@
                ==> final(self).active_path@ == paths@[0]@ && final(self).offset == 0,
    {
        if !data_modified || paths.len() == 0 {
            return None;
        }
        let modified = &paths[0];
        if *modified != self.active_path {
            self.active_path = modified.clone();
            self.offset = 0;
        }
        Some(self.offset)
    }

    /// Takes the bytes read from the followed file from the offset on, and returns the
    /// complete lines among them, in order and without their newlines. The offset moves past
    /// those lines only: a partial last line is read again, whole, once it is finished.
    pub fn on_read(&mut self, data: &[u8]) -> (r: Vec<Vec<u8>>)
        requires
            old(self).offset + data@.len() <= u64::MAX,
        ensures
            r@.map_values(|l: Vec<u8>| l@) == complete_lines(data@),
            final(self).offset == old(self).offset + consumed_len(data@),
            final(self).offset <= old(self).offset + data@.len(),
            final(self).active_path == old(self).active_path,
    {
        let (lines, used) = split_complete_lines(data);
        proof {
            lemma_consumed_prefix(data@);
        }
        self.offset = self.offset + used as u64;
        lines
    }
}

/// Following a growing file read by read delivers the complete lines of everything appended
/// since the start, in order, exactly once: a read of `first`, then of `later`, which extends
/// it, gives together what one read of `later` gives, and leaves the same offset.
pub proof fn lemma_tail_reads_compose(start: int, first: Seq<u8>, later: Seq<u8>)
    requires
        0 <= start <= first.len() <= later.len(),
        later.subrange(0, first.len() as int) == first,
    ensures
        ({
            let (l1, o1) = tail_read(start, first);
            let (l2, o2) = tail_read(o1, later);
            &&& start <= o1 <= first.len()
            &&& l1 + l2 == tail_read(start, later).0
            &&& o2 == tail_read(start, later).1
        }),
{
    let d1 = first.subrange(start, first.len() as int);
    let c = consumed_len(d1);
    lemma_consumed_prefix(d1);
    let a = d1.subrange(0, c);
    let o1 = start + c;
    let rest = later.subrange(o1, later.len() as int);
    let d = later.subrange(start, later.len() as int);
    assert(d =~= a + rest);
    let e = Seq::<Seq<u8>>::empty();
    let z = Seq::<u8>::empty();
    lemma_scan_append(e, z, a, rest);
    assert(scan(e, z, a) == (complete_lines(d1), partial_tail(a)));
    lemma_scan_prefix(complete_lines(d1), z, rest);
}

/// The lines delivered and the offset reached by reading, from `start`, each of the
/// successive contents `snapshots` of the followed file in turn.
pub open spec fn tail_reads(start: int, snapshots: Seq<Seq<u8>>) -> (Seq<Seq<u8>>, int)
    decreases snapshots.len(),
{
    if snapshots.len() == 0 {
        (Seq::empty(), start)
    } else {
        let (ls, o) = tail_reads(start, snapshots.drop_last());
        let (more, next) = tail_read(o, snapshots.last());
        (ls + more, next)
    }
}

/// Each content of `snapshots` extends those before it: the file only grows.
pub open spec fn grows(snapshots: Seq<Seq<u8>>) -> bool {
    forall|i: int, j: int|
        #![trigger snapshots[i], snapshots[j]]
        0 <= i <= j < snapshots.len() ==> snapshots[i].len() <= snapshots[j].len()
            && snapshots[j].subrange(0, snapshots[i].len() as int) == snapshots[i]
}

/// However many reads a growing file is followed with, together they deliver exactly the
/// complete lines appended after the start, in order, and none of the bytes before it.
pub proof fn lemma_tail_reads(start: int, snapshots: Seq<Seq<u8>>)
    requires
        snapshots.len() > 0,
        0 <= start <= snapshots[0].len(),
        grows(snapshots),
    ensures
        tail_reads(start, snapshots) == tail_read(start, snapshots.last()),
        start <= tail_reads(start, snapshots).1 <= snapshots.last().len(),
    decreases snapshots.len(),
{
    let last = snapshots.last();
    assert(snapshots[0].len() <= snapshots[snapshots.len() - 1].len());
    let d = last.subrange(start, last.len() as int);
    lemma_consumed_prefix(d);
    if snapshots.len() == 1 {
        assert(snapshots.drop_last().len() == 0);
        reveal_with_fuel(tail_reads, 2);
        let e = Seq::<Seq<u8>>::empty();
        assert(e + complete_lines(d) =~= complete_lines(d));
    } else {
        let init = snapshots.drop_last();
        let k = snapshots.len() - 2;
        assert(init.last() == snapshots[k]);
        assert(snapshots[0] == init[0]);
        assert(grows(init)) by {
            assert forall|i: int, j: int| 0 <= i <= j < init.len() implies init[i].len()
                <= init[j].len() && init[j].subrange(0, init[i].len() as int) == init[i] by {
                assert(init[i] == snapshots[i] && init[j] == snapshots[j]);
            }
        }
        lemma_tail_reads(start, init);
        assert(snapshots[k] == init.last() && snapshots[k + 1] == last);
        lemma_tail_reads_compose(start, init.last(), last);
    }
}

} // verus!
