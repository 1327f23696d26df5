use vstd::prelude::*;

verus! {

/// The byte that ends a line.
pub const NEWLINE: u8 = 10;

/// Splits `d` into the lines it completes and the pending tail after the last newline,
/// starting from the already collected `lines` and a partial line `pending`.
pub open spec fn scan(lines: Seq<Seq<u8>>, pending: Seq<u8>, d: Seq<u8>) -> (Seq<Seq<u8>>, Seq<u8>)
    decreases d.len(),
{
    if d.len() == 0 {
        (lines, pending)
    } else {
        let (ls, p) = scan(lines, pending, d.drop_last());
        if d.last() == NEWLINE {
            (ls.push(p), Seq::empty())
        } else {
            (ls, p.push(d.last()))
        }
    }
}

/// The newline-terminated lines of `d`, in order, each without its newline.
pub open spec fn complete_lines(d: Seq<u8>) -> Seq<Seq<u8>> {
    scan(Seq::empty(), Seq::empty(), d).0
}

/// The bytes of `d` after its last newline (all of `d` if it has none).
pub open spec fn partial_tail(d: Seq<u8>) -> Seq<u8> {
    scan(Seq::empty(), Seq::empty(), d).1
}

/// How many bytes of `d` the complete lines take up, newlines included.
pub open spec fn consumed_len(d: Seq<u8>) -> int {
    d.len() - partial_tail(d).len()
}

/// The collected lines only grow at their end, and the pending tail is never longer than
/// the pending start plus the input.
pub proof fn lemma_scan_extends(lines: Seq<Seq<u8>>, pending: Seq<u8>, d: Seq<u8>)
    ensures
        scan(lines, pending, d).0.len() >= lines.len(),
        scan(lines, pending, d).0.subrange(0, lines.len() as int) == lines,
        scan(lines, pending, d).1.len() <= pending.len() + d.len(),
    decreases d.len(),
{
    if d.len() > 0 {
        lemma_scan_extends(lines, pending, d.drop_last());
    }
}

/// Scanning from collected lines is scanning from none and prepending them.
pub proof fn lemma_scan_prefix(lines: Seq<Seq<u8>>, pending: Seq<u8>, d: Seq<u8>)
    ensures
        scan(lines, pending, d).0 == lines + scan(Seq::empty(), pending, d).0,
        scan(lines, pending, d).1 == scan(Seq::empty(), pending, d).1,
    decreases d.len(),
{
    if d.len() > 0 {
        lemma_scan_prefix(lines, pending, d.drop_last());
        let (ls, p) = scan(Seq::<Seq<u8>>::empty(), pending, d.drop_last());
        assert((lines + ls).push(p) =~= lines + ls.push(p));
    }
}

/// Scanning `a + b` is scanning `b` from where the scan of `a` left off.
pub proof fn lemma_scan_append(lines: Seq<Seq<u8>>, pending: Seq<u8>, a: Seq<u8>, b: Seq<u8>)
    ensures
        scan(lines, pending, a + b) == scan(scan(lines, pending, a).0, scan(lines, pending, a).1, b),
    decreases b.len(),
{
    if b.len() == 0 {
        assert(a + b =~= a);
    } else {
        assert((a + b).drop_last() =~= a + b.drop_last());
        assert((a + b).last() == b.last());
        lemma_scan_append(lines, pending, a, b.drop_last());
    }
}

/// The prefix of `d` that its complete lines take up has the same complete lines and no
/// partial tail.
pub proof fn lemma_consumed_prefix(d: Seq<u8>)
    ensures
        0 <= consumed_len(d) <= d.len(),
        complete_lines(d.subrange(0, consumed_len(d))) == complete_lines(d),
        partial_tail(d.subrange(0, consumed_len(d))) == Seq::<u8>::empty(),
    decreases d.len(),
{
    lemma_scan_extends(Seq::empty(), Seq::empty(), d);
    if d.len() == 0 {
    } else if d.last() == NEWLINE {
        assert(d.subrange(0, d.len() as int) =~= d);
    } else {
        let e = d.drop_last();
        lemma_consumed_prefix(e);
        assert(consumed_len(d) == consumed_len(e));
        assert(d.subrange(0, consumed_len(d)) =~= e.subrange(0, consumed_len(e)));
    }
}

/// Splits `d` into its complete lines and returns them with the number of bytes they take
/// up; the bytes after the last newline are left for a later call.
pub fn split_complete_lines(d: &[u8]) -> (r: (Vec<Vec<u8>>, usize))
    ensures
        r.0@.map_values(|l: Vec<u8>| l@) == complete_lines(d@),
        r.1 == consumed_len(d@),
{
    let mut lines: Vec<Vec<u8>> = Vec::new();
    let mut cur: Vec<u8> = Vec::new();
    let mut i: usize = 0;
    while i < d.len()
        invariant
            0 <= i <= d@.len(),
            (lines@.map_values(|l: Vec<u8>| l@), cur@) == scan(
                Seq::empty(),
                Seq::empty(),
                d@.subrange(0, i as int),
            ),
            cur@.len() <= i,
        decreases d@.len() - i,
    {
        let ghost before = d@.subrange(0, i as int);
        assert(d@.subrange(0, i + 1).drop_last() =~= before);
        let b = d[i];
        if b == NEWLINE {
            let line = cur;
            cur = Vec::new();
            lines.push(line);
            assert(lines@.map_values(|l: Vec<u8>| l@) =~= scan(Seq::empty(), Seq::empty(), before).0.push(line@));
        } else {
            cur.push(b);
        }
        i = i + 1;
    }
    assert(d@.subrange(0, d@.len() as int) =~= d@);
    (lines, d.len() - cur.len())
}

} // verus!
