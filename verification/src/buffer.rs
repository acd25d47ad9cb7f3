//! The shared output buffer: a growable byte sequence that the two capture
//! workers append chunks to and the display layer reads back as lines.

use vstd::prelude::*;

verus! {

/// Raw bytes captured from a child process's standard output and standard
/// error streams. Chunks are appended in read order; the display layer takes
/// a snapshot and renders the trailing lines.
pub struct OutputBuffer {
    bytes: Vec<u8>,
}

impl View for OutputBuffer {
    type V = Seq<u8>;

    closed spec fn view(&self) -> Seq<u8> {
        self.bytes@
    }
}

impl OutputBuffer {
    /// A freshly created buffer holds no bytes.
    pub fn new() -> (r: OutputBuffer)
        ensures
            r@ == Seq::<u8>::empty(),
    {
        OutputBuffer { bytes: Vec::new() }
    }

    pub fn len(&self) -> (n: usize)
        ensures
            n == self@.len(),
    {
        self.bytes.len()
    }

    /// Appends one chunk read from a stream; existing bytes are untouched and
    /// the chunk's bytes follow them in order.
    pub fn append(&mut self, chunk: &[u8])
        requires
            old(self)@.len() + chunk@.len() <= usize::MAX,
        ensures
            final(self)@ == old(self)@ + chunk@,
    {
        let n = chunk.len();
        let mut i: usize = 0;
        while i < n
            invariant
                i <= n,
                n == chunk@.len(),
                old(self)@.len() + chunk@.len() <= usize::MAX,
                self@ == old(self)@ + chunk@.take(i as int),
            decreases n - i,
        {
            let b = chunk[i];
            self.bytes.push(b);
            proof {
                assert(chunk@.take(i + 1) =~= chunk@.take(i as int).push(chunk@[i as int]));
                assert(old(self)@ + chunk@.take(i + 1)
                    =~= (old(self)@ + chunk@.take(i as int)).push(chunk@[i as int]));
            }
            i = i + 1;
        }
        proof {
            assert(chunk@.take(n as int) =~= chunk@);
        }
    }

    /// A borrowed view of everything captured so far.
    pub fn contents(&self) -> (r: &Vec<u8>)
        ensures
            r@ == self@,
    {
        &self.bytes
    }

    /// The trailing lines of the captured bytes, as the display layer shows
    /// them: split at every newline, blank segments dropped, and at most the
    /// last `max_lines` of what remains, oldest first.
    pub fn tail_lines(&self, max_lines: usize) -> (r: Vec<Vec<u8>>)
        ensures
            views_of(r@) == spec_tail_lines(self@, max_lines as nat),
    {
        let bytes = &self.bytes;
        let n = bytes.len();
        let mut kept: Vec<Vec<u8>> = Vec::new();
        let mut cur: Vec<u8> = Vec::new();
        let mut i: usize = 0;
        while i < n
            invariant
                i <= n,
                n == self@.len(),
                bytes@ == self@,
                views_of(kept@) == nonblank_lines(split_lines(self@.take(i as int)).drop_last()),
                cur@ == split_lines(self@.take(i as int)).last(),
            decreases n - i,
        {
            proof {
                lemma_split_lines_len(self@.take(i as int));
                assert(self@.take(i + 1).drop_last() =~= self@.take(i as int));
            }
            let ghost prev = split_lines(self@.take(i as int));
            let ghost next = split_lines(self@.take(i + 1));
            let b = bytes[i];
            if b == 10 {
                proof {
                    assert(next =~= prev.push(Seq::<u8>::empty()));
                    assert(next.drop_last() =~= prev);
                    assert(prev =~= prev.drop_last().push(prev.last()));
                }
                if cur.len() > 0 {
                    kept.push(cur);
                    cur = Vec::new();
                    proof {
                        assert(views_of(kept@) =~= nonblank_lines(prev.drop_last()).push(
                            prev.last(),
                        ));
                    }
                } else {
                    proof {
                        assert(cur@ =~= Seq::<u8>::empty());
                    }
                }
                proof {
                    assert(nonblank_lines(prev) == if prev.last().len() > 0 {
                        nonblank_lines(prev.drop_last()).push(prev.last())
                    } else {
                        nonblank_lines(prev.drop_last())
                    });
                }
            } else {
                cur.push(b);
                proof {
                    assert(next =~= prev.update(prev.len() - 1, prev.last().push(b)));
                    assert(next.drop_last() =~= prev.drop_last());
                    assert(cur@ =~= next.last());
                }
            }
            i = i + 1;
        }
        proof {
            assert(self@.take(n as int) =~= self@);
            lemma_split_lines_len(self@);
            assert(split_lines(self@) =~= split_lines(self@).drop_last().push(
                split_lines(self@).last(),
            ));
        }
        if cur.len() > 0 {
            kept.push(cur);
            proof {
                assert(views_of(kept@) =~= nonblank_lines(split_lines(self@)));
            }
        }
        proof {
            assert(views_of(kept@) =~= nonblank_lines(split_lines(self@)));
        }
        let total = kept.len();
        if total > max_lines {
            let ghost all = kept@;
            let r = kept.split_off(total - max_lines);
            proof {
                assert(views_of(r@) =~= views_of(all).skip(views_of(all).len() - max_lines as int));
            }
            r
        } else {
            kept
        }
    }
}

/// The per-element views of a sequence of byte vectors.
pub open spec fn views_of(v: Seq<Vec<u8>>) -> Seq<Seq<u8>> {
    v.map_values(|l: Vec<u8>| l@)
}

/// The segments of a byte sequence split at every newline byte. An empty
/// sequence has one empty segment; a trailing newline yields a final empty
/// segment, exactly as the display layer's line splitting sees it.
pub open spec fn split_lines(s: Seq<u8>) -> Seq<Seq<u8>>
    decreases s.len(),
{
    if s.len() == 0 {
        seq![Seq::<u8>::empty()]
    } else if s.last() == 10u8 {
        split_lines(s.drop_last()).push(Seq::<u8>::empty())
    } else {
        let p = split_lines(s.drop_last());
        p.update(p.len() - 1, p.last().push(s.last()))
    }
}

/// Splitting always yields at least one segment.
pub proof fn lemma_split_lines_len(s: Seq<u8>)
    ensures
        split_lines(s).len() >= 1,
    decreases s.len(),
{
    if s.len() > 0 {
        lemma_split_lines_len(s.drop_last());
    }
}

/// The segments that are shown: every segment with at least one byte, in
/// their original order.
pub open spec fn nonblank_lines(ls: Seq<Seq<u8>>) -> Seq<Seq<u8>>
    decreases ls.len(),
{
    if ls.len() == 0 {
        Seq::empty()
    } else {
        let rest = nonblank_lines(ls.drop_last());
        if ls.last().len() > 0 {
            rest.push(ls.last())
        } else {
            rest
        }
    }
}

/// At most the last `n` elements of a sequence, in order.
pub open spec fn tail_of(ls: Seq<Seq<u8>>, n: nat) -> Seq<Seq<u8>> {
    if ls.len() <= n {
        ls
    } else {
        ls.skip(ls.len() - n)
    }
}

/// What the display layer renders for a buffer: the trailing `n` non-blank
/// newline-delimited segments of its bytes.
pub open spec fn spec_tail_lines(bytes: Seq<u8>, n: nat) -> Seq<Seq<u8>> {
    tail_of(nonblank_lines(split_lines(bytes)), n)
}

/// No segment of a split holds a newline byte: the split consumes them all.
proof fn lemma_split_lines_no_newline(s: Seq<u8>)
    ensures
        forall|i: int|
            0 <= i < split_lines(s).len() ==> !(#[trigger] split_lines(s)[i]).contains(10u8),
    decreases s.len(),
{
    if s.len() == 0 {
        assert forall|i: int| 0 <= i < split_lines(s).len() implies !(#[trigger] split_lines(
            s,
        )[i]).contains(10u8) by {
            assert(split_lines(s)[i] =~= Seq::<u8>::empty());
        }
    } else {
        lemma_split_lines_no_newline(s.drop_last());
        lemma_split_lines_len(s.drop_last());
        let p = split_lines(s.drop_last());
        if s.last() == 10u8 {
            assert forall|i: int| 0 <= i < split_lines(s).len() implies !(#[trigger] split_lines(
                s,
            )[i]).contains(10u8) by {
                if i < p.len() {
                    assert(split_lines(s)[i] == p[i]);
                } else {
                    assert(split_lines(s)[i] =~= Seq::<u8>::empty());
                }
            }
        } else {
            assert forall|i: int| 0 <= i < split_lines(s).len() implies !(#[trigger] split_lines(
                s,
            )[i]).contains(10u8) by {
                if i < p.len() - 1 {
                    assert(split_lines(s)[i] == p[i]);
                } else {
                    let last = p.last().push(s.last());
                    assert(split_lines(s)[i] == last);
                    assert forall|k: int| 0 <= k < last.len() implies last[k] != 10u8 by {
                        if k < p.last().len() {
                            assert(!p[p.len() - 1].contains(10u8));
                            assert(p.last()[k] != 10u8);
                        }
                    }
                }
            }
        }
    }
}

/// Every kept segment is one of the split's segments, and is non-empty.
proof fn lemma_nonblank_elements(ls: Seq<Seq<u8>>)
    ensures
        forall|i: int|
            0 <= i < nonblank_lines(ls).len() ==> (#[trigger] nonblank_lines(ls)[i]).len() > 0,
        forall|i: int|
            0 <= i < nonblank_lines(ls).len() ==> exists|j: int|
                0 <= j < ls.len() && #[trigger] nonblank_lines(ls)[i] == ls[j],
    decreases ls.len(),
{
    if ls.len() > 0 {
        lemma_nonblank_elements(ls.drop_last());
        let rest = nonblank_lines(ls.drop_last());
        assert forall|i: int| 0 <= i < nonblank_lines(ls).len() implies (#[trigger] nonblank_lines(
            ls,
        )[i]).len() > 0 && exists|j: int| 0 <= j < ls.len() && nonblank_lines(ls)[i] == ls[j] by {
            if i < rest.len() {
                assert(nonblank_lines(ls)[i] == rest[i]);
                let j0 = choose|j: int| 0 <= j < ls.drop_last().len() && rest[i] == ls.drop_last()[j];
                assert(nonblank_lines(ls)[i] == ls[j0]);
            } else {
                assert(nonblank_lines(ls)[i] == ls.last());
                assert(nonblank_lines(ls)[i] == ls[ls.len() - 1]);
            }
        }
    }
}

/// Line shape law: every line handed to the display layer is non-empty and
/// holds no newline byte, whatever the buffer's bytes and the line limit.
pub proof fn lemma_tail_lines_are_lines(bytes: Seq<u8>, n: nat)
    ensures
        forall|i: int|
            0 <= i < spec_tail_lines(bytes, n).len() ==> (#[trigger] spec_tail_lines(bytes, n)[i]).len()
                > 0 && !spec_tail_lines(bytes, n)[i].contains(10u8),
{
    lemma_split_lines_no_newline(bytes);
    lemma_nonblank_elements(split_lines(bytes));
    let nb = nonblank_lines(split_lines(bytes));
    assert forall|i: int| 0 <= i < spec_tail_lines(bytes, n).len() implies (
    #[trigger] spec_tail_lines(bytes, n)[i]).len() > 0 && !spec_tail_lines(bytes, n)[i].contains(
        10u8,
    ) by {
        let e = spec_tail_lines(bytes, n)[i];
        if nb.len() <= n {
            assert(e == nb[i]);
        } else {
            assert(e == nb[i + nb.len() - n]);
        }
        let j = choose|j: int| 0 <= j < split_lines(bytes).len() && e == split_lines(bytes)[j];
        assert(!split_lines(bytes)[j].contains(10u8));
    }
}

} // verus!
