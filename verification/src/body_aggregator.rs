use vstd::prelude::*;
use vstd::seq_lib::lemma_flatten_concat;
use vstd::seq_lib::lemma_seq_skip_of_skip;

verus! {

/// The chunks of a response body, gathered as they arrive and read
/// out again as one byte stream.
pub struct AsyncBufList {
    bufs: Vec<Vec<u8>>,
}

impl View for AsyncBufList {
    type V = Seq<Seq<u8>>;

    closed spec fn view(&self) -> Seq<Seq<u8>> {
        self.bufs@.map_values(|b: Vec<u8>| b@)
    }
}

impl AsyncBufList {
    /// The gathered body as one byte sequence.
    pub open spec fn bytes(&self) -> Seq<u8> {
        self@.flatten()
    }

    /// No chunk held is empty: pushing keeps empty chunks out, and
    /// advancing drops a chunk once it is spent.
    pub open spec fn wf(&self) -> bool {
        forall|k: int| 0 <= k < self@.len() ==> (#[trigger] self@[k]).len() > 0
    }

    /// An empty gathering.
    pub fn new() -> (r: AsyncBufList)
        ensures
            r@ == Seq::<Seq<u8>>::empty(),
            r.bytes() == Seq::<u8>::empty(),
            r.wf(),
    {
        let r = AsyncBufList { bufs: Vec::new() };
        proof {
            assert(r@ =~= Seq::<Seq<u8>>::empty());
            assert(r.bytes() =~= Seq::<u8>::empty());
        }
        r
    }

    /// Take one arriving chunk in; empty chunks are not kept.
    pub fn push(&mut self, buf: Vec<u8>)
        requires
            buf@.len() > 0,
            old(self).wf(),
        ensures
            final(self)@ == old(self)@.push(buf@),
            final(self).bytes() == old(self).bytes() + buf@,
            final(self).wf(),
    {
        let ghost old_view = self@;
        self.bufs.push(buf);
        proof {
            assert(self@ =~= old_view.push(buf@));
            old_view.lemma_flatten_push(buf@);
        }
    }

    /// How many chunks are held.
    pub fn bufs_cnt(&self) -> (r: usize)
        ensures
            r == self@.len(),
    {
        self.bufs.len()
    }

    /// How many bytes are held over all chunks.
    pub fn remaining(&self) -> (r: usize)
        requires
            self.bytes().len() <= usize::MAX,
        ensures
            r == self.bytes().len(),
    {
        let mut total: usize = 0;
        let mut i: usize = 0;
        proof {
            assert(self@.subrange(0, 0) =~= Seq::<Seq<u8>>::empty());
            assert(self@.subrange(0, 0).flatten() =~= Seq::<u8>::empty());
        }
        while i < self.bufs.len()
            invariant
                i <= self@.len(),
                self@.len() == self.bufs@.len(),
                self.bytes().len() <= usize::MAX,
                total == self@.subrange(0, i as int).flatten().len(),
            decreases self@.len() - i,
        {
            proof {
                lemma_flatten_concat(
                    self@.subrange(0, i as int),
                    self@.subrange(i as int, self@.len() as int),
                );
                assert(self@.subrange(0, i as int).add(
                    self@.subrange(i as int, self@.len() as int),
                ) =~= self@);
                lemma_flatten_concat(
                    self@.subrange(0, i + 1),
                    self@.subrange(i + 1, self@.len() as int),
                );
                assert(self@.subrange(0, i + 1).add(self@.subrange(i + 1, self@.len() as int))
                    =~= self@);
                assert(self@.subrange(0, i as int).push(self@[i as int]) =~= self@.subrange(
                    0,
                    i + 1,
                ));
                self@.subrange(0, i as int).lemma_flatten_push(self@[i as int]);
            }
            total = total + self.bufs[i].len();
            i = i + 1;
        }
        proof {
            assert(self@.subrange(0, self@.len() as int) =~= self@);
        }
        total
    }

    /// Read the first `len` bytes out: they leave the buffer and come
    /// back as one chunk, in stream order.
    pub fn copy_to_bytes(&mut self, len: usize) -> (r: Vec<u8>)
        requires
            len <= old(self).bytes().len(),
            old(self).wf(),
        ensures
            r@ == old(self).bytes().take(len as int),
            final(self).bytes() == old(self).bytes().skip(len as int),
            final(self).wf(),
    {
        let ghost orig_bytes = self.bytes();
        let mut out: Vec<u8> = Vec::new();
        let mut got: usize = 0;
        while got < len
            invariant
                got <= len,
                len <= orig_bytes.len(),
                self.wf(),
                out@.len() == got,
                forall|k: int| 0 <= k < got ==> out@[k] == orig_bytes[k],
                self.bytes() =~= orig_bytes.skip(got as int),
            decreases len - got,
        {
            let ghost pre_view = self@;
            let ghost pre_bytes = self.bytes();
            proof {
                assert(pre_view.len() > 0) by {
                    if pre_view.len() == 0 {
                        assert(pre_bytes =~= Seq::<u8>::empty());
                    }
                }
                assert(pre_view.first() == self.bufs@[0]@);
                assert(pre_bytes =~= pre_view.first().add(pre_view.drop_first().flatten()));
            }
            let front_len = self.bufs[0].len();
            let take_n = if front_len <= len - got {
                front_len
            } else {
                len - got
            };
            proof {
                assert(take_n <= pre_view.first().len());
                assert(forall|k: int|
                    0 <= k < take_n ==> pre_bytes[k] == pre_view.first()[k]);
            }
            let mut j: usize = 0;
            while j < take_n
                invariant
                    j <= take_n,
                    got + take_n <= len,
                    len <= orig_bytes.len(),
                    self@ == pre_view,
                    pre_view.len() > 0,
                    take_n <= self.bufs@[0]@.len(),
                    pre_view.first() == self.bufs@[0]@,
                    out@.len() == got + j,
                    forall|k: int| 0 <= k < got ==> out@[k] == orig_bytes[k],
                    forall|k: int| 0 <= k < j ==> out@[got + k] == pre_view.first()[k],
                decreases take_n - j,
            {
                out.push(self.bufs[0][j]);
                j = j + 1;
            }
            proof {
                assert forall|k: int| 0 <= k < got + take_n implies out@[k] == orig_bytes[k] by {
                    if got <= k {
                        assert(out@[k] == pre_view.first()[k - got]);
                        assert(pre_view.first()[k - got] == pre_bytes[k - got]);
                        assert(pre_bytes[k - got] == orig_bytes.skip(got as int)[k - got]);
                    }
                }
            }
            self.advance(take_n);
            proof {
                lemma_seq_skip_of_skip(orig_bytes, got as int, take_n as int);
            }
            got = got + take_n;
        }
        proof {
            assert(out@ =~= orig_bytes.take(len as int));
        }
        out
    }

    /// Drop the first `cnt` bytes: what remains is the rest of the
    /// stream, chunk boundaries notwithstanding.
    pub fn advance(&mut self, cnt: usize)
        requires
            cnt <= old(self).bytes().len(),
            old(self).wf(),
        ensures
            final(self).bytes() == old(self).bytes().skip(cnt as int),
            final(self).wf(),
    {
        let ghost orig_bytes = self.bytes();
        let mut left: usize = cnt;
        while left > 0
            invariant
                left <= cnt,
                cnt <= orig_bytes.len(),
                left <= self.bytes().len(),
                self.wf(),
                self.bytes() =~= orig_bytes.skip(cnt - left),
            decreases left,
        {
            let ghost pre_view = self@;
            let ghost pre_bytes = self.bytes();
            let rem = self.bufs[0].len();
            proof {
                assert(pre_view.first() == self.bufs@[0]@);
                assert(pre_bytes =~= pre_view.first().add(pre_view.drop_first().flatten()));
            }
            if rem <= left {
                let _ = self.bufs.remove(0);
                proof {
                    assert(self@ =~= pre_view.drop_first());
                    assert(self.bytes() =~= pre_bytes.skip(rem as int));
                    assert(pre_bytes == orig_bytes.skip(cnt - left));
                    lemma_seq_skip_of_skip(orig_bytes, cnt - left, rem as int);
                    assert(0 <= cnt - left);
                    assert(cnt - left + rem <= orig_bytes.len());
                    assert(orig_bytes.skip(cnt - left).skip(rem as int) == orig_bytes.skip(
                        cnt - left + rem,
                    ));
                    assert(pre_bytes.skip(rem as int) == orig_bytes.skip(cnt - left).skip(
                        rem as int,
                    ));
                    assert(self.bytes() == orig_bytes.skip(cnt - (left - rem)));
                }
                left = left - rem;
            } else {
                let front = self.bufs.remove(0);
                let ghost mid_view = self@;
                let mut suffix: Vec<u8> = Vec::new();
                let mut j: usize = left;
                while j < front.len()
                    invariant
                        left <= j <= front@.len(),
                        suffix@ =~= front@.subrange(left as int, j as int),
                    decreases front@.len() - j,
                {
                    suffix.push(front[j]);
                    j = j + 1;
                }
                self.bufs.insert(0, suffix);
                proof {
                    assert(mid_view =~= pre_view.drop_first());
                    assert(self@ =~= mid_view.insert(0, front@.subrange(
                        left as int,
                        front@.len() as int,
                    )));
                    assert(self@.first() == front@.subrange(left as int, front@.len() as int));
                    assert(self@.drop_first() =~= mid_view);
                    assert(self.bytes() =~= self@.first().add(mid_view.flatten()));
                    assert(self.bytes() =~= pre_bytes.skip(left as int));
                    assert(pre_bytes == orig_bytes.skip(cnt - left));
                    lemma_seq_skip_of_skip(orig_bytes, cnt - left, left as int);
                    assert(cnt - left + left == cnt) by {}
                    assert(self.bytes() == orig_bytes.skip(cnt as int));
                }
                left = 0;
            }
        }
        proof {
            assert(orig_bytes.skip(cnt - 0) =~= orig_bytes.skip(cnt as int));
        }
    }
}

} // verus!
