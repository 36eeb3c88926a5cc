use vstd::prelude::*;

verus! {

/// Largest magnitude over a sequence of samples; zero when empty.
pub open spec fn max_abs(s: Seq<i32>) -> nat
    decreases s.len(),
{
    if s.len() == 0 {
        0
    } else {
        let last = s.last() as int;
        let m = (if last >= 0 { last } else { -last }) as nat;
        let rest = max_abs(s.drop_last());
        if m > rest { m } else { rest }
    }
}

/// Contents after appending each chunk in turn, starting from `start`.
pub open spec fn after_appends(start: Seq<i32>, chunks: Seq<Seq<i32>>) -> Seq<i32>
    decreases chunks.len(),
{
    if chunks.len() == 0 {
        start
    } else {
        after_appends(start, chunks.drop_last()) + chunks.last()
    }
}

/// Total number of samples in a list of chunks.
pub open spec fn total_len(chunks: Seq<Seq<i32>>) -> nat
    decreases chunks.len(),
{
    if chunks.len() == 0 {
        0
    } else {
        total_len(chunks.drop_last()) + chunks.last().len()
    }
}

/// Ordered accumulator of captured samples (millionths of full scale).
pub struct CaptureBuffer {
    samples: Vec<i32>,
}

impl View for CaptureBuffer {
    type V = Seq<i32>;

    closed spec fn view(&self) -> Seq<i32> {
        self.samples@
    }
}

impl CaptureBuffer {
    pub fn new() -> (r: CaptureBuffer)
        ensures
            r@ == Seq::<i32>::empty(),
    {
        CaptureBuffer { samples: Vec::new() }
    }

    /// Appends samples after those already held, in order.
    pub fn append(&mut self, data: &[i32])
        ensures
            final(self)@ == old(self)@ + data@,
    {
        let mut i: usize = 0;
        while i < data.len()
            invariant
                i <= data@.len(),
                self@ == old(self)@ + data@.subrange(0, i as int),
            decreases data@.len() - i,
        {
            self.samples.push(data[i]);
            i = i + 1;
            assert(data@.subrange(0, i as int) == data@.subrange(0, i - 1) + seq![data@[i - 1]]);
        }
        assert(data@.subrange(0, data@.len() as int) == data@);
    }

    pub fn snapshot_len(&self) -> (r: usize)
        ensures
            r == self@.len(),
    {
        self.samples.len()
    }

    /// Largest magnitude held, zero when empty.
    pub fn snapshot_max_abs(&self) -> (r: u32)
        ensures
            r as nat == max_abs(self@),
    {
        let mut best: u32 = 0;
        let mut i: usize = 0;
        while i < self.samples.len()
            invariant
                i <= self@.len(),
                best as nat == max_abs(self@.subrange(0, i as int)),
            decreases self@.len() - i,
        {
            let x = self.samples[i];
            let m: u32 = if x >= 0 { x as u32 } else { (-(x as i64)) as u32 };
            assert(self@.subrange(0, i + 1).drop_last() == self@.subrange(0, i as int));
            if m > best {
                best = m;
            }
            i = i + 1;
        }
        assert(self@.subrange(0, self@.len() as int) == self@);
        best
    }

    /// Hands out every held sample in arrival order and leaves the buffer empty.
    pub fn drain(&mut self) -> (r: Vec<i32>)
        ensures
            r@ == old(self)@,
            final(self)@ == Seq::<i32>::empty(),
    {
        let mut taken: Vec<i32> = Vec::new();
        std::mem::swap(&mut taken, &mut self.samples);
        taken
    }
}

/// Appends with no drain between them leave exactly the samples given, in arrival
/// order, so the length held is the total number of samples appended.
pub proof fn lemma_appends_keep_order(chunks: Seq<Seq<i32>>)
    ensures
        after_appends(Seq::empty(), chunks) == chunks.flatten(),
        after_appends(Seq::empty(), chunks).len() == total_len(chunks),
    decreases chunks.len(),
{
    if chunks.len() > 0 {
        lemma_appends_keep_order(chunks.drop_last());
        chunks.drop_last().lemma_flatten_push(chunks.last());
        assert(chunks.drop_last().push(chunks.last()) == chunks);
    }
}

} // verus!
