use vstd::prelude::*;

verus! {

/// Number of sample frames that the engine renders per `process` call.
pub const BLOCK_SIZE: usize = 32;

/// Number of output channels of the engine: left (0), then right (1).
pub const N_OUTPUTS: usize = 2;

/// The samples of output channel `ch` over a run of rendered blocks: the
/// channel's frames of the first block, then those of the second, and so on.
pub open spec fn channel_stream<T>(blocks: Seq<[[T; BLOCK_SIZE]; N_OUTPUTS]>, ch: int) -> Seq<T>
    decreases blocks.len(),
{
    if blocks.len() == 0 {
        Seq::empty()
    } else {
        channel_stream(blocks.drop_last(), ch) + blocks.last()[ch]@
    }
}

/// A run of `n` blocks gives every channel a stream of exactly
/// `BLOCK_SIZE * n` samples; in particular the left and right streams of a
/// run always have the same length.
pub proof fn lemma_stream_len<T>(blocks: Seq<[[T; BLOCK_SIZE]; N_OUTPUTS]>, ch: int)
    ensures
        channel_stream(blocks, ch).len() == BLOCK_SIZE * blocks.len(),
    decreases blocks.len(),
{
    if blocks.len() > 0 {
        lemma_stream_len(blocks.drop_last(), ch);
    }
}

/// Frame `j` of channel `ch` of block `k` stands at position
/// `BLOCK_SIZE * k + j` of that channel's stream.
pub proof fn lemma_stream_index<T>(
    blocks: Seq<[[T; BLOCK_SIZE]; N_OUTPUTS]>,
    ch: int,
    k: int,
    j: int,
)
    requires
        0 <= k < blocks.len(),
        0 <= j < BLOCK_SIZE,
    ensures
        channel_stream(blocks, ch)[BLOCK_SIZE * k + j] == blocks[k][ch][j],
    decreases blocks.len(),
{
    let prefix = blocks.drop_last();
    lemma_stream_len(prefix, ch);
    if k < blocks.len() - 1 {
        lemma_stream_index(prefix, ch, k, j);
        assert(prefix[k] == blocks[k]);
    }
}

/// Recording one run of blocks and then another gives, on every channel,
/// the first run's stream followed by the second run's stream.
pub proof fn lemma_stream_concat<T>(
    first: Seq<[[T; BLOCK_SIZE]; N_OUTPUTS]>,
    second: Seq<[[T; BLOCK_SIZE]; N_OUTPUTS]>,
    ch: int,
)
    ensures
        channel_stream(first + second, ch) == channel_stream(first, ch) + channel_stream(second, ch),
    decreases second.len(),
{
    if second.len() == 0 {
        assert(first + second =~= first);
        assert(channel_stream(first, ch) + channel_stream(second, ch) =~= channel_stream(first, ch));
    } else {
        let whole = first + second;
        assert(whole.drop_last() =~= first + second.drop_last());
        assert(whole.last() == second.last());
        lemma_stream_concat(first, second.drop_last(), ch);
        assert(channel_stream(whole, ch) =~= channel_stream(first, ch) + channel_stream(second, ch));
    }
}

/// Appends the frames of one channel of one block to `stream`, in order.
fn append_frames<T: Copy>(stream: &mut Vec<T>, frames: &[T; BLOCK_SIZE])
    ensures
        final(stream)@ == old(stream)@ + frames@,
{
    let ghost start = stream@;
    for i in 0..BLOCK_SIZE
        invariant
            stream@ == start + frames@.subrange(0, i as int),
    {
        stream.push(frames[i]);
        assert(frames@.subrange(0, i + 1) =~= frames@.subrange(0, i as int).push(frames@[i as int]));
    }
    assert(frames@.subrange(0, BLOCK_SIZE as int) =~= frames@);
}

/// The output of an engine run, recorded block by block and split into one
/// sample stream per channel.
///
/// Its view is the sequence of blocks recorded so far; the left and right
/// streams are always the channel streams of exactly those blocks.
pub struct Capture<T> {
    left: Vec<T>,
    right: Vec<T>,
    blocks: Ghost<Seq<[[T; BLOCK_SIZE]; N_OUTPUTS]>>,
}

impl<T> View for Capture<T> {
    type V = Seq<[[T; BLOCK_SIZE]; N_OUTPUTS]>;

    closed spec fn view(&self) -> Seq<[[T; BLOCK_SIZE]; N_OUTPUTS]> {
        self.blocks@
    }
}

impl<T> Capture<T> {
    #[verifier::type_invariant]
    closed spec fn streams_match_blocks(self) -> bool {
        &&& self.left@ == channel_stream(self.blocks@, 0)
        &&& self.right@ == channel_stream(self.blocks@, 1)
    }
}

impl<T: Copy> Capture<T> {
    /// A capture that has recorded no block yet.
    pub fn new() -> (c: Capture<T>)
        ensures
            c@ == Seq::<[[T; BLOCK_SIZE]; N_OUTPUTS]>::empty(),
    {
        Capture { left: Vec::new(), right: Vec::new(), blocks: Ghost(Seq::empty()) }
    }

    /// Records one rendered block: its left frames go to the end of the left
    /// stream, its right frames to the end of the right stream.
    pub fn push_block(&mut self, block: &[[T; BLOCK_SIZE]; N_OUTPUTS])
        ensures
            final(self)@ == old(self)@.push(*block),
    {
        let mut taken: Capture<T> = Capture::new();
        std::mem::swap(self, &mut taken);
        proof {
            use_type_invariant(&taken);
        }
        let Capture { mut left, mut right, blocks } = taken;
        let ghost recorded = blocks@.push(*block);
        append_frames(&mut left, &block[0]);
        append_frames(&mut right, &block[1]);
        assert(recorded.drop_last() =~= blocks@);
        *self = Capture { left, right, blocks: Ghost(recorded) };
    }

    /// The left channel's samples over all recorded blocks.
    pub fn left(&self) -> (s: &Vec<T>)
        ensures
            s@ == channel_stream(self@, 0),
    {
        proof {
            use_type_invariant(self);
        }
        &self.left
    }

    /// The right channel's samples over all recorded blocks.
    pub fn right(&self) -> (s: &Vec<T>)
        ensures
            s@ == channel_stream(self@, 1),
    {
        proof {
            use_type_invariant(self);
        }
        &self.right
    }
}

/// The points of a line plot of `samples`: each sample paired with its index,
/// in order.
pub fn plot_points<T: Copy>(samples: &Vec<T>) -> (points: Vec<(usize, T)>)
    ensures
        points@.len() == samples@.len(),
        forall|i: int| 0 <= i < samples@.len() ==> #[trigger] points@[i] == (i as usize, samples@[i]),
{
    let mut points: Vec<(usize, T)> = Vec::new();
    for i in 0..samples.len()
        invariant
            points@.len() == i,
            forall|k: int| 0 <= k < i ==> #[trigger] points@[k] == (k as usize, samples@[k]),
    {
        points.push((i, samples[i]));
    }
    points
}

} // verus!
