use vstd::prelude::*;
use crate::config::SAMPLES_PER_READ;

verus! {

/// The shape of a scatter view: how many spans a read is handed, one per
/// channel, and how many samples each span can take.
#[derive(Clone, Copy, Debug, PartialEq, Eq, Structural)]
pub struct ScatterShape {
    pub spans: usize,
    pub span_len: usize,
}

impl ScatterShape {
    /// The shape that a capture over `channels` channels reads into: one span
    /// per channel, each of [`SAMPLES_PER_READ`] samples.
    pub open spec fn of_capture(channels: nat) -> ScatterShape
        recommends
            channels <= usize::MAX,
    {
        ScatterShape { spans: channels as usize, span_len: SAMPLES_PER_READ }
    }

    /// The shape that a capture over `channels` channels reads into.
    pub fn for_channels(channels: usize) -> (shape: ScatterShape)
        ensures
            shape == ScatterShape::of_capture(channels as nat),
    {
        ScatterShape { spans: channels, span_len: SAMPLES_PER_READ }
    }
}

/// The buffers have the given shape: one buffer per span, each of the span's
/// length.
pub open spec fn has_shape<T>(buffers: Seq<Vec<T>>, shape: ScatterShape) -> bool {
    &&& buffers.len() == shape.spans
    &&& forall|c: int| 0 <= c < buffers.len() ==> (#[trigger] buffers[c])@.len() == shape.span_len
}

/// Every sample of every buffer is `fill`.
pub open spec fn filled_with<T>(buffers: Seq<Vec<T>>, fill: T) -> bool {
    forall|c: int, i: int|
        0 <= c < buffers.len() && 0 <= i < buffers[c]@.len() ==> (#[trigger] buffers[c]@[i]) == fill
}

/// One buffer of `len` samples, each of them `fill`.
fn allocate_buffer<T: Copy>(len: usize, fill: T) -> (buffer: Vec<T>)
    ensures
        buffer@.len() == len,
        forall|i: int| 0 <= i < len ==> buffer@[i] == fill,
{
    let mut buffer: Vec<T> = Vec::new();
    let mut i: usize = 0;
    while i < len
        invariant
            i <= len,
            buffer@.len() == i,
            forall|k: int| 0 <= k < i ==> buffer@[k] == fill,
        decreases len - i,
    {
        buffer.push(fill);
        i += 1;
    }
    buffer
}

/// The per-channel buffers of a capture, made once before the stream is
/// activated and used again on every read: one buffer per channel, each of
/// [`SAMPLES_PER_READ`] samples, every sample `zero`.
pub fn allocate_buffers<T: Copy>(channels: usize, zero: T) -> (buffers: Vec<Vec<T>>)
    ensures
        has_shape(buffers@, ScatterShape::of_capture(channels as nat)),
        filled_with(buffers@, zero),
{
    let mut buffers: Vec<Vec<T>> = Vec::new();
    let mut c: usize = 0;
    while c < channels
        invariant
            c <= channels,
            buffers@.len() == c,
            forall|k: int| 0 <= k < c ==> (#[trigger] buffers@[k])@.len() == SAMPLES_PER_READ,
            filled_with(buffers@, zero),
        decreases channels - c,
    {
        let buffer = allocate_buffer(SAMPLES_PER_READ, zero);
        buffers.push(buffer);
        c += 1;
    }
    buffers
}

/// The scatter view of the buffers: one mutable span per buffer, in order,
/// each over the whole of its buffer. What is written through a span is what
/// the buffer then holds.
pub fn scatter_view<'a, T>(buffers: &'a mut Vec<Vec<T>>) -> (spans: Vec<&'a mut [T]>)
    ensures
        spans@.len() == old(buffers)@.len(),
        forall|c: int|
            #![trigger spans@[c]]
            0 <= c < spans@.len() ==> spans@[c]@ == old(buffers)@[c]@,
        final(buffers)@.len() == old(buffers)@.len(),
        forall|c: int|
            #![trigger final(buffers)@[c]]
            0 <= c < spans@.len() ==> final(buffers)@[c]@ == final(spans@[c])@,
{
    let ghost before = buffers@;
    let ghost after = final(buffers)@;
    let mut spans: Vec<&'a mut [T]> = Vec::new();
    let mut rest: &'a mut [Vec<T>] = buffers.as_mut_slice();
    while rest.len() > 0
        invariant
            spans@.len() + rest@.len() == before.len(),
            forall|c: int| 0 <= c < spans@.len() ==> spans@[c]@ == before[c]@,
            forall|c: int| 0 <= c < rest@.len() ==> rest@[c]@ == before[spans@.len() + c]@,
            after.len() == spans@.len() + final(rest)@.len(),
            forall|c: int| 0 <= c < spans@.len() ==> after[c]@ == final(spans@[c])@,
            forall|c: int|
                0 <= c < final(rest)@.len() ==> after[spans@.len() + c] == final(rest)@[c],
        decreases rest@.len(),
    {
        let ghost whole = final(rest)@;
        let (head, tail) = rest.split_at_mut(1);
        let ghost first = final(head)@;
        let ghost others = final(tail)@;
        match head.first_mut() {
            Some(buffer) => {
                spans.push(buffer.as_mut_slice());
            },
            None => {},
        }
        assert(whole[0] == first[0]);
        assert(forall|c: int| 0 <= c < others.len() ==> whole[1 + c] == others[c]);
        rest = tail;
    }
    spans
}

/// Whether the buffers have the given shape, as a read over them needs.
pub fn conforms<T>(buffers: &Vec<Vec<T>>, shape: ScatterShape) -> (b: bool)
    ensures
        b == has_shape(buffers@, shape),
{
    if buffers.len() != shape.spans {
        return false;
    }
    let mut c: usize = 0;
    while c < buffers.len()
        invariant
            c <= buffers@.len(),
            forall|k: int| 0 <= k < c ==> (#[trigger] buffers@[k])@.len() == shape.span_len,
        decreases buffers@.len() - c,
    {
        if buffers[c].len() != shape.span_len {
            return false;
        }
        c += 1;
    }
    true
}

} // verus!
