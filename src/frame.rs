//! Moving frame bytes between mapped buffers and buffers of the caller's own.
use vstd::prelude::*;
use crate::error::PipelineError;

verus! {

/// Copies the first `length` bytes of `src` over the start of `dst`; the rest
/// of `dst` is left as it was.
pub fn copy_frame(src: &[u8], dst: &mut [u8], length: usize)
    requires
        length <= src@.len(),
        length <= old(dst)@.len(),
    ensures
        final(dst)@.len() == old(dst)@.len(),
        final(dst)@.subrange(0, length as int) == src@.subrange(0, length as int),
        final(dst)@.subrange(length as int, final(dst)@.len() as int) == old(dst)@.subrange(
            length as int,
            old(dst)@.len() as int,
        ),
{
    let mut i: usize = 0;
    while i < length
        invariant
            length <= src@.len(),
            length <= dst@.len(),
            dst@.len() == old(dst)@.len(),
            i <= length,
            forall|j: int| 0 <= j < i ==> #[trigger] dst@[j] == src@[j],
            forall|j: int| length <= j < dst@.len() ==> #[trigger] dst@[j] == old(dst)@[j],
        decreases length - i,
    {
        dst[i] = src[i];
        i = i + 1;
    }
    assert(dst@.subrange(0, length as int) =~= src@.subrange(0, length as int));
    assert(dst@.subrange(length as int, dst@.len() as int) =~= old(dst)@.subrange(
        length as int,
        old(dst)@.len() as int,
    ));
}

/// Copies a captured frame of `used` bytes into an encoder input buffer.
/// Fails with `FrameTooLarge`, and copies nothing, where the frame does not
/// fit: a frame is never cut short.
pub fn copy_captured(src: &[u8], used: usize, dst: &mut [u8]) -> (r: Result<usize, PipelineError>)
    requires
        used <= src@.len(),
    ensures
        final(dst)@.len() == old(dst)@.len(),
        used <= old(dst)@.len() ==> r == Ok::<usize, PipelineError>(used),
        used <= old(dst)@.len() ==> final(dst)@.subrange(0, used as int) == src@.subrange(
            0,
            used as int,
        ),
        used <= old(dst)@.len() ==> final(dst)@.subrange(used as int, final(dst)@.len() as int)
            == old(dst)@.subrange(used as int, old(dst)@.len() as int),
        used > old(dst)@.len() ==> r == Err::<usize, PipelineError>(PipelineError::FrameTooLarge)
            && final(dst)@ == old(dst)@,
{
    if used > dst.len() {
        return Err(PipelineError::FrameTooLarge);
    }
    copy_frame(src, dst, used);
    Ok(used)
}

/// The first `length` bytes of `src`, as a buffer of the caller's own, so that
/// the mapped slot can be handed back.
pub fn take_output(src: &[u8], length: usize) -> (r: Vec<u8>)
    requires
        length <= src@.len(),
    ensures
        r@ == src@.subrange(0, length as int),
{
    let mut out: Vec<u8> = Vec::with_capacity(length);
    let mut i: usize = 0;
    while i < length
        invariant
            length <= src@.len(),
            i <= length,
            out@ == src@.subrange(0, i as int),
        decreases length - i,
    {
        out.push(src[i]);
        assert(src@.subrange(0, i as int).push(src@[i as int]) =~= src@.subrange(0, i + 1));
        i = i + 1;
    }
    out
}

/// A device is usable where it has the kind of capability the pipeline needs
/// of it (video capture for a camera, memory-to-memory for an encoder) and
/// supports streaming I/O; otherwise it fails with `Capability`.
pub fn require_capabilities(has_kind: bool, has_streaming: bool) -> (r: Result<(), PipelineError>)
    ensures
        r is Ok <==> has_kind && has_streaming,
        r is Err ==> r == Err::<(), PipelineError>(PipelineError::Capability),
{
    if has_kind && has_streaming {
        Ok(())
    } else {
        Err(PipelineError::Capability)
    }
}

/// A four-character code from its text form: exactly four bytes.
pub fn parse_fourcc(text: &[u8]) -> (r: Option<[u8; 4]>)
    ensures
        r is Some <==> text@.len() == 4,
        r is Some ==> r.unwrap()@ == text@,
{
    if text.len() == 4 {
        let code: [u8; 4] = [text[0], text[1], text[2], text[3]];
        assert(code@ =~= text@);
        Some(code)
    } else {
        None
    }
}

} // verus!
