use crate::driver::lookup_addr;
use crate::symbols::video_decode_queue_symbols;
use crate::symbols::video_encode_queue_symbols;
use crate::symbols::video_queue_symbols;
use vstd::prelude::*;

verus! {

/// The required symbols of the video-session management family are pairwise
/// distinct: they are the consecutive identifiers starting at one.
proof fn lemma_video_queue_symbol_values()
    ensures
        video_queue_symbols().len() == 12,
        forall|i: int| 0 <= i < 12 ==> #[trigger] video_queue_symbols()[i] == i + 1,
{
    assert forall|i: int| 0 <= i < 12 implies #[trigger] video_queue_symbols()[i] == i + 1 by {
        if i == 0 {
            assert(video_queue_symbols()[0] == 1);
        } else if i == 1 {
            assert(video_queue_symbols()[1] == 2);
        } else if i == 2 {
            assert(video_queue_symbols()[2] == 3);
        } else if i == 3 {
            assert(video_queue_symbols()[3] == 4);
        } else if i == 4 {
            assert(video_queue_symbols()[4] == 5);
        } else if i == 5 {
            assert(video_queue_symbols()[5] == 6);
        } else if i == 6 {
            assert(video_queue_symbols()[6] == 7);
        } else if i == 7 {
            assert(video_queue_symbols()[7] == 8);
        } else if i == 8 {
            assert(video_queue_symbols()[8] == 9);
        } else if i == 9 {
            assert(video_queue_symbols()[9] == 10);
        } else if i == 10 {
            assert(video_queue_symbols()[10] == 11);
        } else {
            assert(video_queue_symbols()[11] == 12);
        }
    }
}

/// Law: appending a duplicate-free symbol list to a resolution log resolves
/// each listed symbol exactly once.  The new log holds exactly one entry per
/// listed symbol, in the listed order, and no symbol twice — and this holds
/// for any prior log, so it holds however many proxies were constructed from
/// the same context before.
pub proof fn lemma_segment_resolved_once(pre: Seq<u64>, post: Seq<u64>, syms: Seq<u64>)
    requires
        post == pre + syms,
        forall|i: int, j: int| 0 <= i < j < syms.len() ==> syms[i] != syms[j],
    ensures
        post.len() == pre.len() + syms.len(),
        forall|i: int| 0 <= i < syms.len() ==> post[pre.len() + i] == syms[i],
        forall|i: int, j: int| pre.len() <= i < j < post.len() ==> post[i] != post[j],
{
    assert forall|i: int, j: int| pre.len() <= i < j < post.len() implies post[i] != post[j] by {
        assert(post[i] == syms[i - pre.len()]);
        assert(post[j] == syms[j - pre.len()]);
    }
}

/// Law: constructing a video-session management proxy calls the loader
/// exactly once per required symbol, in the family's fixed order.  `pre` and
/// `post` are the context's resolution logs before and after one
/// construction, related as the constructor's contract states.
pub proof fn lemma_video_queue_loader_once(pre: Seq<u64>, post: Seq<u64>)
    requires
        post == pre + video_queue_symbols(),
    ensures
        post.len() == pre.len() + video_queue_symbols().len(),
        forall|i: int|
            0 <= i < video_queue_symbols().len() ==> post[pre.len() + i]
                == video_queue_symbols()[i],
        forall|i: int, j: int| pre.len() <= i < j < post.len() ==> post[i] != post[j],
{
    lemma_video_queue_symbol_values();
    lemma_segment_resolved_once(pre, post, video_queue_symbols());
}

/// Law: constructing a decode proxy calls the loader exactly once per
/// required symbol, in order.
pub proof fn lemma_video_decode_queue_loader_once(pre: Seq<u64>, post: Seq<u64>)
    requires
        post == pre + video_decode_queue_symbols(),
    ensures
        post.len() == pre.len() + video_decode_queue_symbols().len(),
        forall|i: int|
            0 <= i < video_decode_queue_symbols().len() ==> post[pre.len() + i]
                == video_decode_queue_symbols()[i],
        forall|i: int, j: int| pre.len() <= i < j < post.len() ==> post[i] != post[j],
{
    lemma_segment_resolved_once(pre, post, video_decode_queue_symbols());
}

/// Law: constructing an encode proxy calls the loader exactly once per
/// required symbol, in order.
pub proof fn lemma_video_encode_queue_loader_once(pre: Seq<u64>, post: Seq<u64>)
    requires
        post == pre + video_encode_queue_symbols(),
    ensures
        post.len() == pre.len() + video_encode_queue_symbols().len(),
        forall|i: int|
            0 <= i < video_encode_queue_symbols().len() ==> post[pre.len() + i]
                == video_encode_queue_symbols()[i],
        forall|i: int, j: int| pre.len() <= i < j < post.len() ==> post[i] != post[j],
{
    lemma_segment_resolved_once(pre, post, video_encode_queue_symbols());
}

/// Law: two function tables loaded from the same export set over the same
/// symbol list are equal as values.  Each proxy owns its table outright, so
/// the proxies agree slot for slot yet stay value-independent: dropping or
/// mutating one cannot change what the other dispatches to.
pub proof fn lemma_tables_from_same_context_equal(
    exports: Seq<(u64, u64)>,
    syms: Seq<u64>,
    t1: Seq<u64>,
    t2: Seq<u64>,
)
    requires
        t1.len() == syms.len(),
        t2.len() == syms.len(),
        forall|i: int| 0 <= i < syms.len() ==> #[trigger] t1[i] == lookup_addr(exports, syms[i]),
        forall|i: int| 0 <= i < syms.len() ==> #[trigger] t2[i] == lookup_addr(exports, syms[i]),
    ensures
        t1 == t2,
{
    assert(t1 =~= t2);
}

} // verus!
