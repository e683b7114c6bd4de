use vstd::prelude::*;

verus! {

/// Channels of every block: left and right.
pub const CHANNEL: usize = 2;

/// Blocks in the ring that the decoder fills and the renderer empties.
pub const NUM_OF_BLOCK: usize = 16;

/// Blocks that the decoder keeps free behind the renderer after a seek.
pub const BACK_ROOM: usize = 4;

/// Frames in the ring of the visual effect.
pub const NUM_OF_BLOCK_VE: usize = 180;

/// The block after `i` in the ring of `NUM_OF_BLOCK` blocks.
pub open spec fn spec_next_block(i: nat) -> nat {
    if i == NUM_OF_BLOCK - 1 {
        0
    } else {
        i + 1
    }
}

/// The block after `i`: the last block is followed by the first.
pub fn next_block(i: usize) -> (r: usize)
    requires
        i < usize::MAX,
    ensures
        r == spec_next_block(i as nat),
{
    if i == NUM_OF_BLOCK - 1 {
        0
    } else {
        i + 1
    }
}

/// Within the ring, the next block is the one after modulo the ring's size.
pub proof fn lemma_next_block_wraps(i: nat)
    requires
        i < NUM_OF_BLOCK,
    ensures
        spec_next_block(i) == (i + 1) % (NUM_OF_BLOCK as nat),
        spec_next_block(i) < NUM_OF_BLOCK,
{
}

/// The visual effect's read position after one more frame: it starts at the first frame and
/// wraps around after the last.
pub open spec fn spec_ve_next_frame(cur: Option<usize>) -> Option<usize> {
    match cur {
        None => Some(0),
        Some(x) => if x == NUM_OF_BLOCK_VE - 1 {
            Some(0)
        } else {
            Some((x + 1) as usize)
        },
    }
}

/// Advances the visual effect's read position by one frame.
pub fn ve_sync(ve_read_exclusive: &mut Option<usize>)
    requires
        *old(ve_read_exclusive) != Some(usize::MAX),
    ensures
        *final(ve_read_exclusive) == spec_ve_next_frame(*old(ve_read_exclusive)),
{
    *ve_read_exclusive = match *ve_read_exclusive {
        None => Some(0),
        Some(x) => if x == NUM_OF_BLOCK_VE - 1 {
            Some(0)
        } else {
            Some(x + 1)
        },
    };
}

/// The frame after `i` in the ring of the visual effect: the last is followed by the first.
pub fn next_ve_frame(i: usize) -> (r: usize)
    requires
        i < NUM_OF_BLOCK_VE,
    ensures
        r == (i + 1) % (NUM_OF_BLOCK_VE as int),
{
    if i == NUM_OF_BLOCK_VE - 1 {
        0
    } else {
        i + 1
    }
}

/// A read position within the ring of the visual effect stays within the ring.
pub proof fn lemma_ve_next_frame_in_ring(cur: Option<usize>)
    requires
        cur matches Some(x) ==> x < NUM_OF_BLOCK_VE,
    ensures
        spec_ve_next_frame(cur) matches Some(y) && y < NUM_OF_BLOCK_VE,
{
}

/// `dst` with `count` items of `src` from `src_start` written at `dst_start`.
pub open spec fn spec_overwrite<T>(
    dst: Seq<T>,
    dst_start: int,
    src: Seq<T>,
    src_start: int,
    count: int,
) -> Seq<T> {
    dst.take(dst_start) + src.subrange(src_start, src_start + count) + dst.skip(dst_start + count)
}

/// Writes `count` items of `src`, from `src_start`, into `dst` at `dst_start`.
pub fn copy_range<T: Copy>(
    dst: &mut Vec<T>,
    dst_start: usize,
    src: &[T],
    src_start: usize,
    count: usize,
)
    requires
        dst_start + count <= old(dst)@.len(),
        src_start + count <= src@.len(),
    ensures
        final(dst)@ == spec_overwrite(
            old(dst)@,
            dst_start as int,
            src@,
            src_start as int,
            count as int,
        ),
{
    let ghost orig = dst@;
    let _dst_len = dst.len();
    let _src_len = src.len();
    let mut k: usize = 0;
    while k < count
        invariant
            k <= count,
            _dst_len == orig.len(),
            _src_len == src@.len(),
            dst_start + count <= orig.len(),
            src_start + count <= src@.len(),
            dst@.len() == orig.len(),
            forall|i: int| 0 <= i < dst_start ==> #[trigger] dst@[i] == orig[i],
            forall|i: int|
                dst_start <= i < dst_start + k ==> #[trigger] dst@[i] == src@[src_start + (i
                    - dst_start)],
            forall|i: int| dst_start + k <= i < orig.len() ==> #[trigger] dst@[i] == orig[i],
        decreases count - k,
    {
        let v = src[src_start + k];
        dst.set(dst_start + k, v);
        k = k + 1;
    }
    assert(dst@ =~= spec_overwrite(orig, dst_start as int, src@, src_start as int, count as int));
}

/// Writes decoded frames `view` into the block being filled from position `head`. Where they fit
/// with room to spare, all are written and `None` comes back; otherwise the block is filled to its
/// end and the number of frames of `view` that went in comes back, the rest belonging to the next
/// block.
pub fn write_block<T: Copy>(block: &mut Vec<T>, head: usize, view: &[T]) -> (split: Option<usize>)
    requires
        head <= old(block)@.len(),
    ensures
        head + view@.len() < old(block)@.len() ==> split is None && final(block)@ == spec_overwrite(
            old(block)@,
            head as int,
            view@,
            0,
            view@.len() as int,
        ),
        head + view@.len() >= old(block)@.len() ==> split == Some((old(block)@.len() - head) as usize)
            && final(block)@ == spec_overwrite(
            old(block)@,
            head as int,
            view@,
            0,
            old(block)@.len() - head,
        ),
{
    let len = block.len();
    if view.len() < len - head {
        copy_range(block, head, view, 0, view.len());
        None
    } else {
        let first = len - head;
        copy_range(block, head, view, 0, first);
        Some(first)
    }
}

/// Writes the frames of `view` from `from` on at the start of the next block.
pub fn write_spill<T: Copy>(block: &mut Vec<T>, view: &[T], from: usize)
    requires
        from <= view@.len(),
        view@.len() - from <= old(block)@.len(),
    ensures
        final(block)@ == spec_overwrite(
            old(block)@,
            0,
            view@,
            from as int,
            view@.len() - from,
        ),
{
    copy_range(block, 0, view, from, view.len() - from);
}

/// Where the decoder writes: the block and the position within it.
#[derive(Clone, Copy, Debug, PartialEq, Eq, Structural)]
pub struct WriteCursor {
    pub write_exclusive: usize,
    pub head: usize,
}

/// The cursor after `n` more frames, with blocks of `block_len` frames.
pub open spec fn spec_write_step(c: WriteCursor, n: nat, block_len: nat) -> WriteCursor {
    if c.head + n < block_len {
        WriteCursor { write_exclusive: c.write_exclusive, head: (c.head + n) as usize }
    } else {
        WriteCursor {
            write_exclusive: spec_next_block(c.write_exclusive as nat) as usize,
            head: (c.head + n - block_len) as usize,
        }
    }
}

/// Moves the decoder's cursor past `n` frames written, to the next block where the current one
/// is full; says whether a block was completed.
pub fn write_step(c: WriteCursor, n: usize, block_len: usize) -> (r: (WriteCursor, bool))
    requires
        c.write_exclusive < NUM_OF_BLOCK,
        c.head <= block_len,
        n <= 2 * block_len - c.head,
        block_len <= usize::MAX / 2,
    ensures
        r.0 == spec_write_step(c, n as nat, block_len as nat),
        r.1 == (c.head + n >= block_len),
{
    if n < block_len - c.head {
        (WriteCursor { write_exclusive: c.write_exclusive, head: c.head + n }, false)
    } else {
        (
            WriteCursor {
                write_exclusive: next_block(c.write_exclusive),
                head: n - (block_len - c.head),
            },
            true,
        )
    }
}

/// A position in the ring counted in frames from the start of the first block.
pub open spec fn ring_pos(block: nat, head: nat, block_len: nat) -> int {
    (block * block_len + head) as int
}

/// The decoder's position moves forward by exactly the frames it wrote, around the ring.
pub proof fn lemma_write_step_advances(c: WriteCursor, n: nat, block_len: nat)
    requires
        c.write_exclusive < NUM_OF_BLOCK,
        c.head <= block_len,
        n <= 2 * block_len - c.head,
        block_len > 0,
        block_len <= usize::MAX / 2,
    ensures
        ({
            let d = spec_write_step(c, n, block_len);
            let total = NUM_OF_BLOCK as int * block_len as int;
            &&& d.write_exclusive < NUM_OF_BLOCK
            &&& d.head <= block_len
            &&& ring_pos(d.write_exclusive as nat, d.head as nat, block_len) % total == (ring_pos(
                c.write_exclusive as nat,
                c.head as nat,
                block_len,
            ) + n) % total
        }),
{
    let d = spec_write_step(c, n, block_len);
    let l = block_len as int;
    let w = c.write_exclusive as int;
    let h = c.head as int;
    let m = n as int;
    let total = NUM_OF_BLOCK as int * l;
    let p0 = ring_pos(c.write_exclusive as nat, c.head as nat, block_len);
    let p1 = ring_pos(d.write_exclusive as nat, d.head as nat, block_len);
    assert(p0 == w * l + h);
    if h + m < l {
        assert(d.write_exclusive == c.write_exclusive);
        assert(d.head as int == h + m);
        assert(p1 == w * l + (h + m));
    } else {
        assert(d.head as int == h + m - l);
        if w == NUM_OF_BLOCK - 1 {
            assert(d.write_exclusive == 0);
            let dh = d.head as int;
            assert(p1 == 0 * l + dh);
            assert(p1 == dh) by (nonlinear_arith)
                requires
                    p1 == 0 * l + dh,
            ;
            assert(p0 + m == total + p1) by (nonlinear_arith)
                requires
                    w == 15,
                    total == 16 * l,
                    p0 == w * l + h,
                    p1 == h + m - l,
            ;
            vstd::arithmetic::div_mod::lemma_mod_add_multiples_vanish(p1, total);
        } else {
            assert(d.write_exclusive as int == w + 1);
            let dw = d.write_exclusive as int;
            let dh = d.head as int;
            assert(p1 == dw * l + dh);
            assert(p1 == (w + 1) * l + (h + m - l)) by (nonlinear_arith)
                requires
                    p1 == dw * l + dh,
                    dw == w + 1,
                    dh == h + m - l,
            ;
            assert(p1 == p0 + m) by (nonlinear_arith)
                requires
                    p1 == (w + 1) * l + (h + m - l),
                    p0 == w * l + h,
            ;
        }
    }
}

/// Where frame `k` of the stream, counted from the start or from the last seek's landing point,
/// lies in the ring of blocks of `block_len` frames: block `(k / block_len) % NUM_OF_BLOCK`,
/// position `k % block_len`.
pub open spec fn spec_frame_place(k: nat, block_len: nat) -> WriteCursor {
    WriteCursor {
        write_exclusive: ((k / block_len) % (NUM_OF_BLOCK as nat)) as usize,
        head: (k % block_len) as usize,
    }
}

/// The frames of packets of sizes `ns`, in all.
pub open spec fn spec_total(ns: Seq<nat>) -> nat
    decreases ns.len(),
{
    if ns.len() == 0 {
        0
    } else {
        spec_total(ns.drop_last()) + ns.last()
    }
}

/// The decoder's cursor after writing packets of sizes `ns`, in order, from `c`.
pub open spec fn spec_write_all(c: WriteCursor, ns: Seq<nat>, block_len: nat) -> WriteCursor
    decreases ns.len(),
{
    if ns.len() == 0 {
        c
    } else {
        spec_write_step(spec_write_all(c, ns.drop_last(), block_len), ns.last(), block_len)
    }
}

/// From the place of frame `k`, a step of `m` frames, at most a block, reaches the place of frame
/// `k + m`. So the frames of a packet written at the place of frame `k` land where they belong:
/// the `j`-th at `spec_write_step(place, j)`, which `write_block` fills up to the block's end and
/// `write_spill` from the start of the next block, is the place of frame `k + j`.
pub proof fn lemma_write_step_places(k: nat, m: nat, block_len: nat)
    requires
        0 < block_len <= usize::MAX / 2,
        m <= block_len,
    ensures
        spec_write_step(spec_frame_place(k, block_len), m, block_len) == spec_frame_place(
            k + m,
            block_len,
        ),
{
    let l = block_len as int;
    let q = k as int / l;
    let h = k as int % l;
    vstd::arithmetic::div_mod::lemma_fundamental_div_mod(k as int, l);
    assert(k as int == q * l + h) by (nonlinear_arith)
        requires
            k as int == l * (k as int / l) + k as int % l,
            q == k as int / l,
            h == k as int % l,
    ;
    let c = spec_frame_place(k, block_len);
    assert(c.head == h);
    let w = q % 16;
    vstd::arithmetic::div_mod::lemma_fundamental_div_mod(q, 16);
    assert(c.write_exclusive == w);
    if h + m < l {
        assert((k + m) as int == q * l + (h + m));
        vstd::arithmetic::div_mod::lemma_fundamental_div_mod_converse((k + m) as int, l, q, h + m);
    } else {
        assert((k + m) as int == (q + 1) * l + (h + m - l)) by (nonlinear_arith)
            requires
                k as int == q * l + h,
        ;
        vstd::arithmetic::div_mod::lemma_fundamental_div_mod_converse(
            (k + m) as int,
            l,
            q + 1,
            h + m - l,
        );
        let t = q / 16;
        assert(q == t * 16 + w) by (nonlinear_arith)
            requires
                q == 16 * (q / 16) + q % 16,
                t == q / 16,
                w == q % 16,
        ;
        if w == 15 {
            vstd::arithmetic::div_mod::lemma_fundamental_div_mod_converse(q + 1, 16, t + 1, 0);
        } else {
            vstd::arithmetic::div_mod::lemma_fundamental_div_mod_converse(q + 1, 16, t, w + 1);
        }
    }
}

/// Frame `k` of the stream is stored at block `(k / block_len) % NUM_OF_BLOCK`, position
/// `k % block_len`: writing packets of at most a block each from the start of the ring leaves the
/// decoder's cursor at the place of the next frame, the frames written in all.
pub proof fn lemma_frames_placed(ns: Seq<nat>, block_len: nat)
    requires
        0 < block_len <= usize::MAX / 2,
        forall|i: int| 0 <= i < ns.len() ==> #[trigger] ns[i] <= block_len,
    ensures
        spec_write_all(WriteCursor { write_exclusive: 0, head: 0 }, ns, block_len)
            == spec_frame_place(spec_total(ns), block_len),
    decreases ns.len(),
{
    if ns.len() == 0 {
        assert(0nat / block_len == 0) by (nonlinear_arith)
            requires
                block_len > 0,
        ;
        assert(0nat % block_len == 0) by (nonlinear_arith)
            requires
                block_len > 0,
        ;
    } else {
        let rest = ns.drop_last();
        assert forall|i: int| 0 <= i < rest.len() implies #[trigger] rest[i] <= block_len by {
            assert(rest[i] == ns[i]);
        }
        lemma_frames_placed(rest, block_len);
        assert(ns.last() == ns[ns.len() - 1]);
        lemma_write_step_places(spec_total(rest), ns.last(), block_len);
    }
}

/// Where the stream ended: the block holding its last frames, and how many it holds.
#[derive(Clone, Copy, Debug, PartialEq, Eq, Structural)]
pub struct EndOfStreamBlock {
    pub block_idx: usize,
    pub filled_len: usize,
}

/// One pass of the renderer: how many frames go to the device, how many of them come from the
/// current block and how many from the next, and where reading goes on.
#[derive(Clone, Copy, Debug, PartialEq, Eq, Structural)]
pub struct RenderPlan {
    pub available: usize,
    pub first_len: usize,
    pub second_len: usize,
    pub new_read: usize,
    pub new_head: usize,
    /// Whether the current block was finished and handed back to the decoder.
    pub block_done: bool,
}

/// Frames to hand to the device: what it can take, at most a block, and never past the end of
/// the stream.
pub open spec fn spec_render_available(
    read: usize,
    head: usize,
    os_available: usize,
    block_len: usize,
    eos: Option<EndOfStreamBlock>,
) -> nat {
    let a = if os_available < block_len {
        os_available
    } else {
        block_len
    };
    match eos {
        Some(e) => if e.block_idx == read && e.filled_len - head < a {
            (e.filled_len - head) as nat
        } else {
            a as nat
        },
        None => a as nat,
    }
}

/// Plans one pass of the renderer, which reads block `read` from `head`, the device having room
/// for `os_available` frames. `None` means that nothing is left to play.
pub fn render_plan(
    read: usize,
    head: usize,
    os_available: usize,
    block_len: usize,
    eos: Option<EndOfStreamBlock>,
) -> (r: Option<RenderPlan>)
    requires
        read < NUM_OF_BLOCK,
        head < block_len || (eos matches Some(e) && e.block_idx == read && e.filled_len == head),
        head <= block_len,
        block_len <= usize::MAX / 2,
        eos matches Some(e) ==> (e.block_idx == read ==> head <= e.filled_len),
    ensures
        ({
            let a = spec_render_available(read, head, os_available, block_len, eos);
            let at_end = eos matches Some(e) && e.block_idx == read;
            let total = NUM_OF_BLOCK as int * block_len as int;
            &&& a <= os_available
            &&& a <= block_len
            &&& at_end ==> head + a <= eos->0.filled_len
            &&& (r is None <==> a == 0)
            &&& r matches Some(p) ==> {
                &&& p.available == a
                &&& p.first_len == (if head + a <= block_len {
                    a
                } else {
                    (block_len - head) as nat
                })
                &&& p.first_len + p.second_len == a
                &&& p.second_len < block_len
                &&& p.block_done == (head + a >= block_len && !(at_end && head + a == block_len))
                &&& p.new_read < NUM_OF_BLOCK
                &&& if at_end && head + a == block_len {
                    p.new_read == read && p.new_head == eos->0.filled_len
                } else {
                    &&& p.new_head < block_len
                    &&& ring_pos(p.new_read as nat, p.new_head as nat, block_len as nat) % total
                        == (ring_pos(read as nat, head as nat, block_len as nat) + a) % total
                }
            }
        }),
{
    let mut available = if os_available < block_len {
        os_available
    } else {
        block_len
    };
    match eos {
        Some(e) => {
            if e.block_idx == read && e.filled_len - head < available {
                available = e.filled_len - head;
            }
        },
        None => {},
    }
    if available == 0 {
        return None;
    }
    let target = head + available;
    proof {
        lemma_write_step_advances(
            WriteCursor { write_exclusive: read, head },
            available as nat,
            block_len as nat,
        );
    }
    if target < block_len {
        Some(
            RenderPlan {
                available,
                first_len: available,
                second_len: 0,
                new_read: read,
                new_head: target,
                block_done: false,
            },
        )
    } else if target == block_len {
        match eos {
            Some(e) if e.block_idx == read => Some(
                RenderPlan {
                    available,
                    first_len: available,
                    second_len: 0,
                    new_read: read,
                    new_head: e.filled_len,
                    block_done: false,
                },
            ),
            _ => Some(
                RenderPlan {
                    available,
                    first_len: available,
                    second_len: 0,
                    new_read: next_block(read),
                    new_head: 0,
                    block_done: true,
                },
            ),
        }
    } else {
        Some(
            RenderPlan {
                available,
                first_len: block_len - head,
                second_len: target - block_len,
                new_read: next_block(read),
                new_head: target - block_len,
                block_done: true,
            },
        )
    }
}

/// Whether the renderer has played everything up to the end of the stream.
pub open spec fn spec_render_finished(read: usize, head: usize, eos: Option<EndOfStreamBlock>) -> bool {
    eos matches Some(e) && e.block_idx == read && head >= e.filled_len
}

/// Whether the renderer has played everything up to the end of the stream.
pub fn render_finished(read: usize, head: usize, eos: Option<EndOfStreamBlock>) -> (r: bool)
    ensures
        r == spec_render_finished(read, head, eos),
{
    match eos {
        Some(e) => e.block_idx == read && head >= e.filled_len,
        None => false,
    }
}

} // verus!
