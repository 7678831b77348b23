//! The monochrome display: a packed, row-major buffer of 64 x 32 pixels,
//! eight pixels per byte, drawn to by XOR.
//!
//! Coordinates wrap: a drawing or a read at `(row, col)` starts at byte column
//! `col % 8` of pixel row `row % 32`, and a run of bytes continues through the
//! row-major buffer, from the last byte back to the first.
use vstd::arithmetic::div_mod::{lemma_mod_add_multiples_vanish, lemma_mod_sub_multiples_vanish, lemma_small_mod, lemma_fundamental_div_mod, lemma_mod_multiples_vanish};
use vstd::prelude::*;

verus! {

/// Display width in pixels.
pub const GRAPHICS_WIDTH: usize = 64;

/// Display height in pixels.
pub const GRAPHICS_HEIGHT: usize = 32;

/// Size of the buffer in bytes.
pub const GRAPHICS_VBUFFER: usize = (GRAPHICS_WIDTH * GRAPHICS_HEIGHT) / 8;

/// Bytes in one pixel row.
pub const ROW_BYTES: usize = GRAPHICS_WIDTH / 8;

/// Buffer index of the byte at `(row, col)`, `col` counted in bytes, after
/// wrapping both coordinates.
pub open spec fn cell_index(row: int, col: int) -> int {
    (row % (GRAPHICS_HEIGHT as int)) * (ROW_BYTES as int) + col % (ROW_BYTES as int)
}

/// Buffer index of the `i`-th byte of a run that starts at index `start`.
pub open spec fn run_index(start: int, i: int) -> int {
    (start + i) % (GRAPHICS_VBUFFER as int)
}

/// Position within a run that starts at `start` of buffer index `j`.
pub open spec fn run_offset(start: int, j: int) -> int {
    (j - start) % (GRAPHICS_VBUFFER as int)
}

/// The buffer `buf` after `sprite` is XORed into it as a run starting at `start`.
pub open spec fn drawn(buf: Seq<u8>, start: int, sprite: Seq<u8>) -> Seq<u8> {
    Seq::new(
        buf.len(),
        |j: int|
            if run_offset(start, j) < sprite.len() {
                buf[j] ^ sprite[run_offset(start, j)]
            } else {
                buf[j]
            },
    )
}

/// Whether drawing `sprite` as a run starting at `start` turns a lit pixel of
/// `buf` off.
pub open spec fn collides(buf: Seq<u8>, start: int, sprite: Seq<u8>) -> bool {
    exists|i: int| 0 <= i < sprite.len() && #[trigger] (buf[run_index(start, i)] & sprite[i]) != 0
}

/// `x % GRAPHICS_VBUFFER` for `x` within one buffer length of the buffer.
proof fn lemma_wrap(x: int)
    requires
        -(GRAPHICS_VBUFFER as int) <= x < 2 * GRAPHICS_VBUFFER,
    ensures
        x % (GRAPHICS_VBUFFER as int) == if x < 0 {
            x + GRAPHICS_VBUFFER
        } else if x < GRAPHICS_VBUFFER {
            x
        } else {
            x - GRAPHICS_VBUFFER
        },
{
    let m = GRAPHICS_VBUFFER as int;
    if x < 0 {
        lemma_mod_add_multiples_vanish(x, m);
        lemma_small_mod((x + m) as nat, m as nat);
    } else if x < m {
        lemma_small_mod(x as nat, m as nat);
    } else {
        lemma_mod_sub_multiples_vanish(x, m);
        lemma_small_mod((x - m) as nat, m as nat);
    }
}

proof fn lemma_run_offset(start: int, i: int)
    requires
        0 <= start < GRAPHICS_VBUFFER,
        0 <= i < GRAPHICS_VBUFFER,
    ensures
        0 <= run_index(start, i) < GRAPHICS_VBUFFER,
        run_offset(start, run_index(start, i)) == i,
{
    lemma_wrap(start + i);
    lemma_wrap(run_index(start, i) - start);
}

proof fn lemma_run_offset_range(start: int, j: int)
    requires
        0 <= start < GRAPHICS_VBUFFER,
        0 <= j < GRAPHICS_VBUFFER,
    ensures
        0 <= run_offset(start, j) < GRAPHICS_VBUFFER,
        run_index(start, run_offset(start, j)) == j,
{
    lemma_wrap(j - start);
    lemma_wrap(start + run_offset(start, j));
}

/// Drawing a sprite twice at the same place, with nothing drawn in between,
/// gives back the buffer as it was.
pub proof fn lemma_draw_twice_restores(buf: Seq<u8>, row: usize, col: usize, sprite: Seq<u8>)
    requires
        buf.len() == GRAPHICS_VBUFFER,
        sprite.len() <= GRAPHICS_VBUFFER,
    ensures
        drawn(drawn(buf, cell_index(row as int, col as int), sprite), cell_index(row as int, col as int), sprite)
            == buf,
{
    let start = cell_index(row as int, col as int);
    let once = drawn(buf, start, sprite);
    let twice = drawn(once, start, sprite);
    assert forall|j: int| 0 <= j < buf.len() implies #[trigger] twice[j] == buf[j] by {
        let k = run_offset(start, j);
        if k < sprite.len() {
            let (p, b) = (buf[j], sprite[k]);
            assert((p ^ b) ^ b == p) by (bit_vector);
        }
    }
    assert(twice =~= buf);
}

/// Drawing a one-byte sprite `b` a second time at the same place reports a
/// collision exactly when `b` is not zero. The inputs on which that fails are
/// left out: a non-zero `b` whose bits were all lit before the first drawing.
pub proof fn lemma_second_draw_collision(buf: Seq<u8>, row: usize, col: usize, b: u8)
    requires
        buf.len() == GRAPHICS_VBUFFER,
        b == 0 || buf[cell_index(row as int, col as int)] & b != b,
    ensures
        collides(drawn(buf, cell_index(row as int, col as int), seq![b]), cell_index(row as int, col as int), seq![b])
            <==> b != 0,
{
    let start = cell_index(row as int, col as int);
    let once = drawn(buf, start, seq![b]);
    lemma_run_offset(start, 0);
    lemma_wrap(start);
    lemma_wrap(0);
    let p = buf[start];
    assert(once[run_index(start, 0)] == p ^ b);
    assert(((p ^ b) & b != 0) <==> (b != 0)) by (bit_vector)
        requires
            b == 0 || p & b != b,
    ;
    if b != 0 {
        assert(once[run_index(start, 0)] & seq![b][0] != 0);
    }
}

/// After the buffer is cleared, every read of it gives zeros, whatever was
/// drawn before, and the next drawing reports no collision.
pub proof fn lemma_cleared_reads_zero(row: usize, col: usize, i: int, sprite: Seq<u8>)
    requires
        0 <= i,
    ensures
        blank()[run_index(cell_index(row as int, col as int), i)] == 0,
        !collides(blank(), cell_index(row as int, col as int), sprite),
{
    assert forall|k: int| 0 <= k < sprite.len() implies #[trigger] (blank()[run_index(
        cell_index(row as int, col as int),
        k,
    )] & sprite[k]) == 0 by {
        let b = sprite[k];
        assert(0u8 & b == 0) by (bit_vector);
    }
}

/// The packed display buffer.
#[derive(Debug)]
pub struct Graphics {
    vbuffer: Vec<u8>,
}

impl View for Graphics {
    type V = Seq<u8>;

    closed spec fn view(&self) -> Seq<u8> {
        self.vbuffer@
    }
}

/// `GRAPHICS_VBUFFER` zero bytes.
pub open spec fn blank() -> Seq<u8> {
    Seq::new(GRAPHICS_VBUFFER as nat, |i: int| 0u8)
}

fn zeroed_buffer() -> (r: Vec<u8>)
    ensures
        r@ == blank(),
{
    let mut r: Vec<u8> = Vec::new();
    let mut i: usize = 0;
    while i < GRAPHICS_VBUFFER
        invariant
            i <= GRAPHICS_VBUFFER,
            r@ == Seq::new(i as nat, |j: int| 0u8),
        decreases GRAPHICS_VBUFFER - i,
    {
        r.push(0);
        i = i + 1;
    }
    r
}

impl Graphics {
    /// The buffer holds exactly `GRAPHICS_VBUFFER` bytes.
    pub open spec fn wf(&self) -> bool {
        self@.len() == GRAPHICS_VBUFFER
    }

    /// A display with every pixel off.
    pub fn new() -> (r: Self)
        ensures
            r.wf(),
            r@ == blank(),
    {
        Graphics { vbuffer: zeroed_buffer() }
    }

    /// Turns every pixel off.
    pub fn clear(&mut self)
        ensures
            final(self).wf(),
            final(self)@ == blank(),
    {
        self.vbuffer = zeroed_buffer();
    }

    /// The `len` bytes of the run that starts at `(row, col)`.
    pub fn read_buffer(&self, row: usize, col: usize, len: usize) -> (r: Vec<u8>)
        requires
            self.wf(),
        ensures
            r@.len() == len,
            forall|i: int| 0 <= i < len ==> r@[i] == #[trigger] self@[run_index(cell_index(row as int, col as int), i)],
    {
        let index = Self::flatten_index(row, col);
        let mut r: Vec<u8> = Vec::new();
        let mut i: usize = 0;
        while i < len
            invariant
                self.wf(),
                index == cell_index(row as int, col as int),
                0 <= index < GRAPHICS_VBUFFER,
                i <= len,
                r@.len() == i,
                forall|k: int| 0 <= k < i ==> r@[k] == #[trigger] self@[run_index(index as int, k)],
            decreases len - i,
        {
            let j: usize = (index + i % GRAPHICS_VBUFFER) % GRAPHICS_VBUFFER;
            proof {
                let m = GRAPHICS_VBUFFER as int;
                lemma_fundamental_div_mod(i as int, m);
                lemma_mod_multiples_vanish(i as int / m, index as int + (i as int) % m, m);
            }
            r.push(self.vbuffer[j]);
            i = i + 1;
        }
        r
    }

    /// XORs `sprite` into the run that starts at `(row, col)`; the result tells
    /// whether a lit pixel was turned off.
    pub fn draw_with_collision(&mut self, row: usize, col: usize, sprite: &[u8]) -> (collision: bool)
        requires
            old(self).wf(),
            sprite@.len() <= GRAPHICS_VBUFFER,
        ensures
            final(self).wf(),
            final(self)@ == drawn(old(self)@, cell_index(row as int, col as int), sprite@),
            collision == collides(old(self)@, cell_index(row as int, col as int), sprite@),
    {
        let index = Self::flatten_index(row, col);
        let ghost start = index as int;
        let mut collision = false;
        let mut i: usize = 0;
        while i < sprite.len()
            invariant
                self.wf(),
                sprite@.len() <= GRAPHICS_VBUFFER,
                0 <= start < GRAPHICS_VBUFFER,
                index == start,
                i <= sprite@.len(),
                self@ == drawn(old(self)@, start, sprite@.subrange(0, i as int)),
                collision == exists|k: int| 0 <= k < i && #[trigger] (old(self)@[run_index(start, k)] & sprite@[k]) != 0,
            decreases sprite@.len() - i,
        {
            let j: usize = (index + i) % GRAPHICS_VBUFFER;
            proof {
                lemma_run_offset(start, i as int);
            }
            let byte = self.vbuffer[j];
            assert(byte == old(self)@[run_index(start, i as int)]);
            if byte & sprite[i] != 0 {
                collision = true;
            }
            self.vbuffer.set(j, byte ^ sprite[i]);
            proof {
                assert forall|t: int| 0 <= t < GRAPHICS_VBUFFER implies #[trigger] self@[t] == drawn(
                    old(self)@,
                    start,
                    sprite@.subrange(0, i + 1),
                )[t] by {
                    lemma_run_offset_range(start, t);
                }
                assert(self@ =~= drawn(old(self)@, start, sprite@.subrange(0, i + 1)));
            }
            i = i + 1;
        }
        assert(sprite@.subrange(0, sprite@.len() as int) =~= sprite@);
        collision
    }

    /// Buffer index of the byte at `(row, col)`, both coordinates wrapped.
    fn flatten_index(row: usize, col: usize) -> (r: usize)
        ensures
            r == cell_index(row as int, col as int),
            r < GRAPHICS_VBUFFER,
    {
        (row % GRAPHICS_HEIGHT) * ROW_BYTES + col % ROW_BYTES
    }
}

impl Default for Graphics {
    fn default() -> (r: Self)
        ensures
            r.wf(),
            r@ == blank(),
    {
        Graphics::new()
    }
}

} // verus!
