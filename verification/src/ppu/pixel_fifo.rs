//! The pixel queue between a fetcher and the output unit.

use vstd::prelude::*;

verus! {

/// The number of pixels a queue holds.
pub const FIFO_CAPACITY: u8 = 16;

/// The number of pixels in one row of a tile.
pub const TILE_WIDTH: u8 = 8;

/// A queue of up to sixteen pixels, one byte each. The pixels sit in a ring:
/// the oldest at `head`, the others behind it, wrapping at the end of the array.
#[derive(Clone, Copy)]
pub struct PixelFifo {
    pub pixels: [u8; 16],
    pub head: u8,
    pub n_pixels: u8,
}

/// `pixels` with the first `count` of `value` stored from ring position `start` on.
pub open spec fn stored(pixels: [u8; 16], start: int, value: [u8; 8], count: nat) -> [u8; 16]
    decreases count,
{
    if count == 0 {
        pixels
    } else {
        vstd::array::spec_array_update(
            stored(pixels, start, value, (count - 1) as nat),
            (start + count - 1) % 16,
            value[count - 1],
        )
    }
}

impl PixelFifo {
    /// The empty queue.
    pub open spec fn empty_spec() -> PixelFifo {
        PixelFifo {
            pixels: vstd::array::spec_array_fill_for_copy_type::<u8, 16>(0u8),
            head: 0,
            n_pixels: 0,
        }
    }

    /// The number of pixels in the queue.
    pub open spec fn len(self) -> int {
        if self.n_pixels <= 16 {
            self.n_pixels as int
        } else {
            16
        }
    }

    /// The ring position of the pixel `k` places behind the oldest.
    pub open spec fn position(self, k: int) -> int {
        (self.head + k) % 16
    }

    /// The pixels in the queue, the oldest first.
    pub open spec fn view(self) -> Seq<u8> {
        Seq::new(self.len() as nat, |k: int| self.pixels[self.position(k)])
    }

    /// Whether eight more pixels fit.
    pub open spec fn has_room(self) -> bool {
        self.n_pixels <= 8
    }

    /// The queue without its oldest pixel, and that pixel; an empty queue stays as
    /// it is and gives none.
    pub open spec fn pop_spec(self) -> (PixelFifo, Option<u8>) {
        if self.n_pixels == 0 {
            (self, None)
        } else {
            (
                PixelFifo {
                    head: ((self.head + 1) % 16) as u8,
                    n_pixels: (self.n_pixels - 1) as u8,
                    ..self
                },
                Some(self.pixels[self.position(0)]),
            )
        }
    }

    /// The queue with eight pixels put behind those it holds. A queue without room
    /// for eight stays as it is.
    pub open spec fn load_spec(self, value: [u8; 8]) -> PixelFifo {
        if self.has_room() {
            PixelFifo {
                pixels: stored(self.pixels, self.position(self.n_pixels as int), value, 8),
                n_pixels: (self.n_pixels + 8) as u8,
                ..self
            }
        } else {
            self
        }
    }

    /// The queue emptied. The pixels it held stay in the ring and are never read.
    pub open spec fn clear_spec(self) -> PixelFifo {
        PixelFifo { head: 0, n_pixels: 0, ..self }
    }

    /// The empty queue.
    pub fn new() -> (r: PixelFifo)
        ensures
            r == PixelFifo::empty_spec(),
            r.view() == Seq::<u8>::empty(),
    {
        let r = PixelFifo { pixels: [0u8; 16], head: 0, n_pixels: 0 };
        assert(r.view() =~= Seq::<u8>::empty());
        r
    }

    /// Whether the queue holds no pixel.
    pub fn is_empty(&self) -> (r: bool)
        ensures
            r == (self.n_pixels == 0),
            r == (self.view().len() == 0),
    {
        self.n_pixels == 0
    }

    /// Takes the oldest pixel out of the queue.
    pub fn pop(&mut self) -> (r: Option<u8>)
        ensures
            (*final(self), r) == old(self).pop_spec(),
    {
        if self.n_pixels == 0 {
            None
        } else {
            let res: u8 = self.pixels[(self.head % 16) as usize];
            self.head = (self.head % 16 + 1) % 16;
            self.n_pixels = self.n_pixels - 1;
            Some(res)
        }
    }

    /// Puts eight pixels behind those the queue holds, where there is room for them.
    pub fn load(&mut self, value: [u8; 8])
        ensures
            *final(self) == old(self).load_spec(value),
    {
        if self.n_pixels > 8 {
            return ;
        }
        let start: u8 = (self.head % 16 + self.n_pixels) % 16;
        let mut k: u8 = 0;
        while k < 8
            invariant
                k <= 8,
                start == old(self).position(old(self).n_pixels as int),
                self.pixels == stored(old(self).pixels, start as int, value, k as nat),
                self.head == old(self).head,
                self.n_pixels == old(self).n_pixels,
            decreases 8 - k,
        {
            self.pixels[((start + k) % 16) as usize] = value[k as usize];
            k = k + 1;
        }
        self.n_pixels = self.n_pixels + 8;
    }

    /// Empties the queue.
    pub fn clear(&mut self)
        ensures
            *final(self) == old(self).clear_spec(),
    {
        self.head = 0;
        self.n_pixels = 0;
    }
}

impl Default for PixelFifo {
    fn default() -> (r: Self)
        ensures
            r == PixelFifo::empty_spec(),
    {
        PixelFifo::new()
    }
}

/// Storing pixels from `start` on changes the ring at the `count` positions from
/// `start` and nowhere else.
pub proof fn lemma_stored(pixels: [u8; 16], start: int, value: [u8; 8], count: nat, k: int)
    requires
        0 <= start < 16,
        count <= 8,
        0 <= k < 16,
    ensures
        stored(pixels, start, value, count)[(start + k) % 16] == if k < count {
            value[k]
        } else {
            pixels[(start + k) % 16]
        },
    decreases count,
{
    broadcast use vstd::array::group_array_axioms;

    if count > 0 {
        lemma_stored(pixels, start, value, (count - 1) as nat, k);
    }
}

/// What goes in first comes out first: after a load the queue holds what it held
/// before, followed by the eight new pixels in their order.
pub proof fn lemma_load_appends(fifo: PixelFifo, value: [u8; 8])
    requires
        fifo.has_room(),
        fifo.head < 16,
    ensures
        fifo.load_spec(value).view() == fifo.view() + value@,
{
    broadcast use vstd::array::group_array_axioms;

    let loaded = fifo.load_spec(value);
    let n = fifo.n_pixels as int;
    let head = fifo.head as int;
    let start = fifo.position(n);
    assert(start == if head + n >= 16 { head + n - 16 } else { head + n });
    assert forall|k: int| 0 <= k < loaded.len() implies loaded.view()[k] == (fifo.view()
        + value@)[k] by {
        let offset = if k >= n { k - n } else { k - n + 16 };
        let p = loaded.position(k);
        assert(p == if head + k >= 16 { head + k - 16 } else { head + k });
        assert((start + offset) % 16 == p) by {
            let total = start + offset;
            assert(total == p || total == p + 16);
        }
        lemma_stored(fifo.pixels, start, value, 8, offset);
        if k >= n {
            assert(value@[k - n] == value[k - n]);
        }
    }
    assert(loaded.view() =~= fifo.view() + value@);
}

/// A pop takes the first pixel of the queue and leaves the rest in their order.
pub proof fn lemma_pop_takes_first(fifo: PixelFifo)
    requires
        0 < fifo.n_pixels <= 16,
        fifo.head < 16,
    ensures
        fifo.pop_spec().1 == Some(fifo.view()[0]),
        fifo.pop_spec().0.view() == fifo.view().drop_first(),
{
    let popped = fifo.pop_spec().0;
    assert forall|k: int| 0 <= k < popped.len() implies popped.view()[k] == fifo.view()[k + 1] by {
        assert(popped.position(k) == fifo.position(k + 1));
    }
    assert(popped.view() =~= fifo.view().drop_first());
}

} // verus!

verus! {

/// The ring position `k` places behind `head`.
pub open spec fn ring_position(head: int, k: int) -> int {
    (head + k) % 16
}

/// `pixels` after the first `count` places of the queue that starts at ring
/// position `head` and holds `n` pixels took the pixels of `value` from `skip` on:
/// a place takes the new pixel unless it holds one of another colour than 0.
pub open spec fn merged(
    pixels: [u8; 16],
    head: int,
    n: int,
    value: [u8; 8],
    skip: int,
    count: nat,
) -> [u8; 16]
    decreases count,
{
    if count == 0 {
        pixels
    } else {
        let before = merged(pixels, head, n, value, skip, (count - 1) as nat);
        let place = ring_position(head, count - 1);
        if count - 1 < n && pixels[place] % 4 != 0 {
            before
        } else {
            vstd::array::spec_array_update(before, place, value[skip + count - 1])
        }
    }
}

impl PixelFifo {
    /// The queue after a sprite row was laid over it, without the first `skip`
    /// pixels of the row. Where the queue holds a pixel of another colour than 0,
    /// that pixel stays: it belongs to a sprite that comes first in the sprite
    /// table. The queue grows to hold the row.
    pub open spec fn merge_spec(self, value: [u8; 8], skip: u8) -> PixelFifo {
        if skip >= 8 || self.n_pixels > 16 {
            self
        } else {
            PixelFifo {
                pixels: merged(
                    self.pixels,
                    self.head as int % 16,
                    self.n_pixels as int,
                    value,
                    skip as int,
                    (8 - skip) as nat,
                ),
                head: self.head % 16,
                n_pixels: if self.n_pixels < 8 - skip {
                    (8 - skip) as u8
                } else {
                    self.n_pixels
                },
            }
        }
    }

    /// Lays a sprite row over the queue.
    pub fn merge(&mut self, value: [u8; 8], skip: u8)
        ensures
            *final(self) == old(self).merge_spec(value, skip),
    {
        if skip >= 8 || self.n_pixels > 16 {
            return ;
        }
        let head: u8 = self.head % 16;
        let n: u8 = self.n_pixels;
        let count: u8 = 8 - skip;
        let ghost before = self.pixels;
        let mut k: u8 = 0;
        while k < count
            invariant
                k <= count,
                count == 8 - skip,
                skip < 8,
                head < 16,
                head == old(self).head % 16,
                n == old(self).n_pixels,
                before == old(self).pixels,
                self.pixels == merged(before, head as int, n as int, value, skip as int, k as nat),
                self.head == old(self).head,
                self.n_pixels == old(self).n_pixels,
                forall|j: int|
                    k <= j < count ==> self.pixels[#[trigger] ring_position(head as int, j)]
                        == before[ring_position(head as int, j)],
            decreases count - k,
        {
            let place: usize = ((head + k) % 16) as usize;
            proof {
                broadcast use vstd::array::group_array_axioms;

                assert(place == ring_position(head as int, k as int));
                assert forall|j: int| k + 1 <= j < count implies #[trigger] ring_position(
                    head as int,
                    j,
                ) != place as int by {}
            }
            if !(k < n && self.pixels[place] % 4 != 0) {
                self.pixels[place] = value[(skip + k) as usize];
            }
            k = k + 1;
        }
        self.head = head;
        if n < count {
            self.n_pixels = count;
        }
    }
}

} // verus!

verus! {

/// After a load the queue holds, pixel by pixel, what it held before and behind
/// that the eight new pixels.
pub proof fn lemma_load_pixels(fifo: PixelFifo, value: [u8; 8])
    requires
        fifo.has_room(),
        fifo.head < 16,
    ensures
        fifo.load_spec(value).n_pixels == fifo.n_pixels + 8,
        fifo.load_spec(value).head == fifo.head,
        forall|m: int|
            0 <= m < fifo.n_pixels ==> #[trigger] fifo.load_spec(value).view()[m] == fifo.view()[m],
        forall|i: int|
            0 <= i < 8 ==> #[trigger] fifo.load_spec(value).view()[fifo.n_pixels + i] == value[i],
{
    broadcast use vstd::array::group_array_axioms;

    lemma_load_appends(fifo, value);
    let joined = fifo.view() + value@;
    assert(fifo.view().len() == fifo.n_pixels);
    assert forall|i: int| 0 <= i < 8 implies #[trigger] fifo.load_spec(value).view()[fifo.n_pixels
        + i] == value[i] by {
        assert(joined[fifo.n_pixels + i] == value@[i]);
    }
}

/// After a pop the queue holds, pixel by pixel, what it held behind its first pixel.
pub proof fn lemma_pop_pixels(fifo: PixelFifo)
    requires
        0 < fifo.n_pixels <= 16,
        fifo.head < 16,
    ensures
        fifo.pop_spec().1 == Some(fifo.view()[0]),
        fifo.pop_spec().0.n_pixels == fifo.n_pixels - 1,
        fifo.pop_spec().0.head < 16,
        forall|m: int|
            0 <= m < fifo.n_pixels - 1 ==> #[trigger] fifo.pop_spec().0.view()[m] == fifo.view()[m
                + 1],
{
    lemma_pop_takes_first(fifo);
}

} // verus!
