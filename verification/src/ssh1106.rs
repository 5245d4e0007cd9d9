//! The frame buffer and the wire protocol of the SSH1106 OLED controller.
//!
//! The controller's memory is eight pages of 128 columns. A page is a band
//! of eight pixel rows: one byte per column, bit `n` of it being row `n` of
//! the band. On the wire every page is headed by a marker byte, and the
//! frame buffer keeps the pages in that form, so that a page is sent as it
//! lies in memory.

use vstd::prelude::*;
use vstd::array::spec_array_fill_for_copy_type;
use vstd::array::spec_array_update;
use crate::geometry::has_tie;
use crate::geometry::lemma_line_reversed;
use crate::geometry::line_points;
use crate::geometry::within;
use crate::surface::lemma_plotted_all_reverse;
use crate::surface::plotted_all;
use crate::surface::plotting_commutes;
use crate::surface::Surface;

verus! {

/// The bus address of the controller.
pub const ADDRESS: u8 = 0x3c;

/// The width of the display in pixels.
pub const WIDTH: i32 = 128;

/// The height of the display in pixels.
pub const HEIGHT: i32 = 64;

/// The number of pages.
pub const PAGES: usize = 8;

/// The bytes of a page in the frame buffer: the marker and 128 columns.
pub const PAGE_SIZE: usize = 129;

/// The bytes of the frame buffer.
pub const BUFFER_SIZE: usize = 1032;

/// The byte that heads every page and tells the controller that pixel data
/// follows.
pub const MARKER: u8 = 0x40;

/// The number of bus transfers of a refresh: a command and a page for each
/// page.
pub const TRANSFERS: u8 = 16;

/// The bytes that switch the controller on, sent as one transfer: command
/// mode, display off, clock divide, multiplex ratio, display offset, start
/// line, charge pump, addressing mode, segment re-map, COM scan direction,
/// COM pins, contrast, pre-charge period, VCOMH level, display from memory,
/// not inverted, display on.
pub const INIT_SEQUENCE: [u8; 26] = [
    0x00, 0xae, 0xd5, 0x80, 0xa8, 0x3f, 0xd3, 0x00, 0x40, 0x8d, 0x14, 0x20, 0x00, 0xa1,
    0xc8, 0xda, 0x12, 0x81, 0xcf, 0xd9, 0xf1, 0xdb, 0x40, 0xa4, 0xa6, 0xaf,
];

/// Where the byte of pixel `(x, y)` lies in the frame buffer.
pub open spec fn byte_index(x: int, y: int) -> int {
    (y / 8) * PAGE_SIZE as int + 1 + x
}

/// The bit of pixel row `y` within its byte.
pub open spec fn bit_mask(y: int) -> u8 {
    1u8 << ((y % 8) as u8)
}

/// The frame buffer with no pixel lit: every page's marker, zero elsewhere.
pub open spec fn blank() -> Seq<u8> {
    Seq::new(
        BUFFER_SIZE as nat,
        |i: int|
            if i % (PAGE_SIZE as int) == 0 {
                MARKER
            } else {
                0u8
            },
    )
}

/// The frame buffer after lighting pixel `(x, y)`: one bit more in one
/// byte, or no change where the pixel is off the display.
pub open spec fn plot_bytes(bytes: Seq<u8>, x: int, y: int) -> Seq<u8> {
    if within(WIDTH as int, HEIGHT as int, x, y) {
        bytes.update(byte_index(x, y), bytes[byte_index(x, y)] | bit_mask(y))
    } else {
        bytes
    }
}

/// Whether pixel `(x, y)` is lit in a frame buffer.
pub open spec fn lit(bytes: Seq<u8>, x: int, y: int) -> bool {
    within(WIDTH as int, HEIGHT as int, x, y) && bytes[byte_index(x, y)] & bit_mask(y) != 0
}

/// Whether every page of a frame buffer is headed by the marker.
pub open spec fn framed(bytes: Seq<u8>) -> bool {
    &&& bytes.len() == BUFFER_SIZE
    &&& forall|page: int| 0 <= page < PAGES ==> #[trigger] bytes[page * PAGE_SIZE as int] == MARKER
}

/// SSH1106 OLED Display
pub struct Ssh1106 {
    buffer: [u8; 1032],
}

impl View for Ssh1106 {
    type V = Seq<u8>;

    closed spec fn view(&self) -> Seq<u8> {
        self.buffer@
    }
}

spec fn blank_array() -> [u8; 1032] {
    let a = spec_array_fill_for_copy_type::<u8, 1032>(0u8);
    let a = spec_array_update(a, 0 * PAGE_SIZE as int, MARKER);
    let a = spec_array_update(a, 1 * PAGE_SIZE as int, MARKER);
    let a = spec_array_update(a, 2 * PAGE_SIZE as int, MARKER);
    let a = spec_array_update(a, 3 * PAGE_SIZE as int, MARKER);
    let a = spec_array_update(a, 4 * PAGE_SIZE as int, MARKER);
    let a = spec_array_update(a, 5 * PAGE_SIZE as int, MARKER);
    let a = spec_array_update(a, 6 * PAGE_SIZE as int, MARKER);
    spec_array_update(a, 7 * PAGE_SIZE as int, MARKER)
}

proof fn lemma_blank_array()
    ensures
        blank_array()@ == blank(),
{
    assert(blank_array()@ =~= blank());
}

proof fn lemma_array_equal(a: [u8; 1032], b: [u8; 1032])
    requires
        a@ == b@,
    ensures
        a == b,
{
    assert(a =~= b);
}

impl Ssh1106 {
    #[verifier::type_invariant]
    spec fn well_formed(&self) -> bool {
        framed(self.buffer@)
    }

    /// The frame buffer of a display that has just been switched on with
    /// [`INIT_SEQUENCE`]: no pixel is lit.
    pub fn new() -> (display: Self)
        ensures
            display@ == blank(),
    {
        let mut buffer = [0u8; 1032];
        let mut page: usize = 0;
        while page < PAGES
            invariant
                0 <= page <= PAGES,
                forall|i: int|
                    0 <= i < BUFFER_SIZE ==> buffer[i] == if i % (PAGE_SIZE as int) == 0 && i
                        < page * PAGE_SIZE {
                        MARKER
                    } else {
                        0u8
                    },
            decreases PAGES - page,
        {
            buffer[page * PAGE_SIZE] = MARKER;
            page += 1;
        }
        assert(buffer@ =~= blank());
        Ssh1106 { buffer }
    }

    /// The frame buffer as it will be sent.
    pub fn buffer(&self) -> (bytes: &[u8; 1032])
        ensures
            bytes@ == self@,
            framed(self@),
    {
        proof {
            use_type_invariant(self);
        }
        &self.buffer
    }
}

impl Surface for Ssh1106 {
    open spec fn spec_width(&self) -> int {
        WIDTH as int
    }

    open spec fn spec_height(&self) -> int {
        HEIGHT as int
    }

    closed spec fn plotted(self, x: int, y: int) -> Self {
        if within(WIDTH as int, HEIGHT as int, x, y) {
            Ssh1106 {
                buffer: spec_array_update(
                    self.buffer,
                    byte_index(x, y),
                    self.buffer[byte_index(x, y)] | bit_mask(y),
                ),
            }
        } else {
            self
        }
    }

    closed spec fn cleared(self) -> Self {
        Ssh1106 { buffer: blank_array() }
    }

    proof fn lemma_surface(self, x: int, y: int) {
    }

    /// Puts out every pixel and sets the marker of every page again.
    fn clear(&mut self)
        ensures
            final(self)@ == blank(),
    {
        let fresh = Ssh1106::new();
        proof {
            lemma_blank_array();
            lemma_array_equal(fresh.buffer, blank_array());
        }
        self.buffer = fresh.buffer;
    }

    /// Lights one pixel: sets bit `y % 8` of the byte at
    /// [`byte_index`]`(x, y)`. A pixel off the display changes nothing.
    fn pixel(&mut self, x: i32, y: i32)
        ensures
            final(self)@ == plot_bytes(old(self)@, x as int, y as int),
    {
        proof {
            use_type_invariant(&*self);
        }
        if 0 <= x && x < WIDTH && 0 <= y && y < HEIGHT {
            let column = x as usize;
            let row = y as u32;
            assert(row >> 3 == row / 8 && row & 7 == row % 8) by (bit_vector);
            let p = column + (row >> 3) as usize * 128;
            let index = p + 1 + p / 128;
            let mask = 1u8 << (row & 7);
            assert(mask == bit_mask(y as int));
            assert(index == byte_index(x as int, y as int));
            assert(index % PAGE_SIZE != 0);
            self.buffer[index] = self.buffer[index] | mask;
            proof {
                lemma_array_equal(self.buffer, old(self).plotted(x as int, y as int).buffer);
            }
        }
    }

    fn width(&self) -> (w: i32)
        ensures
            w == WIDTH,
    {
        WIDTH
    }

    fn height(&self) -> (h: i32)
        ensures
            h == HEIGHT,
    {
        HEIGHT
    }
}

/// The bytes of transfer number `index` of a refresh: before every page a
/// command that selects it and resets the column address, then the page as
/// it lies in the frame buffer.
pub open spec fn transfer_bytes(bytes: Seq<u8>, index: int) -> Seq<u8> {
    let page = index / 2;
    if index % 2 == 0 {
        seq![0x00u8, (0xb0 + page) as u8, 0x02u8, 0x10u8]
    } else {
        bytes.subrange(page * PAGE_SIZE as int, (page + 1) * PAGE_SIZE as int)
    }
}

/// One write to the bus.
pub enum Transfer<'a> {
    /// The command that selects a page.
    Command([u8; 4]),
    /// The bytes of a page.
    Page(&'a [u8]),
}

impl<'a> View for Transfer<'a> {
    type V = Seq<u8>;

    open spec fn view(&self) -> Seq<u8> {
        match self {
            Transfer::Command(bytes) => bytes@,
            Transfer::Page(bytes) => bytes@,
        }
    }
}

impl<'a> Transfer<'a> {
    /// The bytes to write.
    pub fn bytes(&self) -> (bytes: &[u8])
        ensures
            bytes@ == self@,
    {
        match self {
            Transfer::Command(bytes) => bytes.as_slice(),
            Transfer::Page(bytes) => bytes,
        }
    }
}

/// How far a refresh of the display has come.
///
/// A refresh is [`TRANSFERS`] writes to the bus, one after the other. The
/// first write that fails ends it: what was sent before stays on the
/// display, and nothing is sent after.
#[derive(Clone, Copy, Debug, PartialEq, Eq, Structural)]
pub struct Refresh {
    /// The number of transfers that went out.
    pub sent: u8,
    /// Whether a transfer failed.
    pub failed: bool,
}

impl Refresh {
    /// Whether another transfer is due.
    pub open spec fn pending(&self) -> bool {
        !self.failed && self.sent < TRANSFERS
    }

    /// The refresh after the transfer that was due ended as `ok` says. A
    /// refresh that has ended stays as it is.
    pub open spec fn recorded(self, ok: bool) -> Refresh {
        if !self.pending() {
            self
        } else if ok {
            Refresh { sent: (self.sent + 1) as u8, failed: false }
        } else {
            Refresh { sent: self.sent, failed: true }
        }
    }

    /// A refresh of which nothing has been sent yet.
    pub fn new() -> (refresh: Refresh)
        ensures
            refresh == (Refresh { sent: 0, failed: false }),
    {
        Refresh { sent: 0, failed: false }
    }

    /// Whether every transfer went out.
    pub fn complete(&self) -> (done: bool)
        ensures
            done == (!self.failed && self.sent >= TRANSFERS),
    {
        !self.failed && self.sent >= TRANSFERS
    }

    /// Take note of how the transfer that was due has ended.
    pub fn record(&mut self, ok: bool)
        ensures
            *final(self) == old(self).recorded(ok),
    {
        if !self.failed && self.sent < TRANSFERS {
            if ok {
                self.sent += 1;
            } else {
                self.failed = true;
            }
        }
    }

    /// A refresh that failed is over: it stays failed and asks for nothing
    /// more, whatever is recorded.
    pub proof fn lemma_failure_is_final(self, ok: bool)
        requires
            self.failed,
        ensures
            !self.pending(),
            self.recorded(ok) == self,
    {
    }

    /// The transfers go out in order: recording a success moves on to the
    /// next one, until all are sent.
    pub proof fn lemma_success_moves_on(self)
        requires
            self.pending(),
        ensures
            self.recorded(true).sent == self.sent + 1,
            self.recorded(true).pending() <==> self.sent + 1 < TRANSFERS,
            !self.recorded(false).pending(),
    {
    }
}

impl Ssh1106 {
    /// Send the current buffer to the display: the transfer that is due in
    /// a refresh, or `None` where the refresh has ended.
    pub fn display(&self, refresh: &Refresh) -> (transfer: Option<Transfer<'_>>)
        ensures
            framed(self@),
            transfer is Some <==> refresh.pending(),
            transfer matches Some(t) ==> t@ == transfer_bytes(self@, refresh.sent as int),
    {
        proof {
            use_type_invariant(self);
        }
        if refresh.failed || refresh.sent >= TRANSFERS {
            None
        } else {
            let page = refresh.sent / 2;
            if refresh.sent % 2 == 0 {
                let command = [0x00, 0xb0 + page, 0x02, 0x10];
                assert(command@ =~= transfer_bytes(self@, refresh.sent as int));
                Some(Transfer::Command(command))
            } else {
                let start = page as usize * PAGE_SIZE;
                let bytes = vstd::slice::slice_subrange(
                    self.buffer.as_slice(),
                    start,
                    start + PAGE_SIZE,
                );
                Some(Transfer::Page(bytes))
            }
        }
    }

    /// A display is its frame buffer.
    pub proof fn lemma_same_buffer(self, other: Ssh1106)
        requires
            self@ == other@,
        ensures
            self == other,
    {
        lemma_array_equal(self.buffer, other.buffer);
    }

    /// What `pixel` and `clear` do to the frame buffer.
    pub proof fn lemma_buffer(self, x: int, y: int)
        ensures
            self@.len() == BUFFER_SIZE,
            self.plotted(x, y)@ == plot_bytes(self@, x, y),
            self.cleared()@ == blank(),
    {
        lemma_blank_array();
    }
}

/// Every transfer of a refresh is a page command of four bytes or a page
/// of [`PAGE_SIZE`] bytes that starts with the marker.
pub proof fn lemma_transfers(bytes: Seq<u8>, index: int)
    requires
        framed(bytes),
        0 <= index < TRANSFERS,
    ensures
        index % 2 == 0 ==> transfer_bytes(bytes, index).len() == 4,
        index % 2 == 1 ==> transfer_bytes(bytes, index).len() == PAGE_SIZE && transfer_bytes(
            bytes,
            index,
        )[0] == MARKER,
{
    let page = index / 2;
    assert(bytes[page * PAGE_SIZE as int] == MARKER);
}

proof fn lemma_bits(b: u8, i: u8, j: u8)
    by (bit_vector)
    requires
        i < 8,
        j < 8,
    ensures
        ((b | (1u8 << i)) & (1u8 << j) != 0) == ((b & (1u8 << j) != 0) || i == j),
        (b | (1u8 << i)) | (1u8 << j) == (b | (1u8 << j)) | (1u8 << i),
        0u8 & (1u8 << j) == 0,
{
}

/// The byte of a pixel lies behind as many markers as there are pages up to
/// its own: with `p` the number of the byte among the pixel bytes,
/// `x + (y / 8) * 128`, it is byte `p + 1 + p / 128` of the frame buffer,
/// and never a marker.
pub proof fn lemma_byte_index(x: int, y: int)
    requires
        within(WIDTH as int, HEIGHT as int, x, y),
    ensures
        byte_index(x, y) == (x + (y / 8) * 128) + 1 + (x + (y / 8) * 128) / 128,
        0 < byte_index(x, y) < BUFFER_SIZE,
        byte_index(x, y) % (PAGE_SIZE as int) != 0,
{
}

/// No pixel of the blank frame buffer is lit, and its pages are headed by
/// the marker.
pub proof fn lemma_blank(x: int, y: int)
    ensures
        framed(blank()),
        !lit(blank(), x, y),
{
    if within(WIDTH as int, HEIGHT as int, x, y) {
        assert(byte_index(x, y) % (PAGE_SIZE as int) != 0);
        lemma_bits(0, 0, (y % 8) as u8);
    }
}

/// Lighting a pixel lights that pixel and changes no other; the markers
/// stay in place.
pub proof fn lemma_plot_lights(bytes: Seq<u8>, x: int, y: int, u: int, v: int)
    requires
        bytes.len() == BUFFER_SIZE,
        within(WIDTH as int, HEIGHT as int, x, y),
    ensures
        lit(plot_bytes(bytes, x, y), u, v) == (lit(bytes, u, v) || (u == x && v == y)),
        plot_bytes(bytes, x, y).len() == BUFFER_SIZE,
        framed(bytes) ==> framed(plot_bytes(bytes, x, y)),
{
    lemma_bits(bytes[byte_index(x, y)], (y % 8) as u8, (v % 8) as u8);
    if framed(bytes) {
        let after = plot_bytes(bytes, x, y);
        assert forall|page: int| 0 <= page < PAGES implies #[trigger] after[page
            * PAGE_SIZE as int] == MARKER by {
            assert(bytes[page * PAGE_SIZE as int] == MARKER);
        }
    }
}

/// Two pixels can be lit in either order.
pub proof fn lemma_plot_commutes(bytes: Seq<u8>, x: int, y: int, u: int, v: int)
    requires
        bytes.len() == BUFFER_SIZE,
    ensures
        plot_bytes(plot_bytes(bytes, x, y), u, v) == plot_bytes(plot_bytes(bytes, u, v), x, y),
{
    if within(WIDTH as int, HEIGHT as int, x, y) && within(WIDTH as int, HEIGHT as int, u, v) {
        lemma_bits(bytes[byte_index(x, y)], (y % 8) as u8, (v % 8) as u8);
    }
    assert(plot_bytes(plot_bytes(bytes, x, y), u, v) =~= plot_bytes(plot_bytes(bytes, u, v), x, y));
}

impl Ssh1106 {
    /// On the display two pixels can be plotted in either order.
    pub proof fn lemma_plotting_commutes()
        ensures
            plotting_commutes::<Ssh1106>(),
    {
        assert forall|s: Ssh1106, a: (int, int), b: (int, int)|
            (#[trigger] s.plotted(a.0, a.1).plotted(b.0, b.1)) == s.plotted(b.0, b.1).plotted(
                a.0,
                a.1,
            ) by {
            s.lemma_buffer(a.0, a.1);
            s.lemma_buffer(b.0, b.1);
            s.plotted(a.0, a.1).lemma_buffer(b.0, b.1);
            s.plotted(b.0, b.1).lemma_buffer(a.0, a.1);
            lemma_plot_commutes(s@, a.0, a.1, b.0, b.1);
            s.plotted(a.0, a.1).plotted(b.0, b.1).lemma_same_buffer(
                s.plotted(b.0, b.1).plotted(a.0, a.1),
            );
        }
    }

    /// After a run of pixels, what is lit is what was lit before and those
    /// pixels of the run that lie on the display.
    pub proof fn lemma_lit_after(self, points: Seq<(int, int)>, u: int, v: int)
        ensures
            lit(plotted_all(self, points)@, u, v) == (lit(self@, u, v) || (within(
                WIDTH as int,
                HEIGHT as int,
                u,
                v,
            ) && points.contains((u, v)))),
        decreases points.len(),
    {
        if points.len() > 0 {
            let rest = points.drop_last();
            let last = points.last();
            let before = plotted_all(self, rest);
            self.lemma_lit_after(rest, u, v);
            before.lemma_buffer(last.0, last.1);
            if within(WIDTH as int, HEIGHT as int, last.0, last.1) {
                lemma_plot_lights(before@, last.0, last.1, u, v);
            }
            if rest.contains((u, v)) {
                let at = choose|at: int| 0 <= at < rest.len() && rest[at] == (u, v);
                assert(points[at] == (u, v));
            }
            if points.contains((u, v)) {
                let at = choose|at: int| 0 <= at < points.len() && points[at] == (u, v);
                if at < rest.len() {
                    assert(rest[at] == (u, v));
                }
            }
            assert(points[points.len() - 1] == last);
        }
    }

    /// A line without a tie leaves the same frame buffer whichever end it
    /// is drawn from.
    pub proof fn lemma_line_either_way(self, x1: int, y1: int, x2: int, y2: int)
        requires
            !has_tie(x1, y1, x2, y2),
        ensures
            plotted_all(self, line_points(x2, y2, x1, y1)) == plotted_all(
                self,
                line_points(x1, y1, x2, y2),
            ),
    {
        lemma_line_reversed(x1, y1, x2, y2);
        Self::lemma_plotting_commutes();
        lemma_plotted_all_reverse(self, line_points(x1, y1, x2, y2));
    }
}

} // verus!
