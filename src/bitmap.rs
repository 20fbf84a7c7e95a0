use vstd::prelude::*;

use crate::command::{HEIGHT, WIDTH};

verus! {

/// What a pixel buffer holds: its size and its RGB bytes, three per pixel,
/// row after row.
pub struct PixelGrid {
    pub width: nat,
    pub height: nat,
    pub data: Seq<u8>,
}

impl PixelGrid {
    pub open spec fn wf(self) -> bool {
        self.data.len() == 3 * self.width * self.height
    }

    /// Number of pixels.
    pub open spec fn pixel_count(self) -> nat {
        self.width * self.height
    }

    /// Pixels per chunk: eight full rows.
    pub open spec fn chunk_len(self) -> nat {
        8 * self.width
    }

    /// Number of chunks the pixels are sent in: one per eight rows, the last
    /// one possibly shorter.
    pub open spec fn chunk_count(self) -> nat {
        ((self.height + 7) / 8) as nat
    }

    /// First pixel of chunk `k`.
    pub open spec fn chunk_start(self, k: int) -> int {
        k * self.chunk_len()
    }

    /// One past the last pixel of chunk `k`.
    pub open spec fn chunk_end(self, k: int) -> int {
        let end = self.chunk_start(k) + self.chunk_len();
        if end < self.pixel_count() {
            end
        } else {
            self.pixel_count() as int
        }
    }

    /// The RGB565 value of pixel `p`.
    pub open spec fn color(self, p: int) -> u16 {
        rgb565(self.data[3 * p], self.data[3 * p + 1], self.data[3 * p + 2])
    }

    /// The bytes sent for pixels `lo .. hi`: two per pixel, low byte first.
    pub open spec fn encoded(self, lo: int, hi: int) -> Seq<u8>
        decreases hi - lo,
    {
        if hi <= lo {
            Seq::empty()
        } else {
            self.encoded(lo, hi - 1) + color_bytes(self.color(hi - 1))
        }
    }

    /// The bytes of the `k`-th write of pixel data.
    pub open spec fn chunk_bytes(self, k: int) -> Seq<u8> {
        self.encoded(self.chunk_start(k), self.chunk_end(k))
    }
}

/// Each pixel takes two bytes.
pub proof fn lemma_encoded_len(g: PixelGrid, lo: int, hi: int)
    requires
        lo <= hi,
    ensures
        g.encoded(lo, hi).len() == 2 * (hi - lo),
    decreases hi - lo,
{
    if lo < hi {
        lemma_encoded_len(g, lo, hi - 1);
    }
}

/// Every chunk but the last holds eight full rows; the last one holds the
/// rows that are left, `height % 8` of them when the height is not a
/// multiple of eight.
pub proof fn lemma_chunk_sizes(g: PixelGrid, k: int)
    requires
        g.width > 0,
        0 <= k < g.chunk_count(),
    ensures
        g.chunk_start(k) <= g.chunk_end(k),
        g.chunk_end(k) - g.chunk_start(k) == if k == g.chunk_count() - 1 && g.height % 8 != 0 {
            g.width * (g.height % 8)
        } else {
            8 * g.width
        },
{
    let w = g.width as int;
    let h = g.height as int;
    let last = k == g.chunk_count() - 1 && h % 8 != 0;
    if last {
        assert(8 * k + 8 > h && h - 8 * k == h % 8);
        assert(k * (8 * w) + 8 * w >= w * h && w * h - k * (8 * w) == w * (h % 8)) by (nonlinear_arith)
            requires
                8 * k + 8 > h,
                h - 8 * k == h % 8,
                w > 0,
        ;
    } else {
        assert(8 * k + 8 <= h);
        assert(k * (8 * w) + 8 * w <= w * h) by (nonlinear_arith)
            requires
                8 * k + 8 <= h,
                w > 0,
        ;
    }
}

/// RGB565 value of an 8-bit colour: 5 bits of red, 6 of green, 5 of blue.
pub open spec fn rgb565(r: u8, g: u8, b: u8) -> u16 {
    ((r / 8) as int * 2048 + (g / 4) as int * 32 + (b / 8) as int) as u16
}

/// A 16-bit colour as sent on the wire: low byte first.
pub open spec fn color_bytes(c: u16) -> Seq<u8> {
    seq![(c % 256) as u8, (c / 256) as u8]
}

/// The size test a bitmap must pass before it is drawn. Either side matching
/// the panel in either orientation is enough, so some sizes that are not the
/// panel's (320x320, for one) pass too.
pub open spec fn size_accepted(width: u32, height: u32) -> bool {
    (width == WIDTH || height == HEIGHT) || (width == HEIGHT || height == WIDTH)
}

/// Executable form of `size_accepted`.
pub fn is_size_accepted(width: u32, height: u32) -> (r: bool)
    ensures
        r == size_accepted(width, height),
{
    let (w, h) = (WIDTH as u32, HEIGHT as u32);
    (width == w || height == h) || (width == h || height == w)
}

/// Converts an 8-bit RGB colour to RGB565.
pub fn to_rgb565(r: u8, g: u8, b: u8) -> (c: u16)
    ensures
        c == rgb565(r, g, b),
{
    let c = (((r >> 3u8) as u16) << 11u16) | (((g >> 2u8) as u16) << 5u16) | ((b >> 3u8) as u16);
    assert(c == rgb565(r, g, b)) by (bit_vector)
        requires
            c == (((r >> 3u8) as u16) << 11u16) | (((g >> 2u8) as u16) << 5u16) | ((b >> 3u8) as u16),
    ;
    c
}

/// The fields of an RGB565 value are the top bits of the three channels:
/// red in the high five bits, green in the middle six, blue in the low five.
pub proof fn lemma_rgb565_fields(r: u8, g: u8, b: u8)
    ensures
        rgb565(r, g, b) >> 11u16 == (r >> 3u8) as u16,
        (rgb565(r, g, b) >> 5u16) & 63u16 == (g >> 2u8) as u16,
        rgb565(r, g, b) & 31u16 == (b >> 3u8) as u16,
{
    let c = rgb565(r, g, b);
    assert(c >> 11u16 == (r >> 3u8) as u16 && (c >> 5u16) & 63u16 == (g >> 2u8) as u16 && c & 31u16
        == (b >> 3u8) as u16) by (bit_vector)
        requires
            c == ((r / 8) as int * 2048 + (g / 4) as int * 32 + (b / 8) as int) as u16,
    ;
}

/// An in-memory RGB image: `width * height` pixels of three bytes each, row
/// after row.
pub struct PixelBuffer {
    width: u32,
    height: u32,
    data: Vec<u8>,
}

impl View for PixelBuffer {
    type V = PixelGrid;

    closed spec fn view(&self) -> PixelGrid {
        PixelGrid { width: self.width as nat, height: self.height as nat, data: self.data@ }
    }
}

impl PixelBuffer {
    #[verifier::type_invariant]
    spec fn inv(&self) -> bool {
        self@.wf()
    }

    /// Wraps raw RGB bytes as an image, or `None` when their number is not
    /// three per pixel.
    pub fn from_raw(width: u32, height: u32, data: Vec<u8>) -> (r: Option<PixelBuffer>)
        ensures
            r is Some <==> data@.len() == 3 * width * height,
            r matches Some(img) ==> img@ == (PixelGrid {
                width: width as nat,
                height: height as nat,
                data: data@,
            }),
    {
        let len = data.len() as u64;
        let n = (width as u64).checked_mul(height as u64);
        match n {
            Some(n) => {
                let m = n.checked_mul(3);
                match m {
                    Some(m) => {
                        if len == m {
                            assert(3 * n == 3 * width * height) by (nonlinear_arith)
                                requires
                                    n == width * height,
                            ;
                            Some(PixelBuffer { width, height, data })
                        } else {
                            assert(3 * n == 3 * width * height) by (nonlinear_arith)
                                requires
                                    n == width * height,
                            ;
                            None
                        }
                    },
                    None => {
                        assert(data@.len() != 3 * width * height) by (nonlinear_arith)
                            requires
                                n == width * height,
                                3 * n > u64::MAX,
                                data@.len() == len,
                        ;
                        None
                    },
                }
            },
            None => {
                assert(data@.len() != 3 * width * height) by (nonlinear_arith)
                    requires
                        width * height > u64::MAX,
                        data@.len() == len,
                ;
                None
            },
        }
    }

    pub fn width(&self) -> (r: u32)
        ensures
            r == self@.width,
    {
        self.width
    }

    pub fn height(&self) -> (r: u32)
        ensures
            r == self@.height,
    {
        self.height
    }

    /// The raw RGB bytes.
    pub fn data(&self) -> (r: &Vec<u8>)
        ensures
            r@ == self@.data,
            self@.wf(),
    {
        proof {
            use_type_invariant(self);
        }
        &self.data
    }

    /// Number of pixel-data writes that drawing this image takes.
    pub fn chunk_count(&self) -> (r: usize)
        ensures
            r == self@.chunk_count(),
            r <= 0x2000_0000,
    {
        ((self.height as u64 + 7) / 8) as usize
    }

    /// The bytes sent for pixels `lo .. hi`.
    pub fn encode_range(&self, lo: usize, hi: usize) -> (r: Vec<u8>)
        requires
            lo <= hi <= self@.pixel_count(),
        ensures
            r@ == self@.encoded(lo as int, hi as int),
    {
        proof {
            use_type_invariant(self);
        }
        let len = self.data.len();
        let mut out: Vec<u8> = Vec::new();
        let mut p: usize = lo;
        while p < hi
            invariant
                lo <= p <= hi,
                hi <= self@.pixel_count(),
                self@.wf(),
                len == self.data@.len(),
                out@ == self@.encoded(lo as int, p as int),
            decreases hi - p,
        {
            assert(3 * p + 2 < len) by (nonlinear_arith)
                requires
                    p < self@.width * self@.height,
                    len == 3 * self@.width * self@.height,
            ;
            let c = to_rgb565(self.data[3 * p], self.data[3 * p + 1], self.data[3 * p + 2]);
            let low = (c % 256) as u8;
            let high = (c / 256) as u8;
            out.push(low);
            out.push(high);
            assert(out@ =~= self@.encoded(lo as int, p + 1));
            p = p + 1;
        }
        out
    }

    /// The bytes of the `k`-th write of pixel data: pixels `k * 8 * width`
    /// up to eight rows further or the end of the image.
    pub fn encode_chunk(&self, k: usize) -> (r: Vec<u8>)
        requires
            self@.width > 0,
            k < self@.chunk_count(),
        ensures
            r@ == self@.chunk_bytes(k as int),
    {
        proof {
            use_type_invariant(self);
        }
        let ghost g = self@;
        let w = self.width as usize;
        let h = self.height as usize;
        let len = self.data.len();
        assert(w * h <= len) by (nonlinear_arith)
            requires
                len == 3 * w * h,
        ;
        let row = 8 * k;
        assert(row < h);
        assert(row * w <= w * h) by (nonlinear_arith)
            requires
                row < h,
        ;
        let lo = row * w;
        assert(lo <= w * h && lo == g.chunk_start(k as int)) by (nonlinear_arith)
            requires
                row < h,
                lo == row * w,
                row == 8 * k,
                g.chunk_start(k as int) == k * (8 * w),
        ;
        let end_row = if h - row > 8 {
            row + 8
        } else {
            h
        };
        assert(end_row * w <= w * h) by (nonlinear_arith)
            requires
                end_row <= h,
        ;
        let hi = end_row * w;
        assert(hi <= w * h && hi == g.chunk_end(k as int)) by (nonlinear_arith)
            requires
                row < h,
                w > 0,
                lo == row * w,
                hi == end_row * w,
                end_row == if h - row > 8 { row + 8 } else { h as int },
                g.chunk_start(k as int) == lo,
                g.pixel_count() == w * h,
                g.chunk_len() == 8 * w,
                g.chunk_end(k as int) == if g.chunk_start(k as int) + g.chunk_len() < g.pixel_count() {
                    g.chunk_start(k as int) + g.chunk_len()
                } else {
                    g.pixel_count() as int
                },
        ;
        self.encode_range(lo, hi)
    }
}

} // verus!
