use vstd::prelude::*;

verus! {

/// A dimension of at least one pixel.
pub open spec fn at_least_one(v: u32) -> u32 {
    if v < 1 { 1 } else { v }
}

/// The number of bytes of an RGBA frame.
pub open spec fn frame_len(width: u32, height: u32) -> int {
    width * height * 4
}

/// The size of the surface the mascot is drawn on; never zero in either dimension.
#[derive(Debug, Clone, Copy)]
pub struct RendererContext {
    width: u32,
    height: u32,
}

impl RendererContext {
    pub closed spec fn size(&self) -> (u32, u32) {
        (self.width, self.height)
    }

    pub fn new(width: u32, height: u32) -> (r: Self)
        ensures
            r.size() == (at_least_one(width), at_least_one(height)),
    {
        RendererContext { width: width.max(1), height: height.max(1) }
    }

    pub fn resize(&mut self, width: u32, height: u32)
        ensures
            final(self).size() == (at_least_one(width), at_least_one(height)),
    {
        self.width = width.max(1);
        self.height = height.max(1);
    }

    pub fn dimensions(&self) -> (r: (u32, u32))
        ensures
            r == self.size(),
    {
        (self.width, self.height)
    }
}

/// An RGBA frame of the software renderer, with a revision that counts the frames drawn.
#[derive(Debug)]
pub struct FrameBuffer {
    width: u32,
    height: u32,
    rgba: Vec<u8>,
    revision: u64,
}

pub struct FrameView {
    pub width: u32,
    pub height: u32,
    pub rgba: Seq<u8>,
    pub revision: u64,
}

impl View for FrameBuffer {
    type V = FrameView;

    closed spec fn view(&self) -> FrameView {
        FrameView { width: self.width, height: self.height, rgba: self.rgba@, revision: self.revision }
    }
}

/// The byte at which pixel (x, y) of a frame `width` pixels wide starts.
pub open spec fn pixel_index(width: u32, x: u32, y: u32) -> int {
    (y * width + x) * 4
}

proof fn lemma_pixel_in_frame(width: u32, height: u32, x: u32, y: u32)
    requires
        x < width,
        y < height,
    ensures
        0 <= y * width,
        y * width + x < width * height,
        0 <= pixel_index(width, x, y),
        pixel_index(width, x, y) + 4 <= frame_len(width, height),
{
    assert(0 <= y * width) by (nonlinear_arith);
    assert(y * width + x < width * height) by (nonlinear_arith)
        requires x < width, y < height;
    assert(0 <= (y * width + x) * 4) by (nonlinear_arith)
        requires x < width, y < height;
    assert((y * width + x) * 4 + 4 <= width * height * 4) by (nonlinear_arith)
        requires x < width, y < height;
}

/// A sequence of `n` zero bytes.
pub open spec fn zeros(n: int) -> Seq<u8> {
    Seq::new(n as nat, |i: int| 0u8)
}

fn zero_bytes(n: usize) -> (r: Vec<u8>)
    ensures
        r@ == zeros(n as int),
{
    let mut v: Vec<u8> = Vec::new();
    while v.len() < n
        invariant
            v.len() <= n,
            v@ == zeros(v.len() as int),
        decreases n - v.len(),
    {
        v.push(0);
        assert(v@ =~= zeros(v.len() as int));
    }
    v
}

impl FrameBuffer {
    /// The bytes match the dimensions, and neither dimension is zero.
    pub closed spec fn wf(&self) -> bool {
        &&& self.width >= 1
        &&& self.height >= 1
        &&& self.rgba@.len() == frame_len(self.width, self.height)
    }

    /// A cleared frame of the given size, at least one pixel in each dimension.
    pub fn new(width: u32, height: u32) -> (r: Self)
        requires
            frame_len(at_least_one(width), at_least_one(height)) <= usize::MAX,
        ensures
            r.wf(),
            r@ == (FrameView {
                width: at_least_one(width),
                height: at_least_one(height),
                rgba: zeros(frame_len(at_least_one(width), at_least_one(height))),
                revision: 0,
            }),
    {
        let width = width.max(1);
        let height = height.max(1);
        assert(width * height * 4 <= usize::MAX);
        let len = (width as usize) * (height as usize) * 4;
        FrameBuffer { width, height, rgba: zero_bytes(len), revision: 0 }
    }

    /// Resizes the frame; the bytes it had are kept from the start, and new bytes are zero.
    pub fn resize(&mut self, width: u32, height: u32)
        requires
            old(self).wf(),
            frame_len(at_least_one(width), at_least_one(height)) <= usize::MAX,
        ensures
            final(self).wf(),
            final(self)@.width == at_least_one(width),
            final(self)@.height == at_least_one(height),
            final(self)@.revision == old(self)@.revision,
            (old(self)@.width, old(self)@.height) == (at_least_one(width), at_least_one(height))
                ==> final(self)@ == old(self)@,
            final(self)@.rgba.len() == frame_len(at_least_one(width), at_least_one(height)),
            forall|i: int| 0 <= i < final(self)@.rgba.len() ==> #[trigger] final(self)@.rgba[i]
                == if i < old(self)@.rgba.len() { old(self)@.rgba[i] } else { 0u8 },
    {
        let next_width = width.max(1);
        let next_height = height.max(1);
        if self.width == next_width && self.height == next_height {
            return;
        }
        self.width = next_width;
        self.height = next_height;
        assert(next_width * next_height * 4 <= usize::MAX);
        let len = (next_width as usize) * (next_height as usize) * 4;
        let ghost before = self.rgba@;
        if len < self.rgba.len() {
            self.rgba.truncate(len);
        } else {
            while self.rgba.len() < len
                invariant
                    before.len() <= self.rgba.len() <= len,
                    self.width == next_width,
                    self.height == next_height,
                    self.revision == old(self).revision,
                    forall|i: int| 0 <= i < self.rgba@.len() ==> #[trigger] self.rgba@[i]
                        == if i < before.len() { before[i] } else { 0u8 },
                decreases len - self.rgba.len(),
            {
                self.rgba.push(0);
            }
        }
    }

    /// Sets every byte to zero.
    pub fn clear(&mut self)
        requires
            old(self).wf(),
        ensures
            final(self).wf(),
            final(self)@ == (FrameView { rgba: zeros(old(self)@.rgba.len() as int), ..old(self)@ }),
    {
        let mut i: usize = 0;
        while i < self.rgba.len()
            invariant
                i <= self.rgba.len(),
                self.rgba@.len() == old(self)@.rgba.len(),
                self.width == old(self).width,
                self.height == old(self).height,
                self.revision == old(self).revision,
                forall|j: int| 0 <= j < i ==> #[trigger] self.rgba@[j] == 0u8,
            decreases self.rgba.len() - i,
        {
            self.rgba.set(i, 0);
            i += 1;
        }
        assert(self.rgba@ =~= zeros(old(self)@.rgba.len() as int));
    }

    pub fn dimensions(&self) -> (r: (u32, u32))
        ensures
            r == (self@.width, self@.height),
    {
        (self.width, self.height)
    }

    pub fn pixels(&self) -> (r: &[u8])
        ensures
            r@ == self@.rgba,
    {
        self.rgba.as_slice()
    }

    /// One more frame drawn (saturating).
    pub fn increment_revision(&mut self)
        ensures
            final(self)@ == (FrameView {
                revision: if old(self)@.revision < u64::MAX { (old(self)@.revision + 1) as u64 } else { u64::MAX },
                ..old(self)@
            }),
            final(self).wf() == old(self).wf(),
    {
        self.revision = self.revision.saturating_add(1);
    }

    pub fn revision(&self) -> (r: u64)
        ensures
            r == self@.revision,
    {
        self.revision
    }

    /// The red, green, blue and alpha bytes of pixel (x, y).
    pub fn pixel(&self, x: u32, y: u32) -> (r: [u8; 4])
        requires
            self.wf(),
            x < self@.width,
            y < self@.height,
        ensures
            ({
                let i = pixel_index(self@.width, x, y);
                r@ == self@.rgba.subrange(i, i + 4)
            }),
    {
        let n = self.rgba.len();
        proof {
            lemma_pixel_in_frame(self.width, self.height, x, y);
        }
        let i = ((y as usize) * (self.width as usize) + (x as usize)) * 4;
        let r = [self.rgba[i], self.rgba[i + 1], self.rgba[i + 2], self.rgba[i + 3]];
        assert(r@ =~= self@.rgba.subrange(i as int, i + 4));
        r
    }

    /// Writes the red, green, blue and alpha bytes of pixel (x, y).
    pub fn set_pixel(&mut self, x: u32, y: u32, rgba: [u8; 4])
        requires
            old(self).wf(),
            x < old(self)@.width,
            y < old(self)@.height,
        ensures
            final(self).wf(),
            ({
                let i = pixel_index(old(self)@.width, x, y);
                final(self)@ == (FrameView {
                    rgba: old(self)@.rgba.update(i, rgba[0]).update(i + 1, rgba[1]).update(i + 2, rgba[2])
                        .update(i + 3, rgba[3]),
                    ..old(self)@
                })
            }),
    {
        let n = self.rgba.len();
        proof {
            lemma_pixel_in_frame(self.width, self.height, x, y);
        }
        let i = ((y as usize) * (self.width as usize) + (x as usize)) * 4;
        self.rgba.set(i, rgba[0]);
        self.rgba.set(i + 1, rgba[1]);
        self.rgba.set(i + 2, rgba[2]);
        self.rgba.set(i + 3, rgba[3]);
    }
}

/// The byte a row-major image of `stride` bytes per row and `height` rows holds at `i`
/// once the rows `0..k` and their mirrors `height - 1 - r` are swapped.
pub open spec fn row_flipped(old: Seq<u8>, stride: int, height: int, k: int, r: int, c: int) -> u8 {
    if r < k || r >= height - k { old[(height - 1 - r) * stride + c] } else { old[r * stride + c] }
}

proof fn lemma_row_offsets(r1: int, c1: int, r2: int, c2: int, s: int)
    requires
        0 <= c1 < s,
        0 <= c2 < s,
        0 <= r1,
        0 <= r2,
    ensures
        (r1 * s + c1 == r2 * s + c2) <==> (r1 == r2 && c1 == c2),
        r1 < r2 ==> r1 * s + c1 < r2 * s + c2,
{
    if r1 < r2 {
        assert(r1 * s + s <= r2 * s) by (nonlinear_arith)
            requires r1 < r2, 0 <= s;
    } else if r2 < r1 {
        assert(r2 * s + s <= r1 * s) by (nonlinear_arith)
            requires r2 < r1, 0 <= s;
    }
}

proof fn lemma_row_in_image(r: int, c: int, s: int, h: int)
    requires
        0 <= r < h,
        0 <= c < s,
    ensures
        0 <= r * s + c < h * s,
        0 <= r * s,
        h * s == s * h,
{
    assert(h * s == s * h) by (nonlinear_arith);
    assert(0 <= r * s) by (nonlinear_arith)
        requires 0 <= r, 0 <= s;
    assert(r * s + s <= h * s) by (nonlinear_arith)
        requires r < h, 0 <= s;
}

/// Turns a row-major RGBA image upside down: row `r` takes the bytes of row
/// `height - 1 - r`; bytes past the image stay.
pub fn flip_rows(rgba: &mut Vec<u8>, width: usize, height: usize)
    requires
        width * 4 <= usize::MAX,
        width * 4 * height <= old(rgba)@.len(),
    ensures
        final(rgba)@.len() == old(rgba)@.len(),
        forall|r: int, c: int| 0 <= r < height && 0 <= c < width * 4
            ==> #[trigger] final(rgba)@[r * (width * 4) + c] == old(rgba)@[(height - 1 - r) * (width * 4) + c],
        forall|i: int| width * 4 * height <= i < final(rgba)@.len() ==> #[trigger] final(rgba)@[i] == old(rgba)@[i],
{
    let stride = width * 4;
    let total = rgba.len();
    if stride == 0 {
        return;
    }
    let ghost s = stride as int;
    let ghost h = height as int;
    let ghost old_bytes = rgba@;
    let half = height / 2;
    let mut y: usize = 0;
    while y < half
        invariant
            s == stride as int,
            h == height as int,
            half == height / 2,
            y <= half,
            stride > 0,
            total == old_bytes.len(),
            stride * height <= old_bytes.len(),
            rgba@.len() == old_bytes.len(),
            forall|r: int, c: int| 0 <= r < h && 0 <= c < s
                ==> #[trigger] rgba@[r * s + c] == row_flipped(old_bytes, s, h, y as int, r, c),
            forall|i: int| s * h <= i < rgba@.len() ==> #[trigger] rgba@[i] == old_bytes[i],
        decreases half - y,
    {
        let bottom_row = height - y - 1;
        proof {
            lemma_row_in_image(y as int, 0, s, h);
            lemma_row_in_image(bottom_row as int, 0, s, h);
            assert(y * stride <= stride * height) by (nonlinear_arith)
                requires y < height, stride > 0;
            assert(bottom_row * stride <= stride * height) by (nonlinear_arith)
                requires bottom_row < height, stride > 0;
        }
        let top = y * stride;
        let bottom = bottom_row * stride;
        let ghost before_row = rgba@;
        let mut x: usize = 0;
        while x < stride
            invariant
                s == stride as int,
                h == height as int,
                y < half,
                half == height / 2,
                bottom_row == height - y - 1,
                top == y * s,
                bottom == bottom_row * s,
                x <= stride,
                stride > 0,
                total == old_bytes.len(),
                stride * height <= old_bytes.len(),
                rgba@.len() == old_bytes.len(),
                before_row.len() == old_bytes.len(),
                forall|r: int, c: int| 0 <= r < h && 0 <= c < s
                    ==> #[trigger] before_row[r * s + c] == row_flipped(old_bytes, s, h, y as int, r, c),
                forall|i: int| s * h <= i < before_row.len() ==> #[trigger] before_row[i] == old_bytes[i],
                forall|r: int, c: int| 0 <= r < h && 0 <= c < s ==> #[trigger] rgba@[r * s + c] == (
                    if r == y && c < x { before_row[bottom + c] }
                    else if r == bottom_row && c < x { before_row[top + c] }
                    else { before_row[r * s + c] }),
                forall|i: int| s * h <= i < rgba@.len() ==> #[trigger] rgba@[i] == before_row[i],
            decreases stride - x,
        {
            proof {
                lemma_row_in_image(y as int, x as int, s, h);
                lemma_row_in_image(bottom_row as int, x as int, s, h);
            }
            let a = rgba[top + x];
            let b = rgba[bottom + x];
            let ghost prev = rgba@;
            rgba.set(top + x, b);
            rgba.set(bottom + x, a);
            proof {
                assert forall|r: int, c: int| 0 <= r < h && 0 <= c < s implies #[trigger] rgba@[r * s + c] == (
                    if r == y && c < x + 1 { before_row[bottom + c] }
                    else if r == bottom_row && c < x + 1 { before_row[top + c] }
                    else { before_row[r * s + c] }) by {
                    lemma_row_offsets(r, c, y as int, x as int, s);
                    lemma_row_offsets(r, c, bottom_row as int, x as int, s);
                    lemma_row_in_image(r, c, s, h);
                    assert(prev[r * s + c] == (
                        if r == y && c < x { before_row[bottom + c] }
                        else if r == bottom_row && c < x { before_row[top + c] }
                        else { before_row[r * s + c] }));
                }
                assert forall|i: int| s * h <= i < rgba@.len() implies #[trigger] rgba@[i] == before_row[i] by {
                    assert(prev[i] == before_row[i]);
                }
            }
            x += 1;
        }
        proof {
            assert forall|r: int, c: int| 0 <= r < h && 0 <= c < s
                implies #[trigger] rgba@[r * s + c] == row_flipped(old_bytes, s, h, y + 1, r, c) by {
                lemma_row_in_image(y as int, c, s, h);
                lemma_row_in_image(bottom_row as int, c, s, h);
                assert(before_row[(y as int) * s + c] == row_flipped(old_bytes, s, h, y as int, y as int, c));
                assert(before_row[(bottom_row as int) * s + c] == row_flipped(old_bytes, s, h, y as int, bottom_row as int, c));
                assert(before_row[r * s + c] == row_flipped(old_bytes, s, h, y as int, r, c));
            }
        }
        y += 1;
    }
    proof {
        assert forall|r: int, c: int| 0 <= r < h && 0 <= c < s
            implies #[trigger] rgba@[r * s + c] == old_bytes[(h - 1 - r) * s + c] by {
            assert(rgba@[r * s + c] == row_flipped(old_bytes, s, h, half as int, r, c));
            if !(r < half || r >= h - half) {
                assert(r == h - 1 - r);
            }
        }
    }
}

/// Why the mascot renderer could not do what it was asked.
#[derive(Debug, Clone, PartialEq, Eq)]
pub enum MascotError {
    ModelNotFound(String),
    NativeContext(String),
    NativeFfi(String),
    NativeBackendUnavailable,
}

/// The message of an error.
pub open spec fn error_text(e: MascotError) -> Seq<char> {
    match e {
        MascotError::ModelNotFound(path) => "mascot model was not found: "@ + path@,
        MascotError::NativeContext(m) => "failed to initialize native OpenGL backend: "@ + m@,
        MascotError::NativeFfi(m) => "inochi2d native call failed: "@ + m@,
        MascotError::NativeBackendUnavailable => "native inochi2d backend is not available in this build"@,
    }
}

impl MascotError {
    pub fn message(&self) -> (r: String)
        ensures
            r@ == error_text(*self),
    {
        match self {
            MascotError::ModelNotFound(path) => {
                let mut m = "mascot model was not found: ".to_owned();
                m.append(path.as_str());
                m
            },
            MascotError::NativeContext(detail) => {
                let mut m = "failed to initialize native OpenGL backend: ".to_owned();
                m.append(detail.as_str());
                m
            },
            MascotError::NativeFfi(detail) => {
                let mut m = "inochi2d native call failed: ".to_owned();
                m.append(detail.as_str());
                m
            },
            MascotError::NativeBackendUnavailable => "native inochi2d backend is not available in this build".to_owned(),
        }
    }
}

// ---------------------------------------------------------------------------
// Redrawing.

/// Whether the puppet has to be drawn again: a change of its parameters asks for a new
/// frame, and drawing one settles the request.
#[derive(Debug)]
pub struct RedrawGate {
    dirty: bool,
}

impl View for RedrawGate {
    type V = bool;

    closed spec fn view(&self) -> bool {
        self.dirty
    }
}

impl RedrawGate {
    /// A new puppet is drawn once at the start.
    pub fn new() -> (r: Self)
        ensures
            r@,
    {
        RedrawGate { dirty: true }
    }

    pub fn mark_dirty(&mut self)
        ensures
            final(self)@,
    {
        self.dirty = true;
    }

    /// Notes a parameter update: a change asks for a new frame.
    pub fn note_change(&mut self, changed: bool)
        ensures
            final(self)@ == (old(self)@ || changed),
    {
        if changed {
            self.dirty = true;
        }
    }

    /// Starts a frame when one is asked for: clears it and settles the request. Nothing
    /// happens otherwise.
    pub fn begin_frame(&mut self, frame: &mut FrameBuffer) -> (r: bool)
        requires
            old(frame).wf(),
        ensures
            r == old(self)@,
            !final(self)@,
            final(frame).wf(),
            r ==> final(frame)@ == (FrameView { rgba: zeros(old(frame)@.rgba.len() as int), ..old(frame)@ }),
            !r ==> final(frame)@ == old(frame)@,
    {
        if !self.dirty {
            return false;
        }
        self.dirty = false;
        frame.clear();
        true
    }
}

// ---------------------------------------------------------------------------
// Layered-window pixels.

/// The four bytes of pixel `i`.
pub open spec fn pixel(bytes: Seq<u8>, i: int) -> (u8, u8, u8, u8) {
    (bytes[4 * i], bytes[4 * i + 1], bytes[4 * i + 2], bytes[4 * i + 3])
}

/// An RGBA pixel as premultiplied BGRA: each colour channel scaled by alpha / 255
/// (rounded down), blue first, alpha kept.
pub open spec fn premultiplied_pixel(rgba: (u8, u8, u8, u8)) -> (u8, u8, u8, u8) {
    let (r, g, b, a) = rgba;
    ((b * a / 255) as u8, (g * a / 255) as u8, (r * a / 255) as u8, a)
}

fn scaled(channel: u8, alpha: u8) -> (r: u8)
    ensures
        r == channel * alpha / 255,
{
    assert((channel as u32) * (alpha as u32) <= 65025) by (nonlinear_arith)
        requires
            channel <= 255,
            alpha <= 255,
    ;
    let product = (channel as u32) * (alpha as u32);
    assert(product / 255 <= 255) by (nonlinear_arith)
        requires
            product == channel * alpha,
            channel <= 255,
            alpha <= 255,
    ;
    (product / 255) as u8
}

/// The first `pixel_count` pixels of an RGBA frame as premultiplied BGRA, the layout a
/// layered window takes.
pub fn premultiplied_bgra(rgba: &[u8], pixel_count: usize) -> (r: Vec<u8>)
    requires
        rgba@.len() >= 4 * pixel_count,
    ensures
        r@.len() == 4 * pixel_count,
        forall|i: int| 0 <= i < pixel_count ==> #[trigger] pixel(r@, i) == premultiplied_pixel(pixel(rgba@, i)),
{
    let total = rgba.len();
    let mut out: Vec<u8> = Vec::new();
    let mut index: usize = 0;
    while index < pixel_count
        invariant
            total == rgba@.len(),
            index <= pixel_count,
            rgba@.len() >= 4 * pixel_count,
            out@.len() == 4 * index,
            forall|i: int| 0 <= i < index ==> #[trigger] pixel(out@, i) == premultiplied_pixel(pixel(rgba@, i)),
        decreases pixel_count - index,
    {
        assert(4 * index + 3 < rgba@.len()) by (nonlinear_arith)
            requires
                index < pixel_count,
                rgba@.len() >= 4 * pixel_count,
        ;
        let src = index * 4;
        let red = rgba[src];
        let green = rgba[src + 1];
        let blue = rgba[src + 2];
        let alpha = rgba[src + 3];
        let ghost before = out@;
        out.push(scaled(blue, alpha));
        out.push(scaled(green, alpha));
        out.push(scaled(red, alpha));
        out.push(alpha);
        proof {
            assert forall|i: int| 0 <= i < index + 1 implies #[trigger] pixel(out@, i) == premultiplied_pixel(pixel(rgba@, i)) by {
                if i < index {
                    assert(pixel(out@, i) == pixel(before, i));
                } else {
                    assert(pixel(rgba@, i) == (red, green, blue, alpha));
                }
            }
        }
        index += 1;
    }
    out
}

} // verus!
