//! The framebuffer compositor: a private working surface that every pixel
//! write goes to, published to the GPU-visible surface by one bulk copy.
use vstd::prelude::*;

verus! {

/// Why a surface could not be set up, or a pixel not written.
#[derive(Clone, Copy, Debug, PartialEq, Eq, Structural)]
pub enum FrameBufferError {
    /// Fewer than three bytes per pixel: an RGB value does not fit.
    UnsupportedDepth(u32),
    /// A row of pixels does not fit the 32-bit pitch.
    RowTooLong,
    /// The buffer the firmware allocated cannot hold the whole surface.
    BufferTooSmall,
    /// The pixel lies outside the surface.
    OutOfBounds,
}

/// The negotiated pixel surface.
pub struct FrameBuffer {
    bytes_per_pixel: usize,
    width: u32,
    height: u32,
    pitch: u32,
    buf: u32,
    buf_size: u32,
    working: Vec<u8>,
}

/// Byte offset of pixel `(x, y)` on a surface with the given pitch and pixel
/// size.
pub open spec fn pixel_offset(x: int, y: int, pitch: int, bytes_per_pixel: int) -> int {
    y * pitch + x * bytes_per_pixel
}

/// A surface after the three color bytes of one pixel were written at
/// `offset`.
pub open spec fn with_pixel(surface: Seq<u8>, offset: int, pixel: Seq<u8>) -> Seq<u8> {
    surface.update(offset, pixel[0]).update(offset + 1, pixel[1]).update(offset + 2, pixel[2])
}

/// The physical surface after the working surface was copied over it.
pub open spec fn presented(physical: Seq<u8>, working: Seq<u8>) -> Seq<u8> {
    working + physical.skip(working.len() as int)
}

/// A surface of `width` x `height` pixels of `depth` bits can be set up in a
/// buffer of `buf_size` bytes.
pub open spec fn surface_fits(width: u32, height: u32, depth: u32, buf_size: u32) -> bool {
    &&& depth / 8 >= 3
    &&& width * (depth / 8) <= u32::MAX
    &&& height * (width * (depth / 8)) <= buf_size
}

impl FrameBuffer {
    pub closed spec fn spec_width(&self) -> nat {
        self.width as nat
    }

    pub closed spec fn spec_height(&self) -> nat {
        self.height as nat
    }

    pub closed spec fn spec_pitch(&self) -> nat {
        self.pitch as nat
    }

    pub closed spec fn spec_bytes_per_pixel(&self) -> nat {
        self.bytes_per_pixel as nat
    }

    pub closed spec fn spec_buf(&self) -> nat {
        self.buf as nat
    }

    pub closed spec fn spec_buf_size(&self) -> nat {
        self.buf_size as nat
    }

    /// The working surface's bytes.
    pub closed spec fn view(&self) -> Seq<u8> {
        self.working@
    }

    /// The surface's geometry is consistent and its working surface has the
    /// size of the allocated buffer.
    pub open spec fn wf(&self) -> bool {
        &&& self.spec_bytes_per_pixel() >= 3
        &&& self.spec_pitch() == self.spec_width() * self.spec_bytes_per_pixel()
        &&& self.spec_height() * self.spec_pitch() <= self.spec_buf_size()
        &&& self@.len() == self.spec_buf_size()
    }

    /// Sets up the surface of `width` x `height` pixels of `depth` bits that
    /// the firmware allocated at `buf`, `buf_size` bytes long, with a zeroed
    /// working surface of the same size.
    pub fn new(width: u32, height: u32, depth: u32, buf: u32, buf_size: u32) -> (r: Result<
        FrameBuffer,
        FrameBufferError,
    >)
        ensures
            depth / 8 < 3 ==> r == Err::<FrameBuffer, FrameBufferError>(
                FrameBufferError::UnsupportedDepth(depth),
            ),
            depth / 8 >= 3 && width * (depth / 8) > u32::MAX ==> r == Err::<
                FrameBuffer,
                FrameBufferError,
            >(FrameBufferError::RowTooLong),
            depth / 8 >= 3 && width * (depth / 8) <= u32::MAX && height * (width * (depth / 8))
                > buf_size ==> r == Err::<FrameBuffer, FrameBufferError>(
                FrameBufferError::BufferTooSmall,
            ),
            surface_fits(width, height, depth, buf_size) <==> r is Ok,
            r matches Ok(fb) ==> {
                &&& fb.wf()
                &&& fb.spec_width() == width
                &&& fb.spec_height() == height
                &&& fb.spec_bytes_per_pixel() == depth / 8
                &&& fb.spec_pitch() == width * (depth / 8)
                &&& fb.spec_buf() == buf
                &&& fb.spec_buf_size() == buf_size
                &&& fb@ == Seq::new(buf_size as nat, |i: int| 0u8)
            },
    {
        let bytes = depth / 8;
        if bytes < 3 {
            return Err(FrameBufferError::UnsupportedDepth(depth));
        }
        assert((width as u64) * (bytes as u64) <= u32::MAX as u64 * u32::MAX as u64)
            by (nonlinear_arith)
            requires
                width <= u32::MAX,
                bytes <= u32::MAX,
        ;
        let row = (width as u64) * (bytes as u64);
        if row > u32::MAX as u64 {
            return Err(FrameBufferError::RowTooLong);
        }
        let pitch = row as u32;
        assert((height as u64) * (pitch as u64) <= u32::MAX as u64 * u32::MAX as u64)
            by (nonlinear_arith)
            requires
                pitch <= u32::MAX,
                height <= u32::MAX,
        ;
        if (height as u64) * (pitch as u64) > buf_size as u64 {
            return Err(FrameBufferError::BufferTooSmall);
        }
        let mut working: Vec<u8> = Vec::new();
        let mut i: u32 = 0;
        while i < buf_size
            invariant
                0 <= i <= buf_size,
                working@ == Seq::new(i as nat, |k: int| 0u8),
            decreases buf_size - i,
        {
            working.push(0);
            assert(working@ =~= Seq::new((i + 1) as nat, |k: int| 0u8));
            i = i + 1;
        }
        Ok(
            FrameBuffer {
                bytes_per_pixel: bytes as usize,
                width,
                height,
                pitch,
                buf,
                buf_size,
                working,
            },
        )
    }

    pub fn width(&self) -> (r: u32)
        ensures
            r == self.spec_width(),
    {
        self.width
    }

    pub fn height(&self) -> (r: u32)
        ensures
            r == self.spec_height(),
    {
        self.height
    }

    pub fn pitch(&self) -> (r: u32)
        ensures
            r == self.spec_pitch(),
    {
        self.pitch
    }

    pub fn bytes_per_pixel(&self) -> (r: usize)
        ensures
            r == self.spec_bytes_per_pixel(),
    {
        self.bytes_per_pixel
    }

    /// Address of the GPU-visible surface.
    pub fn buf(&self) -> (r: u32)
        ensures
            r == self.spec_buf(),
    {
        self.buf
    }

    /// Size in bytes of the GPU-visible surface, and of the working surface.
    pub fn buf_size(&self) -> (r: u32)
        ensures
            r == self.spec_buf_size(),
    {
        self.buf_size
    }

    /// Width and height in pixels.
    pub fn size(&self) -> (r: (u32, u32))
        ensures
            r == (self.spec_width() as u32, self.spec_height() as u32),
    {
        (self.width, self.height)
    }

    /// The working surface.
    pub fn working(&self) -> (r: &[u8])
        ensures
            r@ == self@,
    {
        self.working.as_slice()
    }

    /// Writes the three color bytes of `pixel` at `coord` = `[x, y]` on the
    /// working surface. A pixel outside the surface is refused and leaves the
    /// surface as it was.
    pub fn draw_pixel(&mut self, coord: [u32; 2], pixel: &[u8; 3]) -> (r: Result<
        (),
        FrameBufferError,
    >)
        requires
            old(self).wf(),
        ensures
            final(self).wf(),
            final(self).spec_width() == old(self).spec_width(),
            final(self).spec_height() == old(self).spec_height(),
            final(self).spec_pitch() == old(self).spec_pitch(),
            final(self).spec_bytes_per_pixel() == old(self).spec_bytes_per_pixel(),
            final(self).spec_buf() == old(self).spec_buf(),
            final(self).spec_buf_size() == old(self).spec_buf_size(),
            coord@[0] < old(self).spec_width() && coord@[1] < old(self).spec_height() ==> {
                &&& r is Ok
                &&& final(self)@ == with_pixel(
                    old(self)@,
                    pixel_offset(
                        coord@[0] as int,
                        coord@[1] as int,
                        old(self).spec_pitch() as int,
                        old(self).spec_bytes_per_pixel() as int,
                    ),
                    pixel@,
                )
            },
            !(coord@[0] < old(self).spec_width() && coord@[1] < old(self).spec_height()) ==> {
                &&& r == Err::<(), FrameBufferError>(FrameBufferError::OutOfBounds)
                &&& final(self)@ == old(self)@
            },
    {
        let x = coord[0];
        let y = coord[1];
        if x >= self.width || y >= self.height {
            return Err(FrameBufferError::OutOfBounds);
        }
        let bpp = self.bytes_per_pixel;
        let pitch = self.pitch as usize;
        proof {
            lemma_pixel_in_surface(
                x as int,
                y as int,
                self.width as int,
                self.height as int,
                bpp as int,
                pitch as int,
            );
        }
        let offset = (y as usize) * pitch + (x as usize) * bpp;
        self.working.set(offset, pixel[0]);
        self.working.set(offset + 1, pixel[1]);
        self.working.set(offset + 2, pixel[2]);
        Ok(())
    }

    /// Draws at signed coordinates, as rendering code hands them over: a
    /// negative coordinate is outside the surface like one past its end.
    pub fn draw_point(&mut self, x: i32, y: i32, pixel: &[u8; 3]) -> (r: Result<
        (),
        FrameBufferError,
    >)
        requires
            old(self).wf(),
        ensures
            final(self).wf(),
            final(self).spec_width() == old(self).spec_width(),
            final(self).spec_height() == old(self).spec_height(),
            final(self).spec_pitch() == old(self).spec_pitch(),
            final(self).spec_bytes_per_pixel() == old(self).spec_bytes_per_pixel(),
            final(self).spec_buf() == old(self).spec_buf(),
            final(self).spec_buf_size() == old(self).spec_buf_size(),
            0 <= x < old(self).spec_width() && 0 <= y < old(self).spec_height() ==> {
                &&& r is Ok
                &&& final(self)@ == with_pixel(
                    old(self)@,
                    pixel_offset(
                        x as int,
                        y as int,
                        old(self).spec_pitch() as int,
                        old(self).spec_bytes_per_pixel() as int,
                    ),
                    pixel@,
                )
            },
            !(0 <= x < old(self).spec_width() && 0 <= y < old(self).spec_height()) ==> {
                &&& r == Err::<(), FrameBufferError>(FrameBufferError::OutOfBounds)
                &&& final(self)@ == old(self)@
            },
    {
        if x < 0 || y < 0 {
            return Err(FrameBufferError::OutOfBounds);
        }
        self.draw_pixel([x as u32, y as u32], pixel)
    }

    /// Copies the working surface over the GPU-visible surface `physical`.
    pub fn present(&self, physical: &mut [u8])
        requires
            self.wf(),
            old(physical)@.len() >= self@.len(),
        ensures
            final(physical)@ == presented(old(physical)@, self@),
    {
        let n = self.working.len();
        let mut i: usize = 0;
        while i < n
            invariant
                n == self@.len(),
                0 <= i <= n,
                n <= old(physical)@.len(),
                physical@.len() == old(physical)@.len(),
                forall|k: int| 0 <= k < i ==> physical@[k] == self@[k],
                forall|k: int| n <= k < physical@.len() ==> physical@[k] == old(physical)@[k],
            decreases n - i,
        {
            physical[i] = self.working[i];
            i = i + 1;
        }
        assert(physical@ =~= presented(old(physical)@, self@));
    }
}

/// The three bytes of a pixel inside the surface lie inside its rows.
proof fn lemma_pixel_in_surface(x: int, y: int, width: int, height: int, bpp: int, pitch: int)
    requires
        0 <= x < width,
        0 <= y < height,
        bpp >= 3,
        pitch == width * bpp,
    ensures
        0 <= pixel_offset(x, y, pitch, bpp),
        pixel_offset(x, y, pitch, bpp) + 3 <= height * pitch,
        x * bpp + 3 <= pitch,
        y * pitch + pitch <= height * pitch,
{
    assert(x * bpp + bpp <= width * bpp) by (nonlinear_arith)
        requires
            x < width,
            bpp >= 3,
    ;
    assert(y * pitch + pitch <= height * pitch) by (nonlinear_arith)
        requires
            y < height,
            pitch >= 0,
    ;
    assert(0 <= y * pitch + x * bpp) by (nonlinear_arith)
        requires
            0 <= x,
            0 <= y,
            bpp >= 0,
            pitch >= 0,
    ;
}

/// A pixel write touches only the three bytes of its own pixel, which lie
/// inside the surface's rows; every other byte keeps its value.
pub proof fn lemma_pixel_stays_in_slot(
    surface: Seq<u8>,
    x: int,
    y: int,
    width: int,
    height: int,
    bpp: int,
    pixel: Seq<u8>,
)
    requires
        0 <= x < width,
        0 <= y < height,
        bpp >= 3,
        height * (width * bpp) <= surface.len(),
        pixel.len() == 3,
    ensures
        ({
            let off = pixel_offset(x, y, width * bpp, bpp);
            let after = with_pixel(surface, off, pixel);
            &&& 0 <= off
            &&& off + 3 <= height * (width * bpp)
            &&& after.len() == surface.len()
            &&& after.subrange(off, off + 3) == pixel
            &&& forall|k: int|
                0 <= k < surface.len() && !(off <= k < off + 3) ==> after[k] == surface[k]
        }),
{
    lemma_pixel_in_surface(x, y, width, height, bpp, width * bpp);
    let off = pixel_offset(x, y, width * bpp, bpp);
    assert(with_pixel(surface, off, pixel).subrange(off, off + 3) =~= pixel);
}

/// Presenting twice with no pixel written in between leaves the visible
/// surface as the first presentation left it.
pub proof fn lemma_present_idempotent(physical: Seq<u8>, working: Seq<u8>)
    requires
        physical.len() >= working.len(),
    ensures
        presented(presented(physical, working), working) == presented(physical, working),
        presented(physical, working).len() == physical.len(),
        presented(physical, working).take(working.len() as int) == working,
{
    let once = presented(physical, working);
    assert(once.skip(working.len() as int) =~= physical.skip(working.len() as int));
    assert(presented(once, working) =~= once);
    assert(once.take(working.len() as int) =~= working);
}

} // verus!
