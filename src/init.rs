//! Framebuffer negotiation: the two property batches sent at start-up and the
//! surface built from the firmware's responses.
use vstd::prelude::*;
use crate::framebuffer::{surface_fits, FrameBuffer, FrameBufferError};
use crate::property::{message_fits, response_offset, tags_words, value_offset, PropertyMessage};

verus! {

pub const SCREEN_WIDTH: u32 = 640;

pub const SCREEN_HEIGHT: u32 = 480;

pub const COLOR_DEPTH: u32 = 24;

/// Alignment in bytes asked of the allocated framebuffer.
pub const BUFFER_ALIGNMENT: u32 = 16;

/// Why the framebuffer could not be set up from the firmware's responses.
#[derive(Clone, Copy, Debug, PartialEq, Eq, Structural)]
pub enum InitError {
    /// A response holds fewer words than its request.
    ResponseTooShort,
    /// The negotiated geometry does not make a surface.
    Surface(FrameBufferError),
}

pub open spec fn spec_display_request() -> Seq<PropertyMessage> {
    seq![
        PropertyMessage::SetPhysicalDimensions(SCREEN_WIDTH, SCREEN_HEIGHT),
        PropertyMessage::SetVirtualDimensions(SCREEN_WIDTH, SCREEN_HEIGHT),
        PropertyMessage::SetBitsPerPixel(COLOR_DEPTH),
    ]
}

pub open spec fn spec_allocation_request() -> Seq<PropertyMessage> {
    seq![PropertyMessage::AllocateBuffer(BUFFER_ALIGNMENT)]
}

/// The first batch: physical and virtual dimensions and color depth.
pub fn display_request() -> (r: Vec<PropertyMessage>)
    ensures
        r@ == spec_display_request(),
        message_fits(r@),
{
    let r = vec![
        PropertyMessage::SetPhysicalDimensions(SCREEN_WIDTH, SCREEN_HEIGHT),
        PropertyMessage::SetVirtualDimensions(SCREEN_WIDTH, SCREEN_HEIGHT),
        PropertyMessage::SetBitsPerPixel(COLOR_DEPTH),
    ];
    proof {
        assert(r@ =~= spec_display_request());
        crate::property::lemma_tags_words_len(r@);
    }
    r
}

/// The second batch: the allocation of the framebuffer.
pub fn allocation_request() -> (r: Vec<PropertyMessage>)
    ensures
        r@ == spec_allocation_request(),
        message_fits(r@),
{
    let r = vec![PropertyMessage::AllocateBuffer(BUFFER_ALIGNMENT)];
    proof {
        assert(r@ =~= spec_allocation_request());
        crate::property::lemma_tags_words_len(r@);
    }
    r
}

/// The first tag of a batch has its value words right after the header and
/// the tag's own three words.
proof fn lemma_first_value_offset(tags: Seq<PropertyMessage>)
    requires
        tags.len() > 0,
    ensures
        value_offset(tags, 0) == 5,
{
    assert(tags.take(0) =~= Seq::<PropertyMessage>::empty());
    assert(tags_words(tags.take(0)) =~= Seq::<u32>::empty());
}

/// Builds the framebuffer from the firmware's answers to `display_request`
/// (`dimensions`) and to `allocation_request` (`allocation`): the width and
/// height answered for the first tag, the base address and size answered for
/// the allocation.
pub fn init_fb(dimensions: &[u32], allocation: &[u32]) -> (r: Result<FrameBuffer, InitError>)
    ensures
        dimensions@.len() < 7 || allocation@.len() < 7 ==> r == Err::<FrameBuffer, InitError>(
            InitError::ResponseTooShort,
        ),
        dimensions@.len() >= 7 && allocation@.len() >= 7 ==> {
            let width = dimensions@[5];
            let height = dimensions@[6];
            let buf = allocation@[5];
            let size = allocation@[6];
            &&& r is Ok <==> surface_fits(width, height, COLOR_DEPTH, size)
            &&& r matches Ok(fb) ==> {
                &&& fb.wf()
                &&& fb.spec_width() == width
                &&& fb.spec_height() == height
                &&& fb.spec_bytes_per_pixel() == COLOR_DEPTH / 8
                &&& fb.spec_pitch() == width * (COLOR_DEPTH / 8)
                &&& fb.spec_buf() == buf
                &&& fb.spec_buf_size() == size
                &&& fb@ == Seq::new(size as nat, |i: int| 0u8)
            }
        },
{
    let display = display_request();
    let alloc = allocation_request();
    let dim_at = response_offset(display.as_slice(), 0);
    let alloc_at = response_offset(alloc.as_slice(), 0);
    proof {
        lemma_first_value_offset(display@);
        lemma_first_value_offset(alloc@);
    }
    if dimensions.len() <= dim_at + 1 || allocation.len() <= alloc_at + 1 {
        return Err(InitError::ResponseTooShort);
    }
    match FrameBuffer::new(
        dimensions[dim_at],
        dimensions[dim_at + 1],
        COLOR_DEPTH,
        allocation[alloc_at],
        allocation[alloc_at + 1],
    ) {
        Ok(fb) => Ok(fb),
        Err(e) => Err(InitError::Surface(e)),
    }
}

} // verus!
