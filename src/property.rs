//! The property-tag message codec: how a batch of property requests is laid
//! out as 32-bit words for the firmware, and how the firmware's answer is read
//! back from the message header.
use vstd::prelude::*;

verus! {

/// One property request understood by the firmware.
#[derive(Clone, Copy, Debug, PartialEq, Eq, Structural)]
pub enum PropertyMessage {
    AllocateBuffer(u32),
    ReleaseBuffer,
    GetPhysicalDimensions,
    SetPhysicalDimensions(u32, u32),
    GetVirtualDimensions,
    SetVirtualDimensions(u32, u32),
    GetBitsPerPixel,
    SetBitsPerPixel(u32),
    GetBytesPerRow,
}

/// Code carried in the second header word of a property message.
#[derive(Clone, Copy, Debug, PartialEq, Eq, Structural)]
pub enum BufferRequestResultCode {
    Request,
    ResponseSuccess,
    ResponseError,
}

pub const REQUEST_CODE: u32 = 0x0;

pub const RESPONSE_SUCCESS_CODE: u32 = 0x8000_0000;

pub const RESPONSE_ERROR_CODE: u32 = 0x8000_0001;

/// The tag that closes the list of tags in a message.
pub const END_TAG: u32 = 0;

impl PropertyMessage {
    /// Wire identifier of the tag.
    pub open spec fn spec_id(self) -> u32 {
        match self {
            PropertyMessage::AllocateBuffer(_) => 0x00040001,
            PropertyMessage::ReleaseBuffer => 0x00048001,
            PropertyMessage::GetPhysicalDimensions => 0x00040003,
            PropertyMessage::SetPhysicalDimensions(_, _) => 0x00048003,
            PropertyMessage::GetVirtualDimensions => 0x00040004,
            PropertyMessage::SetVirtualDimensions(_, _) => 0x00048004,
            PropertyMessage::GetBitsPerPixel => 0x00040005,
            PropertyMessage::SetBitsPerPixel(_) => 0x00048005,
            PropertyMessage::GetBytesPerRow => 0x00040008,
        }
    }

    /// Number of value words the tag reserves for its arguments and for the
    /// firmware's response: the layout table of the protocol.
    pub open spec fn spec_value_words(self) -> nat {
        match self {
            PropertyMessage::AllocateBuffer(_) => 2,
            PropertyMessage::ReleaseBuffer => 0,
            PropertyMessage::GetPhysicalDimensions => 2,
            PropertyMessage::SetPhysicalDimensions(_, _) => 2,
            PropertyMessage::GetVirtualDimensions => 2,
            PropertyMessage::SetVirtualDimensions(_, _) => 2,
            PropertyMessage::GetBitsPerPixel => 1,
            PropertyMessage::SetBitsPerPixel(_) => 1,
            PropertyMessage::GetBytesPerRow => 1,
        }
    }

    /// The request's value words, zero where the tag only asks.
    pub open spec fn spec_args(self) -> Seq<u32> {
        match self {
            PropertyMessage::AllocateBuffer(alignment) => seq![alignment, 0],
            PropertyMessage::ReleaseBuffer => seq![],
            PropertyMessage::GetPhysicalDimensions => seq![0, 0],
            PropertyMessage::SetPhysicalDimensions(x, y) => seq![x, y],
            PropertyMessage::GetVirtualDimensions => seq![0, 0],
            PropertyMessage::SetVirtualDimensions(x, y) => seq![x, y],
            PropertyMessage::GetBitsPerPixel => seq![0],
            PropertyMessage::SetBitsPerPixel(bits) => seq![bits],
            PropertyMessage::GetBytesPerRow => seq![0],
        }
    }

    /// The tag as it stands in a message: identifier, value-buffer size in
    /// bytes, request indicator (zero), then the value words.
    pub open spec fn spec_words(self) -> Seq<u32> {
        seq![self.spec_id(), (4 * self.spec_value_words()) as u32, 0] + self.spec_args()
    }

    pub fn id(&self) -> (r: u32)
        ensures
            r == self.spec_id(),
    {
        match self {
            PropertyMessage::AllocateBuffer(_) => 0x00040001,
            PropertyMessage::ReleaseBuffer => 0x00048001,
            PropertyMessage::GetPhysicalDimensions => 0x00040003,
            PropertyMessage::SetPhysicalDimensions(_, _) => 0x00048003,
            PropertyMessage::GetVirtualDimensions => 0x00040004,
            PropertyMessage::SetVirtualDimensions(_, _) => 0x00048004,
            PropertyMessage::GetBitsPerPixel => 0x00040005,
            PropertyMessage::SetBitsPerPixel(_) => 0x00048005,
            PropertyMessage::GetBytesPerRow => 0x00040008,
        }
    }

    pub fn value_words(&self) -> (r: usize)
        ensures
            r == self.spec_value_words(),
    {
        match self {
            PropertyMessage::AllocateBuffer(_) => 2,
            PropertyMessage::ReleaseBuffer => 0,
            PropertyMessage::GetPhysicalDimensions => 2,
            PropertyMessage::SetPhysicalDimensions(_, _) => 2,
            PropertyMessage::GetVirtualDimensions => 2,
            PropertyMessage::SetVirtualDimensions(_, _) => 2,
            PropertyMessage::GetBitsPerPixel => 1,
            PropertyMessage::SetBitsPerPixel(_) => 1,
            PropertyMessage::GetBytesPerRow => 1,
        }
    }

    /// Serialises the tag into its words.
    pub fn to_buffer(&self) -> (r: Vec<u32>)
        ensures
            r@ == self.spec_words(),
            r@.len() == 3 + self.spec_value_words(),
    {
        let id = self.id();
        let size = (4 * self.value_words()) as u32;
        let r = match self {
            PropertyMessage::AllocateBuffer(alignment) => vec![id, size, 0, *alignment, 0],
            PropertyMessage::ReleaseBuffer => vec![id, size, 0],
            PropertyMessage::GetPhysicalDimensions => vec![id, size, 0, 0, 0],
            PropertyMessage::SetPhysicalDimensions(x, y) => vec![id, size, 0, *x, *y],
            PropertyMessage::GetVirtualDimensions => vec![id, size, 0, 0, 0],
            PropertyMessage::SetVirtualDimensions(x, y) => vec![id, size, 0, *x, *y],
            PropertyMessage::GetBitsPerPixel => vec![id, size, 0, 0],
            PropertyMessage::SetBitsPerPixel(bits) => vec![id, size, 0, *bits],
            PropertyMessage::GetBytesPerRow => vec![id, size, 0, 0],
        };
        assert(r@ =~= self.spec_words());
        r
    }

    /// The words that close the tag list.
    pub fn get_end_buffer() -> (r: [u32; 1])
        ensures
            r@ == seq![END_TAG],
    {
        let r = [END_TAG];
        assert(r@ =~= seq![END_TAG]);
        r
    }
}

impl BufferRequestResultCode {
    pub open spec fn spec_code(self) -> u32 {
        match self {
            BufferRequestResultCode::Request => REQUEST_CODE,
            BufferRequestResultCode::ResponseSuccess => RESPONSE_SUCCESS_CODE,
            BufferRequestResultCode::ResponseError => RESPONSE_ERROR_CODE,
        }
    }

    /// The classification of a header code; `None` for a code outside the
    /// protocol.
    pub open spec fn spec_from_code(code: u32) -> Option<BufferRequestResultCode> {
        if code == REQUEST_CODE {
            Some(BufferRequestResultCode::Request)
        } else if code == RESPONSE_SUCCESS_CODE {
            Some(BufferRequestResultCode::ResponseSuccess)
        } else if code == RESPONSE_ERROR_CODE {
            Some(BufferRequestResultCode::ResponseError)
        } else {
            None
        }
    }

    pub fn code(&self) -> (r: u32)
        ensures
            r == self.spec_code(),
            Self::spec_from_code(r) == Some(*self),
    {
        match self {
            BufferRequestResultCode::Request => REQUEST_CODE,
            BufferRequestResultCode::ResponseSuccess => RESPONSE_SUCCESS_CODE,
            BufferRequestResultCode::ResponseError => RESPONSE_ERROR_CODE,
        }
    }

    /// Classifies a message by its second header word.
    pub fn from_buffer_data(data: &[u32]) -> (r: Option<Self>)
        requires
            data@.len() >= 2,
        ensures
            r == Self::spec_from_code(data@[1]),
    {
        let code = data[1];
        if code == REQUEST_CODE {
            Some(BufferRequestResultCode::Request)
        } else if code == RESPONSE_SUCCESS_CODE {
            Some(BufferRequestResultCode::ResponseSuccess)
        } else if code == RESPONSE_ERROR_CODE {
            Some(BufferRequestResultCode::ResponseError)
        } else {
            None
        }
    }
}

/// The words of a list of tags, one after the other.
pub open spec fn tags_words(tags: Seq<PropertyMessage>) -> Seq<u32>
    decreases tags.len(),
{
    if tags.len() == 0 {
        seq![]
    } else {
        tags_words(tags.drop_last()) + tags.last().spec_words()
    }
}

/// Zero words appended after the end tag so that the message, header
/// included, is a whole number of 16-byte blocks.
pub open spec fn padding_words(body_len: nat) -> nat {
    ((4 - (body_len + 2) % 4) % 4) as nat
}

/// Tags, end tag and padding: the message without its header.
pub open spec fn message_body(tags: Seq<PropertyMessage>) -> Seq<u32> {
    let listed = tags_words(tags).push(END_TAG);
    listed + Seq::new(padding_words(listed.len()), |i: int| 0u32)
}

/// The complete request message for a batch of tags.
pub open spec fn message_words(tags: Seq<PropertyMessage>) -> Seq<u32> {
    let body = message_body(tags);
    seq![(4 * (body.len() + 2)) as u32, REQUEST_CODE] + body
}

/// The byte length of the message for `tags` fits in its 32-bit length word.
pub open spec fn message_fits(tags: Seq<PropertyMessage>) -> bool {
    4 * (tags_words(tags).len() + 6) <= u32::MAX
}

/// Index, within the message for `tags`, of the first value word of tag `i`:
/// where the firmware's response for that tag is found.
pub open spec fn value_offset(tags: Seq<PropertyMessage>, i: int) -> int {
    2 + tags_words(tags.take(i)).len() as int + 3
}

pub proof fn lemma_tag_words_len(t: PropertyMessage)
    ensures
        t.spec_words().len() == 3 + t.spec_value_words(),
        t.spec_args().len() == t.spec_value_words(),
        t.spec_value_words() <= 2,
{
}

/// The words of two lists of tags put together are the words of each list,
/// put together.
pub proof fn lemma_tags_words_concat(a: Seq<PropertyMessage>, b: Seq<PropertyMessage>)
    ensures
        tags_words(a + b) == tags_words(a) + tags_words(b),
    decreases b.len(),
{
    if b.len() == 0 {
        assert(a + b =~= a);
        assert(tags_words(b) =~= seq![]);
        assert(tags_words(a) + tags_words(b) =~= tags_words(a));
    } else {
        let b0 = b.drop_last();
        lemma_tags_words_concat(a, b0);
        assert((a + b).drop_last() =~= a + b0);
        assert((a + b).last() == b.last());
        assert(tags_words(a + b) == tags_words(a + b0) + b.last().spec_words());
        assert(tags_words(a) + tags_words(b) =~= tags_words(a) + tags_words(b0)
            + b.last().spec_words());
    }
}

/// Each tag takes between three and five words.
pub proof fn lemma_tags_words_len(tags: Seq<PropertyMessage>)
    ensures
        3 * tags.len() <= tags_words(tags).len() <= 5 * tags.len(),
    decreases tags.len(),
{
    if tags.len() > 0 {
        lemma_tags_words_len(tags.drop_last());
        lemma_tag_words_len(tags.last());
    }
}

pub proof fn lemma_message_len(tags: Seq<PropertyMessage>)
    ensures
        message_body(tags).len() == tags_words(tags).len() + 1 + padding_words(
            tags_words(tags).len() + 1,
        ),
        message_words(tags).len() == message_body(tags).len() + 2,
        message_words(tags).len() % 4 == 0,
        message_words(tags).len() <= tags_words(tags).len() + 6,
{
}

/// The words of every tag of a batch, in order.
fn serialize_tags(properties: &[PropertyMessage]) -> (r: Vec<u32>)
    requires
        message_fits(properties@),
    ensures
        r@ == tags_words(properties@),
{
    let mut all_tags: Vec<u32> = Vec::new();
    let n = properties.len();
    proof {
        lemma_tags_words_len(properties@);
    }
    let mut i: usize = 0;
    while i < n
        invariant
            n == properties@.len(),
            0 <= i <= n,
            all_tags@ == tags_words(properties@.take(i as int)),
            message_fits(properties@),
        decreases n - i,
    {
        let mut tag = properties[i].to_buffer();
        proof {
            assert(properties@.take(i + 1).drop_last() =~= properties@.take(i as int));
            lemma_tags_words_concat(properties@.take(i + 1), properties@.skip(i + 1));
            assert(properties@.take(i + 1) + properties@.skip(i + 1) =~= properties@);
        }
        all_tags.append(&mut tag);
        i = i + 1;
    }
    assert(properties@.take(n as int) =~= properties@);
    all_tags
}

/// Appends `count` zero words.
fn push_zeros(words: &mut Vec<u32>, count: usize)
    requires
        old(words)@.len() + count <= usize::MAX,
    ensures
        final(words)@ == old(words)@ + Seq::new(count as nat, |i: int| 0u32),
{
    let mut k: usize = 0;
    while k < count
        invariant
            0 <= k <= count,
            old(words)@.len() + count <= usize::MAX,
            words@ == old(words)@ + Seq::new(k as nat, |i: int| 0u32),
        decreases count - k,
    {
        words.push(0);
        proof {
            assert(old(words)@ + Seq::new((k + 1) as nat, |i: int| 0u32) =~= (old(words)@
                + Seq::new(k as nat, |i: int| 0u32)).push(0));
        }
        k = k + 1;
    }
}

/// Serialises a batch of tags into a complete property message: the header
/// (byte length, request code), every tag's words, the end tag, and zero
/// padding up to a multiple of 16 bytes.
pub fn build_property_message_buffer(properties: &[PropertyMessage]) -> (r: Vec<u32>)
    requires
        message_fits(properties@),
    ensures
        r@ == message_words(properties@),
        r@[0] as int == 4 * r@.len(),
        (4 * r@.len()) % 16 == 0,
        r@[1] == REQUEST_CODE,
        r@[2 + tags_words(properties@).len() as int] == END_TAG,
{
    let mut all_tags = serialize_tags(properties);
    let ghost tw = all_tags@;
    let end = PropertyMessage::get_end_buffer();
    all_tags.push(end[0]);
    let listed = all_tags.len();
    let padding: usize = (4 - (listed + 2) % 4) % 4;
    push_zeros(&mut all_tags, padding);
    proof {
        lemma_message_len(properties@);
        assert(all_tags@ =~= message_body(properties@));
    }
    let length = ((all_tags.len() + 2) * 4) as u32;
    let mut r: Vec<u32> = vec![length, BufferRequestResultCode::Request.code()];
    r.append(&mut all_tags);
    assert(r@ =~= message_words(properties@));
    assert(r@[2 + tw.len() as int] == message_body(properties@)[tw.len() as int]);
    r
}

/// Index of the first value word of tag `index` within the message that
/// `build_property_message_buffer` makes of `properties`: where the response
/// for that tag is read.
pub fn response_offset(properties: &[PropertyMessage], index: usize) -> (r: usize)
    requires
        index < properties@.len(),
        message_fits(properties@),
    ensures
        r == value_offset(properties@, index as int),
        r + properties@[index as int].spec_value_words() < message_words(properties@).len(),
{
    proof {
        lemma_response_layout(properties@, index as int);
        lemma_tags_words_len(properties@);
    }
    let mut words: usize = 0;
    let mut i: usize = 0;
    while i < index
        invariant
            0 <= i <= index < properties@.len(),
            words == tags_words(properties@.take(i as int)).len(),
            message_fits(properties@),
        decreases index - i,
    {
        proof {
            assert(properties@.take(i + 1).drop_last() =~= properties@.take(i as int));
            lemma_tag_words_len(properties@[i as int]);
            lemma_tags_words_concat(properties@.take(i + 1), properties@.skip(i + 1));
            assert(properties@.take(i + 1) + properties@.skip(i + 1) =~= properties@);
        }
        words = words + 3 + properties[i].value_words();
        i = i + 1;
    }
    2 + words + 3
}

/// Serialising a batch and then reading tag `i`'s slot by the offset that the
/// layout table gives finds that tag again: its identifier, a value-buffer
/// size of four bytes per value word of its kind, the request indicator, and
/// exactly as many value words as its kind reserves, all before the end tag.
pub proof fn lemma_response_layout(tags: Seq<PropertyMessage>, i: int)
    requires
        0 <= i < tags.len(),
    ensures
        ({
            let m = message_words(tags);
            let off = value_offset(tags, i);
            &&& 5 <= off
            &&& off + tags[i].spec_value_words() <= 2 + tags_words(tags).len()
            &&& m.subrange(off - 3, off + tags[i].spec_value_words()) == tags[i].spec_words()
            &&& m[off - 3] == tags[i].spec_id()
            &&& m[off - 2] as int == 4 * tags[i].spec_value_words()
            &&& m.subrange(off, off + tags[i].spec_value_words()) == tags[i].spec_args()
        }),
{
    let m = message_words(tags);
    let off = value_offset(tags, i);
    let t = tags[i];
    lemma_tag_words_len(t);
    lemma_tags_words_concat(tags.take(i), tags.skip(i));
    assert(tags.take(i) + tags.skip(i) =~= tags);
    lemma_tags_words_concat(seq![t], tags.skip(i + 1));
    assert(seq![t] + tags.skip(i + 1) =~= tags.skip(i));
    assert(seq![t].drop_last() =~= Seq::<PropertyMessage>::empty());
    assert(seq![t].last() == t);
    assert(tags_words(Seq::<PropertyMessage>::empty()) =~= Seq::<u32>::empty());
    assert(tags_words(seq![t]) == tags_words(seq![t].drop_last()) + t.spec_words());
    assert(tags_words(seq![t]) =~= t.spec_words());
    let pre = tags_words(tags.take(i));
    let tw = tags_words(tags);
    assert(tw =~= pre + (t.spec_words() + tags_words(tags.skip(i + 1))));
    lemma_message_len(tags);
    assert forall|k: int| 0 <= k < t.spec_words().len() implies m[off - 3 + k]
        == t.spec_words()[k] by {
        assert(m[off - 3 + k] == tw[pre.len() + k]);
    }
    assert(m.subrange(off - 3, off + t.spec_value_words()) =~= t.spec_words());
    assert(m.subrange(off, off + t.spec_value_words()) =~= t.spec_args());
    assert((4 * t.spec_value_words()) as u32 as int == 4 * t.spec_value_words());
}

/// Classification reads the header code alone: two messages with the same
/// words are classified alike, and the three protocol codes are told apart.
pub proof fn lemma_classification_deterministic(a: Seq<u32>, b: Seq<u32>)
    requires
        a.len() >= 2,
        a == b,
    ensures
        BufferRequestResultCode::spec_from_code(a[1]) == BufferRequestResultCode::spec_from_code(
            b[1],
        ),
        BufferRequestResultCode::spec_from_code(REQUEST_CODE) == Some(
            BufferRequestResultCode::Request,
        ),
        BufferRequestResultCode::spec_from_code(RESPONSE_SUCCESS_CODE) == Some(
            BufferRequestResultCode::ResponseSuccess,
        ),
        BufferRequestResultCode::spec_from_code(RESPONSE_ERROR_CODE) == Some(
            BufferRequestResultCode::ResponseError,
        ),
        forall|c: u32|
            c != REQUEST_CODE && c != RESPONSE_SUCCESS_CODE && c != RESPONSE_ERROR_CODE
                ==> BufferRequestResultCode::spec_from_code(c) is None,
{
}

} // verus!
