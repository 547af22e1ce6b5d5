use raspi_gfx::mailbox::{mail_word, MailMessage, MailStatus, MailboxChannel};
use raspi_gfx::mem::{heap_end, heap_size, mailbox_heap_location};
use raspi_gfx::property::{
    build_property_message_buffer, response_offset, BufferRequestResultCode, PropertyMessage,
};

fn display_batch() -> Vec<PropertyMessage> {
    vec![
        PropertyMessage::SetPhysicalDimensions(640, 480),
        PropertyMessage::SetVirtualDimensions(640, 480),
        PropertyMessage::SetBitsPerPixel(24),
    ]
}

#[test]
fn tag_words_follow_layout_table() {
    assert_eq!(PropertyMessage::AllocateBuffer(16).to_buffer(), vec![0x00040001, 8, 0, 16, 0]);
    assert_eq!(PropertyMessage::ReleaseBuffer.to_buffer(), vec![0x00048001, 0, 0]);
    assert_eq!(PropertyMessage::GetPhysicalDimensions.to_buffer(), vec![0x00040003, 8, 0, 0, 0]);
    assert_eq!(
        PropertyMessage::SetPhysicalDimensions(640, 480).to_buffer(),
        vec![0x00048003, 8, 0, 640, 480]
    );
    assert_eq!(PropertyMessage::GetVirtualDimensions.to_buffer(), vec![0x00040004, 8, 0, 0, 0]);
    assert_eq!(
        PropertyMessage::SetVirtualDimensions(1, 2).to_buffer(),
        vec![0x00048004, 8, 0, 1, 2]
    );
    assert_eq!(PropertyMessage::GetBitsPerPixel.to_buffer(), vec![0x00040005, 4, 0, 0]);
    assert_eq!(PropertyMessage::SetBitsPerPixel(24).to_buffer(), vec![0x00048005, 4, 0, 24]);
    assert_eq!(PropertyMessage::GetBytesPerRow.to_buffer(), vec![0x00040008, 4, 0, 0]);
    assert_eq!(PropertyMessage::get_end_buffer(), [0]);
}

#[test]
fn display_batch_message() {
    let buffer = build_property_message_buffer(&display_batch());
    assert_eq!(
        buffer,
        vec![
            80, 0, 0x00048003, 8, 0, 640, 480, 0x00048004, 8, 0, 640, 480, 0x00048005, 4, 0, 24,
            0, 0, 0, 0
        ]
    );
}

#[test]
fn allocation_message_needs_no_padding() {
    let buffer = build_property_message_buffer(&[PropertyMessage::AllocateBuffer(16)]);
    assert_eq!(buffer, vec![32, 0, 0x00040001, 8, 0, 16, 0, 0]);
}

#[test]
fn empty_batch_message() {
    let buffer = build_property_message_buffer(&[]);
    assert_eq!(buffer, vec![16, 0, 0, 0]);
}

#[test]
fn length_word_matches_and_is_block_aligned() {
    let batches: Vec<Vec<PropertyMessage>> = vec![
        vec![],
        vec![PropertyMessage::ReleaseBuffer],
        vec![PropertyMessage::GetBitsPerPixel, PropertyMessage::GetBytesPerRow],
        display_batch(),
        vec![PropertyMessage::ReleaseBuffer, PropertyMessage::ReleaseBuffer],
    ];
    for batch in batches {
        let buffer = build_property_message_buffer(&batch);
        assert_eq!(buffer[0] as usize, buffer.len() * 4);
        assert_eq!((buffer.len() * 4) % 16, 0);
        let tag_words: usize = batch.iter().map(|t| t.to_buffer().len()).sum();
        assert_eq!(buffer[2 + tag_words], 0);
        assert!(buffer[2 + tag_words..].iter().all(|w| *w == 0));
    }
}

#[test]
fn response_offsets_find_each_tag() {
    let batch = display_batch();
    let buffer = build_property_message_buffer(&batch);
    assert_eq!(response_offset(&batch, 0), 5);
    assert_eq!(response_offset(&batch, 1), 10);
    assert_eq!(response_offset(&batch, 2), 15);
    for (i, tag) in batch.iter().enumerate() {
        let off = response_offset(&batch, i);
        assert_eq!(buffer[off - 3], tag.id());
        assert_eq!(buffer[off - 2] as usize, 4 * tag.value_words());
        assert_eq!(&buffer[off - 3..off + tag.value_words()], &tag.to_buffer()[..]);
    }
}

#[test]
fn result_codes_classify() {
    assert_eq!(
        BufferRequestResultCode::from_buffer_data(&[8, 0x0]),
        Some(BufferRequestResultCode::Request)
    );
    assert_eq!(
        BufferRequestResultCode::from_buffer_data(&[8, 0x8000_0000]),
        Some(BufferRequestResultCode::ResponseSuccess)
    );
    assert_eq!(
        BufferRequestResultCode::from_buffer_data(&[8, 0x8000_0001]),
        Some(BufferRequestResultCode::ResponseError)
    );
    assert_eq!(BufferRequestResultCode::from_buffer_data(&[8, 0x8000_0002]), None);
    assert_eq!(BufferRequestResultCode::from_buffer_data(&[8, 1]), None);
    let same = [16, 0x8000_0000, 0, 0];
    assert_eq!(
        BufferRequestResultCode::from_buffer_data(&same),
        BufferRequestResultCode::from_buffer_data(&same)
    );
    assert_eq!(BufferRequestResultCode::ResponseError.code(), 0x8000_0001);
}

#[test]
fn mail_words_split_into_channel_and_data() {
    let m = MailMessage::from(0x1234_5678u32);
    assert_eq!(m, MailMessage { channel: 8, data: 0x0123_4567 });
    assert_eq!(MailboxChannel::Property.number(), 8);
    assert_eq!(mail_word(0x0008_0010, MailboxChannel::Property), 0x0008_0018);
    let back = MailMessage::from(mail_word(0x0008_0010, MailboxChannel::Property));
    assert_eq!(back.channel, 8);
    assert_eq!(back.data, 0x0000_8001);
}

#[test]
fn status_flags() {
    assert_eq!(MailStatus::from(0u32), MailStatus { empty: false, full: false });
    assert_eq!(MailStatus::from(0x4000_0000u32), MailStatus { empty: true, full: false });
    assert_eq!(MailStatus::from(0x8000_0000u32), MailStatus { empty: false, full: true });
    assert_eq!(MailStatus::from(0xC000_00FFu32), MailStatus { empty: true, full: true });
    assert_eq!(MailStatus::from(0x3FFF_FFFFu32), MailStatus { empty: false, full: false });
}

#[test]
fn message_area_follows_heap() {
    assert_eq!(heap_size(), 128 * 1024 * 1024);
    assert_eq!(heap_end(0x8_0000), 0x808_0001);
    assert_eq!(mailbox_heap_location(0x8_0000), 0x808_0010);
    assert_eq!(mailbox_heap_location(0x8_000F), 0x808_0020);
    assert_eq!(mailbox_heap_location(0x7_FFFF), 0x808_0010);
    assert_eq!(mailbox_heap_location(0x8_0000) % 16, 0);
}
