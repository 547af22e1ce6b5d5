use raspi_gfx::exchange::{
    classify_response, ExchangeError, MailboxAction, MailboxEvent, PropertyExchange, WaitPolicy,
};
use raspi_gfx::init::{allocation_request, display_request, init_fb, InitError};
use raspi_gfx::framebuffer::FrameBufferError;
use raspi_gfx::property::{response_offset, PropertyMessage};

const SCRATCH: u32 = 0x0808_0010;

/// Drives one exchange against a firmware stand-in: the mailbox is never busy,
/// and `respond` turns the request message into the message read back.
fn run_exchange(
    tags: &[PropertyMessage],
    policy: WaitPolicy,
    status: u32,
    respond: impl Fn(&[u32]) -> Vec<u32>,
) -> Result<Vec<u32>, ExchangeError> {
    let mut exchange = PropertyExchange::new(tags, SCRATCH, policy);
    let mut action = MailboxAction::ReadStatus;
    let mut shared: Vec<u32> = Vec::new();
    let mut written: u32 = 0;
    loop {
        let event = match action {
            MailboxAction::ReadStatus => MailboxEvent::Status(status),
            MailboxAction::Send(word) => {
                written = word;
                shared = respond(&exchange.message);
                MailboxEvent::Sent
            }
            MailboxAction::ReadData => MailboxEvent::Data(written),
            MailboxAction::ReadResponse(n) => {
                assert_eq!(n, shared.len());
                MailboxEvent::Response(shared.clone())
            }
            MailboxAction::Stop => break,
        };
        action = exchange.step(event);
    }
    exchange.outcome()
}

/// A firmware that serves every tag: dimensions and depth are echoed, the
/// allocation is placed at a fixed address.
fn succeeding_firmware(request: &[u32]) -> Vec<u32> {
    let mut response = request.to_vec();
    response[1] = 0x8000_0000;
    if response[2] == 0x00040001 {
        response[5] = 0x1000_0000;
        response[6] = 0x12_C000;
    }
    response
}

fn failing_firmware(request: &[u32]) -> Vec<u32> {
    let mut response = request.to_vec();
    response[1] = 0x8000_0001;
    response
}

#[test]
fn negotiation_yields_vga_surface() {
    let dimensions =
        run_exchange(&display_request(), WaitPolicy::Unbounded, 0, succeeding_firmware).unwrap();
    let allocation =
        run_exchange(&allocation_request(), WaitPolicy::Unbounded, 0, succeeding_firmware)
            .unwrap();
    assert_eq!(allocation[response_offset(&allocation_request(), 0)], 0x1000_0000);
    let fb = init_fb(&dimensions, &allocation).unwrap();
    assert_eq!(fb.width(), 640);
    assert_eq!(fb.height(), 480);
    assert_eq!(fb.bytes_per_pixel(), 3);
    assert_eq!(fb.pitch(), 1920);
    assert_eq!(fb.buf(), 0x1000_0000);
    assert_eq!(fb.buf_size(), 0x12_C000);
    assert_eq!(fb.size(), (640, 480));
    assert!(fb.working().iter().all(|b| *b == 0));
}

#[test]
fn firmware_error_is_a_protocol_fault() {
    let r = run_exchange(&display_request(), WaitPolicy::Unbounded, 0, failing_firmware);
    assert_eq!(r, Err(ExchangeError::Firmware));
    let r = run_exchange(&allocation_request(), WaitPolicy::Bounded(3), 0, failing_firmware);
    assert_eq!(r, Err(ExchangeError::Firmware));
}

#[test]
fn unprocessed_message_is_a_protocol_fault() {
    let r = run_exchange(&display_request(), WaitPolicy::Unbounded, 0, |m| m.to_vec());
    assert_eq!(r, Err(ExchangeError::Unprocessed));
}

#[test]
fn unknown_code_is_a_decoding_fault() {
    let r = run_exchange(&display_request(), WaitPolicy::Unbounded, 0, |m| {
        let mut v = m.to_vec();
        v[1] = 7;
        v
    });
    assert_eq!(r, Err(ExchangeError::Decoding(7)));
}

#[test]
fn busy_mailbox_times_out_under_bounded_policy() {
    let r = run_exchange(&display_request(), WaitPolicy::Bounded(5), 0x8000_0000, succeeding_firmware);
    assert_eq!(r, Err(ExchangeError::TimedOut));
}

#[test]
fn exchange_steps_through_handshake() {
    let tags = allocation_request();
    let mut ex = PropertyExchange::new(&tags, SCRATCH, WaitPolicy::Bounded(1));
    assert_eq!(ex.word, SCRATCH | 8);
    assert_eq!(ex.step(MailboxEvent::Status(0x8000_0000)), MailboxAction::ReadStatus);
    assert_eq!(ex.step(MailboxEvent::Status(0)), MailboxAction::Send(SCRATCH | 8));
    assert_eq!(ex.step(MailboxEvent::Sent), MailboxAction::ReadStatus);
    assert_eq!(ex.step(MailboxEvent::Status(0)), MailboxAction::ReadData);
    // a word for another channel is dropped
    assert_eq!(ex.step(MailboxEvent::Data(0x1000_0001)), MailboxAction::ReadStatus);
    assert_eq!(ex.step(MailboxEvent::Status(0x4000_0000)), MailboxAction::Stop);
    assert_eq!(ex.outcome(), Err(ExchangeError::TimedOut));
}

#[test]
fn out_of_order_event_fails_exchange() {
    let tags = allocation_request();
    let mut ex = PropertyExchange::new(&tags, SCRATCH, WaitPolicy::Unbounded);
    assert_eq!(ex.step(MailboxEvent::Sent), MailboxAction::Stop);
    assert_eq!(ex.outcome(), Err(ExchangeError::OutOfOrder));
    let mut ex = PropertyExchange::new(&tags, SCRATCH, WaitPolicy::Unbounded);
    ex.step(MailboxEvent::Status(0));
    ex.step(MailboxEvent::Sent);
    ex.step(MailboxEvent::Status(0));
    assert_eq!(ex.step(MailboxEvent::Data(SCRATCH | 8)), MailboxAction::ReadResponse(8));
    assert_eq!(ex.step(MailboxEvent::Response(vec![0, 0x8000_0000])), MailboxAction::Stop);
    assert_eq!(ex.outcome(), Err(ExchangeError::OutOfOrder));
}

#[test]
fn classify_response_returns_whole_message() {
    let msg = vec![16, 0x8000_0000, 5, 6];
    assert_eq!(classify_response(&msg), Ok(msg.clone()));
    assert_eq!(classify_response(&[16, 0]), Err(ExchangeError::Unprocessed));
    assert_eq!(classify_response(&[16, 0x8000_0001]), Err(ExchangeError::Firmware));
    assert_eq!(classify_response(&[16, 2]), Err(ExchangeError::Decoding(2)));
}

#[test]
fn init_rejects_short_or_unusable_responses() {
    let dims = vec![0u32; 7];
    assert_eq!(init_fb(&dims[..6], &dims).err(), Some(InitError::ResponseTooShort));
    assert_eq!(init_fb(&dims, &dims[..5]).err(), Some(InitError::ResponseTooShort));
    let mut dims = vec![0u32; 20];
    dims[5] = 640;
    dims[6] = 480;
    let mut alloc = vec![0u32; 8];
    alloc[5] = 0x1000_0000;
    alloc[6] = 640 * 480 * 3 - 1;
    assert_eq!(
        init_fb(&dims, &alloc).err(),
        Some(InitError::Surface(FrameBufferError::BufferTooSmall))
    );
    alloc[6] = 640 * 480 * 3;
    assert!(init_fb(&dims, &alloc).is_ok());
}
