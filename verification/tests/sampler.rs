use healslut::capture::{sampler_step, FrameResult, SamplerStep};

#[test]
fn a_blocked_poll_is_retried_next_tick() {
    assert!(matches!(sampler_step(2, 2, FrameResult::WouldBlock), SamplerStep::Skip));
}

#[test]
fn a_failed_poll_recreates_the_session() {
    assert!(matches!(sampler_step(2, 2, FrameResult::Failed), SamplerStep::Reset));
}

#[test]
fn a_frame_is_packaged_with_its_row_stride() {
    let step = sampler_step(2, 2, FrameResult::Frame(vec![7u8; 20]));
    match step {
        SamplerStep::Deliver(frame) => {
            assert_eq!(frame.width, 2);
            assert_eq!(frame.height, 2);
            assert_eq!(frame.rowstride, 10);
            assert_eq!(frame.bytes.len(), 20);
        },
        _ => panic!("expected a delivered frame"),
    }
}

#[test]
fn a_short_buffer_recreates_the_session() {
    let step = sampler_step(4, 2, FrameResult::Frame(vec![7u8; 16]));
    assert!(matches!(step, SamplerStep::Reset));
}
