use matter_rgb_lamp::channel::CommandQueue;
use matter_rgb_lamp::error::Error;
use matter_rgb_lamp::led::ControlMessage;
use matter_rgb_lamp::options::{should_execute, EXECUTE_IF_OFF};

#[test]
fn should_execute_matches_formula_exhaustively() {
    // The whole behavior lives in two bits per operand; sweep well past them.
    for mask in 0..=7u8 {
        for ovr in 0..=7u8 {
            for stored in 0..=7u8 {
                let expected = ((mask & ovr) | stored) & EXECUTE_IF_OFF != 0;
                assert_eq!(
                    should_execute(mask, ovr, stored),
                    expected,
                    "mask {} override {} stored {}",
                    mask,
                    ovr,
                    stored
                );
            }
        }
    }
}

#[test]
fn should_execute_cases() {
    // Stored options win even when the command masks the bit out.
    assert!(should_execute(0, 0, EXECUTE_IF_OFF));
    // The override counts only where the mask selects it.
    assert!(should_execute(EXECUTE_IF_OFF, EXECUTE_IF_OFF, 0));
    assert!(!should_execute(0, EXECUTE_IF_OFF, 0));
    assert!(!should_execute(EXECUTE_IF_OFF, 0, 0));
    assert!(!should_execute(0, 0, 0));
}

#[test]
fn channel_is_fifo() {
    let mut q = CommandQueue::new();
    assert_eq!(q.len(), 0);
    assert_eq!(q.try_send(ControlMessage::SetBrightness(1)), Ok(()));
    assert_eq!(q.try_send(ControlMessage::SetBrightness(2)), Ok(()));
    assert_eq!(q.try_send(ControlMessage::Reset), Ok(()));
    assert_eq!(q.len(), 3);
    assert_eq!(q.try_receive(), Some(ControlMessage::SetBrightness(1)));
    assert_eq!(q.try_receive(), Some(ControlMessage::SetBrightness(2)));
    assert_eq!(q.try_receive(), Some(ControlMessage::Reset));
    assert_eq!(q.try_receive(), None);
}

#[test]
fn channel_capacity_is_four() {
    let mut q = CommandQueue::new();
    for level in 0..4u8 {
        assert_eq!(q.try_send(ControlMessage::SetBrightness(level)), Ok(()));
    }
    assert_eq!(
        q.try_send(ControlMessage::SetBrightness(4)),
        Err(Error::Busy)
    );
    assert_eq!(q.len(), 4);
    // Receiving frees a slot for the producer again.
    assert_eq!(q.try_receive(), Some(ControlMessage::SetBrightness(0)));
    assert_eq!(q.try_send(ControlMessage::SetBrightness(4)), Ok(()));
    assert_eq!(q.len(), 4);
}
