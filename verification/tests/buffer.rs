use wavy::buffer::PeriodBuffer;

#[test]
fn new_buffer_is_silent() {
    let buffer = PeriodBuffer::new(4);
    assert_eq!(buffer.len(), 4);
    for i in 0..4 {
        assert_eq!(buffer.read(i), 0);
    }
}

#[test]
fn empty_buffer_has_no_samples() {
    let buffer = PeriodBuffer::new(0);
    assert_eq!(buffer.len(), 0);
    assert_eq!(buffer.get(0), None);
}

#[test]
fn read_returns_last_written_value() {
    let mut buffer = PeriodBuffer::new(3);
    buffer.write(1, 5);
    buffer.write(1, -7);
    buffer.write(2, 9);
    assert_eq!(buffer.read(0), 0);
    assert_eq!(buffer.read(1), -7);
    assert_eq!(buffer.read(2), 9);
    assert_eq!(buffer.len(), 3);
}

#[test]
fn get_is_none_past_the_end() {
    let mut buffer = PeriodBuffer::new(2);
    buffer.write(1, 11);
    assert_eq!(buffer.get(1), Some(11));
    assert_eq!(buffer.get(2), None);
    assert_eq!(buffer.get(usize::MAX), None);
}

#[test]
fn fill_overwrites_the_whole_period() {
    let mut buffer = PeriodBuffer::new(3);
    buffer.write(0, 1);
    assert!(buffer.fill(&[4, 5, 6]));
    assert_eq!(buffer.read(0), 4);
    assert_eq!(buffer.read(1), 5);
    assert_eq!(buffer.read(2), 6);
    assert_eq!(buffer.len(), 3);
}

#[test]
fn fill_refuses_another_length() {
    let mut buffer = PeriodBuffer::new(3);
    assert!(buffer.fill(&[4, 5, 6]));
    assert!(!buffer.fill(&[1, 2]));
    assert!(!buffer.fill(&[1, 2, 3, 4]));
    assert!(!buffer.fill(&[]));
    assert_eq!(buffer.len(), 3);
    assert_eq!(buffer.read(0), 4);
    assert_eq!(buffer.read(1), 5);
    assert_eq!(buffer.read(2), 6);
}
