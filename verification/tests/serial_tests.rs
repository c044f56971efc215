use universal_interface_adapter::serial_io::{advance_write, WriteEvent, WriteProgress};

#[test]
fn partial_writes_advance() {
    assert_eq!(advance_write(0, 10, WriteEvent::Accepted(4)), WriteProgress::Continue(4));
    assert_eq!(advance_write(4, 10, WriteEvent::Accepted(0)), WriteProgress::Continue(4));
    assert_eq!(advance_write(4, 10, WriteEvent::WouldBlock), WriteProgress::Continue(4));
    assert_eq!(advance_write(4, 10, WriteEvent::Accepted(6)), WriteProgress::Done);
    assert_eq!(advance_write(9, 10, WriteEvent::Failed), WriteProgress::Fail);
}

#[test]
fn a_buffer_written_in_pieces_is_written_whole() {
    let len = 7;
    let mut offset = 0;
    let mut sizes = [3usize, 0, 2, 5].iter();
    loop {
        let n = (*sizes.next().unwrap()).min(len - offset);
        match advance_write(offset, len, WriteEvent::Accepted(n)) {
            WriteProgress::Continue(next) => offset = next,
            WriteProgress::Done => break,
            WriteProgress::Fail => panic!("no failure was reported"),
        }
    }
    assert_eq!(offset, 5);
}
