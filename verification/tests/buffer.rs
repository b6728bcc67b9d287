use tls_session::buffer::TlsBuffer;

fn write(buffer: &mut TlsBuffer<'_>, bytes: &[u8]) {
    let room = buffer.unfilled();
    room[..bytes.len()].copy_from_slice(bytes);
    buffer.advance(bytes.len());
}

#[test]
fn init_starts_empty_over_the_whole_slice() {
    let mut backing = [7u8; 16];
    let mut buffer = TlsBuffer::init(&mut backing);
    assert_eq!(buffer.used(), 0);
    assert_eq!(buffer.capacity(), 16);
    assert!(!buffer.is_growable());
    assert_eq!(buffer.filled(), &[] as &[u8]);
    assert_eq!(buffer.filled_mut().len(), 0);
    assert_eq!(buffer.unfilled(), &[7u8; 16]);
}

#[test]
fn growable_starts_empty_and_zeroed() {
    let mut buffer = TlsBuffer::growable(5);
    assert_eq!(buffer.used(), 0);
    assert_eq!(buffer.capacity(), 5);
    assert!(buffer.is_growable());
    assert_eq!(buffer.unfilled(), &[0u8; 5]);
}

#[test]
fn advance_marks_written_bytes_as_filled() {
    let mut backing = [0u8; 8];
    let mut buffer = TlsBuffer::init(&mut backing);
    write(&mut buffer, b"abc");
    assert_eq!(buffer.used(), 3);
    assert_eq!(buffer.filled(), b"abc");
    assert_eq!(buffer.unfilled().len(), 5);
    write(&mut buffer, b"de");
    assert_eq!(buffer.filled(), b"abcde");
    buffer.advance(0);
    assert_eq!(buffer.used(), 5);
}

#[test]
fn advance_up_to_capacity() {
    let mut backing = [0u8; 4];
    let mut buffer = TlsBuffer::init(&mut backing);
    write(&mut buffer, b"wxyz");
    assert_eq!(buffer.used(), buffer.capacity());
    assert_eq!(buffer.unfilled().len(), 0);
    assert_eq!(buffer.filled(), b"wxyz");
}

#[test]
fn discard_moves_the_rest_to_the_front() {
    let mut backing = [0u8; 10];
    let mut buffer = TlsBuffer::init(&mut backing);
    write(&mut buffer, b"0123456");
    buffer.discard(3);
    assert_eq!(buffer.used(), 4);
    assert_eq!(buffer.filled(), b"3456");
    assert_eq!(buffer.capacity(), 10);
    // what lies behind the split point keeps what it held
    assert_eq!(buffer.unfilled(), &[b'4', b'5', b'6', 0, 0, 0]);
}

#[test]
fn discard_zero_changes_nothing() {
    let mut backing = [0u8; 6];
    let mut buffer = TlsBuffer::init(&mut backing);
    write(&mut buffer, b"abcd");
    buffer.discard(0);
    assert_eq!(buffer.used(), 4);
    assert_eq!(buffer.filled(), b"abcd");
}

#[test]
fn discard_everything_leaves_nothing() {
    let mut backing = [0u8; 6];
    let mut buffer = TlsBuffer::init(&mut backing);
    write(&mut buffer, b"abcd");
    buffer.discard(4);
    assert_eq!(buffer.used(), 0);
    assert_eq!(buffer.filled(), b"");
    assert_eq!(buffer.unfilled().len(), 6);
}

#[test]
fn clear_resets_used_and_keeps_the_storage() {
    let mut backing = [0u8; 6];
    let mut buffer = TlsBuffer::init(&mut backing);
    write(&mut buffer, b"abcd");
    buffer.clear();
    assert_eq!(buffer.used(), 0);
    assert_eq!(buffer.capacity(), 6);
    assert_eq!(buffer.unfilled(), &[b'a', b'b', b'c', b'd', 0, 0]);
}

#[test]
fn filled_mut_changes_bytes_in_place() {
    let mut backing = [0u8; 6];
    let mut buffer = TlsBuffer::init(&mut backing);
    write(&mut buffer, b"abcd");
    buffer.filled_mut()[1] = b'X';
    assert_eq!(buffer.filled(), b"aXcd");
    assert_eq!(buffer.used(), 4);
}

#[test]
fn writes_discards_and_clears_in_sequence() {
    let mut backing = [0u8; 8];
    let mut buffer = TlsBuffer::init(&mut backing);
    write(&mut buffer, b"abc");
    write(&mut buffer, b"de");
    buffer.discard(2);
    assert_eq!(buffer.filled(), b"cde");
    write(&mut buffer, b"fgh");
    assert_eq!(buffer.filled(), b"cdefgh");
    buffer.discard(5);
    assert_eq!(buffer.filled(), b"h");
    buffer.clear();
    assert_eq!(buffer.filled(), b"");
    write(&mut buffer, b"ijklmnop");
    assert_eq!(buffer.filled(), b"ijklmnop");
    assert!(buffer.used() <= buffer.capacity());
}

#[test]
fn the_lender_sees_what_the_buffer_wrote() {
    let mut backing = [0u8; 4];
    {
        let mut buffer = TlsBuffer::init(&mut backing);
        write(&mut buffer, b"tls");
    }
    assert_eq!(&backing, b"tls\0");
}

#[test]
fn reserve_adds_zero_bytes_behind() {
    let mut buffer = TlsBuffer::growable(2);
    write(&mut buffer, b"ab");
    buffer.reserve(3);
    assert_eq!(buffer.capacity(), 5);
    assert_eq!(buffer.used(), 2);
    assert_eq!(buffer.filled(), b"ab");
    assert_eq!(buffer.unfilled(), &[0u8; 3]);
    buffer.reserve(0);
    assert_eq!(buffer.capacity(), 5);
}

#[test]
fn resize_cuts_or_extends_the_storage() {
    let mut buffer = TlsBuffer::growable(8);
    write(&mut buffer, b"abc");
    buffer.resize(4);
    assert_eq!(buffer.capacity(), 4);
    assert_eq!(buffer.filled(), b"abc");
    buffer.resize(3);
    assert_eq!(buffer.capacity(), 3);
    assert_eq!(buffer.unfilled().len(), 0);
    buffer.resize(6);
    assert_eq!(buffer.capacity(), 6);
    assert_eq!(buffer.filled(), b"abc");
    assert_eq!(buffer.unfilled(), &[0u8; 3]);
}

#[test]
fn a_buffer_of_no_capacity_has_no_room() {
    let mut backing = [0u8; 0];
    let mut buffer = TlsBuffer::init(&mut backing);
    assert_eq!(buffer.capacity(), 0);
    assert_eq!(buffer.unfilled().len(), 0);
    buffer.advance(0);
    buffer.discard(0);
    buffer.clear();
    assert_eq!(buffer.used(), 0);
}
