use instruction_decoding_8086::{ByteStream, EngineError};

#[test]
fn words_are_read_low_byte_first() {
    let mut stream = ByteStream::new(vec![0xE8, 0x03, 0x34, 0x12]);
    assert_eq!(stream.read_u16(), Ok(1000));
    assert_eq!(stream.stream_position(), 2);
    assert_eq!(stream.read_u16(), Ok(0x1234));
    assert_eq!(stream.stream_position(), 4);
    assert!(stream.is_at_end());
}

#[test]
fn signed_words_are_read_low_byte_first() {
    let mut stream = ByteStream::new(vec![0x40, 0x9C, 0xFF, 0x7F, 0x00, 0x80]);
    assert_eq!(stream.read_i16(), Ok(-25536));
    assert_eq!(stream.read_i16(), Ok(32767));
    assert_eq!(stream.read_i16(), Ok(-32768));
    assert_eq!(stream.read_i16(), Err(EngineError::TruncatedStream));
}

#[test]
fn bytes_are_read_in_order() {
    let mut stream = ByteStream::new(vec![0x01, 0xFB, 0x80, 0x7F]);
    assert_eq!(stream.len(), 4);
    assert_eq!(stream.peek_u8(), Ok(1));
    assert_eq!(stream.stream_position(), 0);
    assert_eq!(stream.read_u8(), Ok(1));
    assert_eq!(stream.read_i8(), Ok(-5));
    assert_eq!(stream.read_i8(), Ok(-128));
    assert_eq!(stream.read_u8(), Ok(0x7F));
    assert_eq!(stream.read_u8(), Err(EngineError::TruncatedStream));
    assert_eq!(stream.read_i8(), Err(EngineError::TruncatedStream));
    assert_eq!(stream.peek_u8(), Err(EngineError::TruncatedStream));
    assert_eq!(stream.stream_position(), 4);
}

#[test]
fn a_word_cut_short_is_not_consumed() {
    let mut stream = ByteStream::new(vec![0x01, 0x02, 0x03]);
    assert_eq!(stream.read_u16(), Ok(0x0201));
    assert_eq!(stream.read_u16(), Err(EngineError::TruncatedStream));
    assert_eq!(stream.stream_position(), 2);
    assert_eq!(stream.read_u8(), Ok(3));
}

#[test]
fn seeking_stays_inside_the_stream() {
    let mut stream = ByteStream::new(vec![0; 10]);
    assert_eq!(stream.seek_relative(10), Ok(()));
    assert_eq!(stream.stream_position(), 10);
    assert_eq!(stream.seek_relative(1), Err(EngineError::OutOfBoundsJump));
    assert_eq!(stream.stream_position(), 10);
    assert_eq!(stream.seek_relative(-10), Ok(()));
    assert_eq!(stream.stream_position(), 0);
    assert_eq!(stream.seek_relative(-1), Err(EngineError::OutOfBoundsJump));
    assert_eq!(stream.seek_relative(i64::MIN), Err(EngineError::OutOfBoundsJump));
    assert_eq!(stream.seek_relative(i64::MAX), Err(EngineError::OutOfBoundsJump));
    assert_eq!(stream.seek_relative(4), Ok(()));
    assert_eq!(stream.seek_relative(-3), Ok(()));
    assert_eq!(stream.stream_position(), 1);
    stream.rewind(0);
    assert_eq!(stream.stream_position(), 0);
    assert_eq!(stream.into_bytes(), vec![0; 10]);
}

#[test]
fn an_empty_stream_is_at_its_end() {
    let mut stream = ByteStream::new(Vec::new());
    assert!(stream.is_at_end());
    assert_eq!(stream.read_u8(), Err(EngineError::TruncatedStream));
    assert_eq!(stream.seek_relative(0), Ok(()));
}

#[test]
fn error_messages() {
    assert_eq!(EngineError::TruncatedStream.message(), "truncated stream");
    assert_eq!(EngineError::InvalidOpcode.message(), "invalid opcode");
    assert_eq!(EngineError::IllegalOperand.message(), "illegal operand");
    assert_eq!(EngineError::OutOfBoundsJump.message(), "jump out of bounds");
}
