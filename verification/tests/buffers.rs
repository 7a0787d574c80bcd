use embedded_tls::buffer::CryptoBuffer;
use embedded_tls::error::{ParseError, TlsError};
use embedded_tls::parse_buffer::ParseBuffer;

#[test]
fn crypto_buffer_push_until_full() {
    let mut buf = CryptoBuffer::new(2);
    assert!(buf.is_empty());
    assert_eq!(buf.push(1), Ok(()));
    assert_eq!(buf.push(2), Ok(()));
    assert_eq!(buf.push(3), Err(TlsError::InsufficientSpace));
    assert_eq!(buf.as_slice(), &[1, 2]);
    assert_eq!(buf.len(), 2);
    assert_eq!(buf.capacity(), 2);
    assert_eq!(buf.free_space(), 0);
}

#[test]
fn crypto_buffer_multibyte_writes_are_big_endian() {
    let mut buf = CryptoBuffer::new(16);
    buf.push_u16(0x0403).unwrap();
    buf.push_u24(0x0a0b0c).unwrap();
    buf.extend_from_slice(&[9, 8]).unwrap();
    assert_eq!(buf.as_slice(), &[4, 3, 0x0a, 0x0b, 0x0c, 9, 8]);
}

#[test]
fn crypto_buffer_failed_write_leaves_contents() {
    let mut buf = CryptoBuffer::new(4);
    buf.push(7).unwrap();
    assert_eq!(buf.push_u24(1), Ok(()));
    assert_eq!(buf.push_u16(1), Err(TlsError::InsufficientSpace));
    assert_eq!(buf.extend_from_slice(&[1]), Err(TlsError::InsufficientSpace));
    assert_eq!(buf.encode_bytes(&[1]), Err(TlsError::EncodeError));
    assert_eq!(buf.as_slice(), &[7, 0, 0, 1]);
}

#[test]
fn parse_buffer_reads_in_order() {
    let data = [0x12u8, 0x01, 0x02, 0x00, 0x01, 0x02, 0xaa, 0xbb];
    let mut pb = ParseBuffer::new(&data);
    assert_eq!(pb.read_u8(), Ok(0x12));
    assert_eq!(pb.read_u16(), Ok(0x0102));
    assert_eq!(pb.read_u24(), Ok(0x000102));
    assert_eq!(pb.offset(), 6);
    assert_eq!(pb.remaining(), 2);
    let sub = pb.slice(2).unwrap();
    assert_eq!(sub.as_slice(), &[0xaa, 0xbb]);
    assert!(pb.is_empty());
    assert_eq!(pb.as_slice(), &data);
}

#[test]
fn parse_buffer_short_reads_consume_nothing() {
    let data = [1u8, 2];
    let mut pb = ParseBuffer::new(&data);
    assert_eq!(pb.read_u24(), Err(ParseError::InsufficientBytes));
    assert_eq!(pb.offset(), 0);
    assert!(pb.slice(3).is_err());
    assert_eq!(pb.offset(), 0);
    assert_eq!(pb.read_u16(), Ok(0x0102));
    assert_eq!(pb.read_u8(), Err(ParseError::InsufficientBytes));
}
