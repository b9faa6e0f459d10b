use sfml::source::{MemorySource, Source};
use sfml::stream::{get_size, read, seek, tell, InputStream, FAILED};

fn bytes(n: u8) -> Vec<u8> {
    (0..n).collect()
}

#[test]
fn memory_source_reads_in_chunks() {
    let mut src = MemorySource::new(bytes(10));
    let first = src.read_chunk(4).unwrap();
    assert_eq!(first, vec![0, 1, 2, 3]);
    assert_eq!(src.current_offset(), 4);
    let rest = src.read_chunk(100).unwrap();
    assert_eq!(rest, vec![4, 5, 6, 7, 8, 9]);
    assert_eq!(src.read_chunk(5).unwrap(), Vec::<u8>::new());
}

#[test]
fn memory_source_refuses_seek_past_end() {
    let mut src = MemorySource::new(bytes(5));
    assert!(src.seek_absolute(6).is_err());
    assert_eq!(src.current_offset(), 0);
    assert_eq!(src.seek_absolute(5), Ok(5));
    assert_eq!(src.seek_end(), Ok(5));
}

#[test]
fn read_zero_leaves_source_alone() {
    let mut src = MemorySource::new(bytes(8));
    seek(3, &mut src);
    let mut buf = vec![9u8; 4];
    assert_eq!(read(&mut buf, 0, &mut src), 0);
    assert_eq!(tell(&src), 3);
    assert_eq!(buf, vec![9, 9, 9, 9]);
}

#[test]
fn read_zero_at_end_reports_nothing() {
    let mut src = MemorySource::new(bytes(8));
    seek(8, &mut src);
    let mut buf = vec![0u8; 1];
    assert_eq!(read(&mut buf, 0, &mut src), 0);
    assert_eq!(tell(&src), 8);
}

#[test]
fn read_negative_fails() {
    let mut src = MemorySource::new(bytes(8));
    let mut buf = vec![0u8; 4];
    assert_eq!(read(&mut buf, -5, &mut src), FAILED);
    assert_eq!(tell(&src), 0);
}

#[test]
fn read_copies_requested_bytes() {
    let mut src = MemorySource::new(bytes(10));
    seek(2, &mut src);
    let mut buf = vec![0xAAu8; 6];
    assert_eq!(read(&mut buf, 4, &mut src), 4);
    assert_eq!(buf, vec![2, 3, 4, 5, 0xAA, 0xAA]);
    assert_eq!(tell(&src), 6);
}

#[test]
fn read_stops_at_end_of_data() {
    let mut src = MemorySource::new(bytes(10));
    seek(7, &mut src);
    let mut buf = vec![0u8; 8];
    assert_eq!(read(&mut buf, 8, &mut src), 3);
    assert_eq!(&buf[..3], &[7, 8, 9]);
    assert_eq!(tell(&src), 10);
    assert_eq!(read(&mut buf, 8, &mut src), 0);
}

#[test]
fn get_size_keeps_position_mid_stream() {
    let mut src = MemorySource::new(bytes(20));
    seek(13, &mut src);
    assert_eq!(tell(&src), 13);
    assert_eq!(get_size(&mut src), 20);
    assert_eq!(tell(&src), 13);
}

#[test]
fn seek_then_tell_returns_offset() {
    let mut src = MemorySource::new(bytes(16));
    for o in 0..=16i64 {
        assert_eq!(seek(o, &mut src), o);
        assert_eq!(tell(&src), o);
    }
}

#[test]
fn seek_out_of_range_fails_and_keeps_position() {
    let mut src = MemorySource::new(bytes(16));
    seek(4, &mut src);
    assert_eq!(seek(-1, &mut src), FAILED);
    assert_eq!(seek(17, &mut src), FAILED);
    assert_eq!(tell(&src), 4);
}

#[test]
fn borrowed_adapter_reaches_caller_source() {
    let mut src = MemorySource::new(bytes(12));
    {
        let mut stream = InputStream::new(&mut src);
        assert_eq!(stream.seek(5), 5);
        let mut buf = vec![0u8; 3];
        assert_eq!(stream.read(&mut buf, 3), 3);
        assert_eq!(buf, vec![5, 6, 7]);
        assert_eq!(stream.get_size(), 12);
        assert_eq!(stream.tell(), 8);
    }
    assert_eq!(src.current_offset(), 8);
}

#[test]
fn owned_adapter_reaches_its_source() {
    let mut stream = InputStream::new_owned(MemorySource::new(bytes(6)));
    let mut buf = vec![0u8; 10];
    assert_eq!(stream.read(&mut buf, 10), 6);
    assert_eq!(&buf[..6], &[0, 1, 2, 3, 4, 5]);
    assert_eq!(stream.tell(), 6);
    assert_eq!(stream.get_size(), 6);
    assert_eq!(stream.tell(), 6);
    assert_eq!(stream.seek(-3), FAILED);
    let mut empty = vec![1u8; 2];
    assert_eq!(stream.read(&mut empty, 0), 0);
    assert_eq!(stream.tell(), 6);
}

#[test]
fn owned_adapter_with_borrowed_lifetime() {
    let data = bytes(4);
    let borrowed = &data;
    let mut stream: InputStream<'_, MemorySource> = InputStream::new_owned(MemorySource::new(borrowed.clone()));
    assert_eq!(stream.get_size(), 4);
}
