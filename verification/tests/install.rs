use mmap_bytebuf::{AllocationError, ByteBuf, Mmap, MmapByteBuf};

const PAGE_SIZE: usize = 4096;

#[test]
fn install_of_a_failed_request_leaves_the_buffer_untouched() {
    let mut buf = MmapByteBuf::new(PAGE_SIZE).unwrap();
    for (i, b) in buf.as_slice_mut().iter_mut().enumerate() {
        *b = (i % 253) as u8 + 1;
    }
    let view = buf.byte_buf();
    let contents = buf.as_slice().to_vec();

    let r = buf.install(Err(AllocationError::MapFailed));
    assert_eq!(r, Err(AllocationError::MapFailed));
    assert_eq!(buf.byte_buf(), view);
    assert_eq!(buf.len(), PAGE_SIZE);
    assert_eq!(buf.as_slice(), &contents[..]);

    let r = buf.install(Err(AllocationError::NullAddress));
    assert_eq!(r, Err(AllocationError::NullAddress));
    assert_eq!(buf.byte_buf(), view);
    assert_eq!(buf.as_slice(), &contents[..]);
}

#[test]
fn install_of_a_failed_request_on_an_empty_buffer() {
    let mut buf = MmapByteBuf::empty();
    let r = buf.install(Err(AllocationError::MapFailed));
    assert_eq!(r, Err(AllocationError::MapFailed));
    assert!(buf.is_empty());
    assert_eq!(buf.byte_buf(), ByteBuf { addr: 0, len: 0 });
}

#[test]
fn install_hands_every_error_on() {
    let errors = [
        AllocationError::LengthTooLarge,
        AllocationError::ZeroLength,
        AllocationError::MapFailed,
        AllocationError::NullAddress,
    ];
    for e in errors {
        let mut buf = MmapByteBuf::new(3).unwrap();
        buf.as_slice_mut().copy_from_slice(&[7, 8, 9]);
        assert_eq!(buf.install(Err(e)), Err(e));
        assert_eq!(buf.as_slice(), &[7u8, 8, 9][..]);
    }
}

#[test]
fn install_grows_into_a_fresh_mapping() {
    let mut buf = MmapByteBuf::new(4).unwrap();
    buf.as_slice_mut().copy_from_slice(&[1, 2, 3, 4]);
    let fresh = Mmap::new(6).unwrap();
    let addr = fresh.addr();

    let view = buf.install(Ok(fresh)).unwrap();
    assert_eq!(view, ByteBuf { addr, len: 6 });
    assert_eq!(view, buf.byte_buf());
    assert_eq!(view.addr, buf.as_slice().as_ptr() as usize);
    assert_eq!(buf.as_slice(), &[1u8, 2, 3, 4, 0, 0][..]);
}

#[test]
fn install_shrinks_into_a_fresh_mapping() {
    let mut buf = MmapByteBuf::new(3).unwrap();
    buf.as_slice_mut().copy_from_slice(&[1, 2, 3]);
    let view = buf.install(Mmap::new(2)).unwrap();
    assert_eq!(view.len, 2);
    assert_eq!(buf.as_slice(), &[1u8, 2][..]);
}

#[test]
fn install_keeps_the_mapping_s_own_bytes_beyond_the_old_length() {
    let mut buf = MmapByteBuf::new(2).unwrap();
    buf.as_slice_mut().copy_from_slice(&[1, 2]);
    let mut written = Mmap::new(5).unwrap();
    written.as_slice_mut().copy_from_slice(&[9, 9, 9, 9, 9]);

    let view = buf.install(Ok(written)).unwrap();
    assert_eq!(view.len, 5);
    assert_eq!(buf.as_slice(), &[1u8, 2, 9, 9, 9][..]);
}

#[test]
fn install_into_an_empty_buffer_takes_the_mapping_as_it_is() {
    let mut buf = MmapByteBuf::empty();
    let mut written = Mmap::new(3).unwrap();
    written.as_slice_mut().copy_from_slice(&[4, 5, 6]);
    let addr = written.addr();

    let view = buf.install(Ok(written)).unwrap();
    assert_eq!(view, ByteBuf { addr, len: 3 });
    assert_eq!(buf.as_slice(), &[4u8, 5, 6][..]);
}

#[test]
fn install_of_what_the_system_declined() {
    let mut buf = MmapByteBuf::new(8).unwrap();
    buf.as_slice_mut()[3] = 0x11;
    let r = buf.install(Mmap::new(isize::MAX as usize));
    assert_eq!(r, Err(AllocationError::MapFailed));
    assert_eq!(buf.as_slice(), &[0u8, 0, 0, 0x11, 0, 0, 0, 0][..]);
}
