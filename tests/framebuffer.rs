use microgpu_common::{FrameBuffer, GpuError};

#[test]
fn new_buffer_is_zeroed() {
    let fb = FrameBuffer::new(7, 5);
    assert_eq!(fb.width(), 7);
    assert_eq!(fb.height(), 5);
    assert_eq!(fb.bytes().len(), 70);
    assert!(fb.bytes().iter().all(|b| *b == 0));
    let px = fb.pixel_values();
    assert_eq!(px.len(), 35);
    assert!(px.iter().all(|p| *p == 0));
}

#[test]
fn empty_buffer_has_no_pixels() {
    let fb = FrameBuffer::new(0, 9);
    assert_eq!(fb.bytes().len(), 0);
    assert_eq!(fb.pixel_at(0, 0), Err(GpuError::OutOfBounds));
}

#[test]
fn set_pixel_stores_little_endian() {
    let mut fb = FrameBuffer::new(4, 3);
    assert_eq!(fb.set_pixel(2, 1, 0xF81F), Ok(()));
    let idx = (1 * 4 + 2) * 2;
    assert_eq!(fb.bytes()[idx], 0x1F);
    assert_eq!(fb.bytes()[idx + 1], 0xF8);
    assert_eq!(fb.pixel_at(2, 1), Ok(0xF81F));
    assert_eq!(fb.pixel_values()[6], 0xF81F);
    assert_eq!(fb.pixel_at(1, 1), Ok(0));
}

#[test]
fn pixel_access_off_the_buffer_fails() {
    let mut fb = FrameBuffer::new(4, 3);
    assert_eq!(fb.pixel_at(4, 0), Err(GpuError::OutOfBounds));
    assert_eq!(fb.pixel_at(0, 3), Err(GpuError::OutOfBounds));
    assert_eq!(fb.set_pixel(4, 0, 1), Err(GpuError::OutOfBounds));
    assert_eq!(fb.set_pixel(0, 3, 1), Err(GpuError::OutOfBounds));
    assert!(fb.bytes().iter().all(|b| *b == 0));
}

#[test]
fn byte_view_shares_storage() {
    let mut fb = FrameBuffer::new(2, 2);
    {
        let bytes = fb.bytes_mut();
        bytes[2] = 0x34;
        bytes[3] = 0x12;
    }
    assert_eq!(fb.pixel_at(1, 0), Ok(0x1234));
    assert!(fb.is_consistent());
}
