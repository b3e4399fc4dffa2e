use vmm_core::bytes::{
    get_bytes, get_u16, get_u32, get_u64, get_words, put_bytes, put_u16, put_u32, put_u64, put_u8,
    put_words,
};

#[test]
fn integers_are_read_least_significant_byte_first() {
    let buf = [0x11u8, 0x22, 0x33, 0x44, 0x55, 0x66, 0x77, 0x88, 0x99, 0xaa];
    assert_eq!(get_u16(&buf, 0), 0x2211);
    assert_eq!(get_u16(&buf, 8), 0xaa99);
    assert_eq!(get_u32(&buf, 0), 0x4433_2211);
    assert_eq!(get_u32(&buf, 3), 0x7766_5544);
    assert_eq!(get_u64(&buf, 0), 0x8877_6655_4433_2211);
    assert_eq!(get_u64(&buf, 2), 0xaa99_8877_6655_4433);
}

#[test]
fn integers_are_written_least_significant_byte_first() {
    let mut buf = [0xeeu8; 12];
    put_u16(&mut buf, 1, 0x1234);
    assert_eq!(buf, [0xee, 0x34, 0x12, 0xee, 0xee, 0xee, 0xee, 0xee, 0xee, 0xee, 0xee, 0xee]);
    put_u32(&mut buf, 4, 0xdead_beef);
    assert_eq!(buf, [0xee, 0x34, 0x12, 0xee, 0xef, 0xbe, 0xad, 0xde, 0xee, 0xee, 0xee, 0xee]);
    put_u64(&mut buf, 4, 0x0102_0304_0506_0708);
    assert_eq!(buf, [0xee, 0x34, 0x12, 0xee, 0x08, 0x07, 0x06, 0x05, 0x04, 0x03, 0x02, 0x01]);
    put_u8(&mut buf, 0, 0x7f);
    assert_eq!(buf[0], 0x7f);
    assert_eq!(buf[1], 0x34);
}

#[test]
fn written_integers_are_read_back() {
    let mut buf = [0u8; 16];
    put_u16(&mut buf, 0, 0xffff);
    put_u32(&mut buf, 2, 0x8000_0001);
    put_u64(&mut buf, 6, u64::MAX - 1);
    assert_eq!(get_u16(&buf, 0), 0xffff);
    assert_eq!(get_u32(&buf, 2), 0x8000_0001);
    assert_eq!(get_u64(&buf, 6), u64::MAX - 1);
    assert_eq!(buf[14], 0);
    assert_eq!(buf[15], 0);
}

#[test]
fn byte_ranges_are_copied_in_and_out() {
    let mut buf = [0u8; 8];
    put_bytes(&mut buf, 2, &[1, 2, 3]);
    assert_eq!(buf, [0, 0, 1, 2, 3, 0, 0, 0]);
    let part: [u8; 4] = get_bytes(&buf, 1);
    assert_eq!(part, [0, 1, 2, 3]);
    put_bytes(&mut buf, 8, &[]);
    assert_eq!(buf, [0, 0, 1, 2, 3, 0, 0, 0]);
}

#[test]
fn words_follow_one_another() {
    let mut buf = [0xffu8; 20];
    put_words(&mut buf, 2, &[0x0102_0304_0506_0708u64, 0x1112_1314_1516_1718]);
    assert_eq!(
        buf,
        [
            0xff, 0xff, 0x08, 0x07, 0x06, 0x05, 0x04, 0x03, 0x02, 0x01, 0x18, 0x17, 0x16, 0x15,
            0x14, 0x13, 0x12, 0x11, 0xff, 0xff
        ]
    );
    let words: [u64; 2] = get_words(&buf, 2);
    assert_eq!(words, [0x0102_0304_0506_0708, 0x1112_1314_1516_1718]);
    let none: [u64; 0] = get_words(&buf, 20);
    assert_eq!(none.len(), 0);
}
