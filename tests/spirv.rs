use demo_vk::spirv::{spirv_words, SpirvError};

#[test]
fn spirv_words_reads_little_endian_words() {
    let bytes = [0x03u8, 0x02, 0x23, 0x07, 0x00, 0x00, 0x01, 0x00, 0xff, 0xff, 0xff, 0xff];
    let words = spirv_words(&bytes).unwrap();
    assert_eq!(words, vec![0x0723_0203, 0x0001_0000, 0xffff_ffff]);
}

#[test]
fn spirv_words_accepts_empty_input() {
    assert_eq!(spirv_words(&[]).unwrap(), Vec::<u32>::new());
}

#[test]
fn spirv_words_rejects_partial_words() {
    assert_eq!(spirv_words(&[1, 2, 3, 4, 5]), Err(SpirvError::InvalidLength(5)));
    assert_eq!(spirv_words(&[1, 2, 3]), Err(SpirvError::InvalidLength(3)));
}
