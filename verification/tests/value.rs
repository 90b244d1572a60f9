use jemalloc_ctl::value::{
    decode, decode_bool, decode_u32, decode_u64, decode_usize, encode, encode_bool, encode_u32,
    encode_u64, encode_usize, word_bytes, ByteOrder, BOOL_WIDTH, U32_WIDTH, U64_WIDTH,
};

#[test]
fn widths_of_the_slot_types() {
    assert_eq!(U32_WIDTH, 4);
    assert_eq!(U64_WIDTH, 8);
    assert_eq!(BOOL_WIDTH, 1);
    assert_eq!(word_bytes(), std::mem::size_of::<usize>());
}

#[test]
fn encode_u64_little_endian_is_lowest_byte_first() {
    assert_eq!(
        encode_u64(0x0102_0304_0506_0708, ByteOrder::Little),
        vec![8, 7, 6, 5, 4, 3, 2, 1]
    );
    assert_eq!(encode_u64(1, ByteOrder::Little), vec![1, 0, 0, 0, 0, 0, 0, 0]);
}

#[test]
fn encode_u64_big_endian_is_highest_byte_first() {
    assert_eq!(
        encode_u64(0x0102_0304_0506_0708, ByteOrder::Big),
        vec![1, 2, 3, 4, 5, 6, 7, 8]
    );
    assert_eq!(encode_u64(1, ByteOrder::Big), vec![0, 0, 0, 0, 0, 0, 0, 1]);
}

#[test]
fn encode_u64_agrees_with_std() {
    for v in [0u64, 1, 255, 256, 0xdead_beef, u64::MAX - 1, u64::MAX] {
        assert_eq!(encode_u64(v, ByteOrder::Little), v.to_le_bytes().to_vec());
        assert_eq!(encode_u64(v, ByteOrder::Big), v.to_be_bytes().to_vec());
    }
}

#[test]
fn decode_u64_agrees_with_std() {
    let bytes = [0x10u8, 0x20, 0x30, 0x40, 0x50, 0x60, 0x70, 0x80];
    assert_eq!(decode_u64(&bytes, ByteOrder::Little), u64::from_le_bytes(bytes));
    assert_eq!(decode_u64(&bytes, ByteOrder::Big), u64::from_be_bytes(bytes));
    assert_eq!(decode_u64(&bytes, ByteOrder::Little), 0x8070_6050_4030_2010);
    assert_eq!(decode_u64(&bytes, ByteOrder::Big), 0x1020_3040_5060_7080);
    assert_eq!(decode_u64(&[0xff; 8], ByteOrder::Little), u64::MAX);
    assert_eq!(decode_u64(&[0xff; 8], ByteOrder::Big), u64::MAX);
}

#[test]
fn u32_values_take_four_bytes() {
    assert_eq!(encode_u32(0x0a0b_0c0d, ByteOrder::Little), vec![0x0d, 0x0c, 0x0b, 0x0a]);
    assert_eq!(encode_u32(0x0a0b_0c0d, ByteOrder::Big), vec![0x0a, 0x0b, 0x0c, 0x0d]);
    assert_eq!(decode_u32(&[0x0d, 0x0c, 0x0b, 0x0a], ByteOrder::Little), 0x0a0b_0c0d);
    assert_eq!(decode_u32(&[0x0d, 0x0c, 0x0b, 0x0a], ByteOrder::Big), 0x0d0c_0b0a);
    assert_eq!(decode_u32(&[0xff; 4], ByteOrder::Big), u32::MAX);
}

#[test]
fn usize_values_take_a_word() {
    let v: usize = 0x1234_5678;
    assert_eq!(encode_usize(v, ByteOrder::Little), v.to_le_bytes().to_vec());
    assert_eq!(encode_usize(v, ByteOrder::Big), v.to_be_bytes().to_vec());
    assert_eq!(encode_usize(usize::MAX, ByteOrder::Big), vec![0xff; word_bytes()]);
    assert_eq!(decode_usize(&v.to_le_bytes(), ByteOrder::Little), v);
    assert_eq!(decode_usize(&v.to_be_bytes(), ByteOrder::Big), v);
    assert_eq!(decode_usize(&usize::MAX.to_le_bytes(), ByteOrder::Little), usize::MAX);
}

#[test]
fn encode_keeps_the_lowest_bytes() {
    assert_eq!(encode(0x0102_0304, 2, ByteOrder::Little), vec![4, 3]);
    assert_eq!(encode(0x0102_0304, 2, ByteOrder::Big), vec![3, 4]);
    assert_eq!(encode(7, 0, ByteOrder::Little), Vec::<u8>::new());
    assert_eq!(encode(7, 0, ByteOrder::Big), Vec::<u8>::new());
    assert_eq!(encode(7, 1, ByteOrder::Big), vec![7]);
}

#[test]
fn decode_of_few_bytes() {
    assert_eq!(decode(&[], ByteOrder::Little), 0);
    assert_eq!(decode(&[], ByteOrder::Big), 0);
    assert_eq!(decode(&[9], ByteOrder::Little), 9);
    assert_eq!(decode(&[1, 2, 3], ByteOrder::Little), 0x03_0201);
    assert_eq!(decode(&[1, 2, 3], ByteOrder::Big), 0x01_0203);
}

#[test]
fn decode_undoes_encode() {
    for order in [ByteOrder::Little, ByteOrder::Big] {
        for v in [0u64, 1, 2, 0x80, 0xffff, 0x1_0000, 0x0123_4567_89ab_cdef, u64::MAX] {
            assert_eq!(decode_u64(&encode_u64(v, order), order), v);
        }
        for v in [0u32, 1, 0x8000_0000, u32::MAX] {
            assert_eq!(decode_u32(&encode_u32(v, order), order), v);
        }
        for v in [0usize, 1, 4096, usize::MAX] {
            assert_eq!(decode_usize(&encode_usize(v, order), order), v);
        }
    }
}

#[test]
fn encode_undoes_decode() {
    let bytes = vec![0xde, 0xad, 0xbe, 0xef, 0x01, 0x02, 0x03, 0x04];
    for order in [ByteOrder::Little, ByteOrder::Big] {
        assert_eq!(encode_u64(decode_u64(&bytes, order), order), bytes);
    }
}

#[test]
fn the_two_orders_mirror_each_other() {
    let mut bytes = encode_u64(0x1122_3344_5566_7788, ByteOrder::Little);
    bytes.reverse();
    assert_eq!(bytes, encode_u64(0x1122_3344_5566_7788, ByteOrder::Big));
}

#[test]
fn booleans_are_one_byte() {
    assert_eq!(encode_bool(true), vec![1]);
    assert_eq!(encode_bool(false), vec![0]);
    assert!(decode_bool(&[1]));
    assert!(!decode_bool(&[0]));
    assert_eq!(decode_bool(&encode_bool(true)), true);
    assert_eq!(decode_bool(&encode_bool(false)), false);
}

#[test]
fn any_byte_but_zero_reads_as_true() {
    assert!(decode_bool(&[2]));
    assert!(decode_bool(&[0x80]));
    assert!(decode_bool(&[0xff]));
}

#[test]
fn native_order_is_that_of_the_machine() {
    let order = ByteOrder::native();
    let v: u64 = 0x0102_0304_0506_0708;
    assert_eq!(encode_u64(v, order), v.to_ne_bytes().to_vec());
    assert_eq!(decode_u64(&v.to_ne_bytes(), order), v);
    assert_eq!(encode_usize(77, order), 77usize.to_ne_bytes().to_vec());
    assert_eq!(encode_u32(77, order), 77u32.to_ne_bytes().to_vec());
    let expected = if 1u16.to_ne_bytes()[0] == 1 {
        ByteOrder::Little
    } else {
        ByteOrder::Big
    };
    assert_eq!(order, expected);
}

#[test]
fn the_order_of_a_probe() {
    assert_eq!(ByteOrder::of_probe(1), ByteOrder::Little);
    assert_eq!(ByteOrder::of_probe(256), ByteOrder::Big);
    assert_eq!(ByteOrder::of_probe(u16::from_le_bytes([1, 0])), ByteOrder::Little);
    assert_eq!(ByteOrder::of_probe(u16::from_be_bytes([1, 0])), ByteOrder::Big);
}

#[test]
fn native_order_is_stable() {
    assert_eq!(ByteOrder::native(), ByteOrder::native());
}
