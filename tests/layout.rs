use owl::traits::{encode_int, native_byte_order, struct_field_offset, struct_stride, ByteOrder, Bytes, ToByteVec};

#[test]
fn integers_are_laid_out_in_the_requested_order() {
    assert_eq!(0x0102_0304u32.to_bytes_in(ByteOrder::Little), vec![4, 3, 2, 1]);
    assert_eq!(0x0102_0304u32.to_bytes_in(ByteOrder::Big), vec![1, 2, 3, 4]);
    assert_eq!((-2i16).to_bytes_in(ByteOrder::Little), vec![0xfe, 0xff]);
    assert_eq!((-1i64).to_bytes_in(ByteOrder::Big), vec![0xff; 8]);
    assert_eq!(7u8.to_bytes_in(ByteOrder::Big), vec![7]);
    assert_eq!(1u128.to_bytes_in(ByteOrder::Little).len(), 16);
    assert_eq!(true.to_bytes_in(ByteOrder::Little), vec![1]);
    assert_eq!(false.to_bytes_in(ByteOrder::Big), vec![0]);
    assert_eq!(encode_int(0x0a0b0c, 2, ByteOrder::Little), vec![0x0c, 0x0b]);
    assert_eq!(encode_int(5, 0, ByteOrder::Big), Vec::<u8>::new());
}

#[test]
fn native_order_matches_std() {
    assert_eq!(0x0102_0304u32.to_byte_vec(), 0x0102_0304u32.to_ne_bytes().to_vec());
    assert_eq!((-3i32).to_byte_vec(), (-3i32).to_ne_bytes().to_vec());
    let expected = if 1u16.to_ne_bytes()[0] == 1 { ByteOrder::Little } else { ByteOrder::Big };
    assert_eq!(native_byte_order(), expected);
}

#[test]
fn sequences_and_arrays_concatenate_their_items() {
    assert_eq!(vec![1u16, 2u16].to_bytes_in(ByteOrder::Little), vec![1, 0, 2, 0]);
    assert_eq!(vec![vec![1u8, 2u8], vec![3u8]].to_bytes_in(ByteOrder::Big), vec![1, 2, 3]);
    assert_eq!([0x0102u16, 0x0304u16].to_bytes_in(ByteOrder::Big), vec![1, 2, 3, 4]);
    assert_eq!(Vec::<u32>::new().to_bytes_in(ByteOrder::Little), Vec::<u8>::new());
    assert_eq!([7u8; 0].to_bytes_in(ByteOrder::Little), Vec::<u8>::new());
}

#[test]
fn strides_are_the_bytes_one_value_takes() {
    assert_eq!(0u8.stride(), Bytes(1));
    assert_eq!(0i16.stride(), Bytes(2));
    assert_eq!(0u32.stride(), Bytes(4));
    assert_eq!(0i64.stride(), Bytes(8));
    assert_eq!(0u128.stride(), Bytes(16));
    assert_eq!(true.stride(), Bytes(1));
    assert_eq!(vec![1u32, 2, 3].stride(), Bytes(12));
    assert_eq!(Vec::<u64>::new().stride(), Bytes(0));
    assert_eq!([0u16; 3].stride(), Bytes(6));
    assert_eq!([0u16; 0].stride(), Bytes(0));
    assert_eq!(5u32.field_offset(0), None);
}

#[test]
fn record_fields_follow_each_other() {
    // A vertex of two 4-byte floats and three bytes.
    let fields = vec![Bytes(8), Bytes(3)];
    assert_eq!(struct_stride(&fields), Bytes(11));
    assert_eq!(struct_field_offset(&fields, 0), Some(Bytes(0)));
    assert_eq!(struct_field_offset(&fields, 1), Some(Bytes(8)));
    assert_eq!(struct_field_offset(&fields, 2), None);
    let three = vec![Bytes(4), Bytes(4), Bytes(4)];
    assert_eq!(struct_field_offset(&three, 2), Some(Bytes(8)));
    assert_eq!(struct_stride(&Vec::new()), Bytes(0));
    assert_eq!(struct_field_offset(&Vec::new(), 0), None);
}

#[test]
fn record_bytes_are_the_fields_bytes_in_turn() {
    assert_eq!(owl::traits::struct_bytes(vec![vec![1, 2], vec![], vec![3]]), vec![1, 2, 3]);
    assert_eq!(owl::traits::struct_bytes(vec![]), Vec::<u8>::new());
}
