use wgpu_crate::layout::{
    decode_entries, encode_entries, StorageData, UniformData, Vec2f,
};

fn entry(x: f32, y: f32) -> StorageData {
    StorageData { vector: Vec2f { x: x.to_bits(), y: y.to_bits() } }
}

#[test]
fn an_entry_is_eight_bytes_least_significant_first() {
    let bytes = encode_entries(&[entry(1.0, 0.0)]);
    assert_eq!(bytes, vec![0x00, 0x00, 0x80, 0x3f, 0x00, 0x00, 0x00, 0x00]);
}

#[test]
fn entries_are_packed_without_padding() {
    let bytes = encode_entries(&[
        StorageData { vector: Vec2f { x: 0x0403_0201, y: 0x0807_0605 } },
        StorageData { vector: Vec2f { x: 0x0c0b_0a09, y: 0x100f_0e0d } },
    ]);
    assert_eq!(bytes, (1u8..=16).collect::<Vec<u8>>());
}

#[test]
fn no_entries_are_no_bytes() {
    assert_eq!(encode_entries(&[]), Vec::<u8>::new());
    assert_eq!(decode_entries(&[]), Some(Vec::new()));
}

#[test]
fn the_uniform_block_is_four_bytes() {
    let params = UniformData { rotate_deg: 90.0f32.to_bits() };
    assert_eq!(params.to_bytes(), vec![0x00, 0x00, 0xb4, 0x42]);
}

#[test]
fn decoding_reads_words_least_significant_first() {
    let found = decode_entries(&[0x00, 0x00, 0x80, 0x3f, 0x00, 0x00, 0x00, 0x40]);
    assert_eq!(found, Some(vec![entry(1.0, 2.0)]));
}

#[test]
fn a_fragment_of_an_entry_is_not_decoded() {
    for length in [1usize, 4, 7, 9, 15] {
        let bytes = vec![0u8; length];
        assert_eq!(decode_entries(&bytes), None);
    }
}

#[test]
fn entries_survive_the_round_trip_bit_for_bit() {
    let mut entries = Vec::new();
    for i in 0..144u32 {
        let angle = (i as f32 * 90.0).to_radians();
        entries.push(entry(angle.cos(), angle.sin()));
    }
    // Bit patterns that are not ordinary numbers must survive as well.
    entries.push(entry(f32::NAN, f32::NEG_INFINITY));
    entries.push(entry(-0.0, f32::MIN_POSITIVE));
    entries.push(StorageData { vector: Vec2f { x: u32::MAX, y: 0x7fc0_0001 } });
    let bytes = encode_entries(&entries);
    assert_eq!(bytes.len(), 8 * entries.len());
    assert_eq!(decode_entries(&bytes), Some(entries));
}

#[test]
fn whole_entries_of_bytes_are_their_own_layout() {
    let bytes: Vec<u8> = (0..64u32).map(|i| (i * 37 % 251) as u8).collect();
    let entries = decode_entries(&bytes).expect("64 bytes are eight entries");
    assert_eq!(entries.len(), 8);
    assert_eq!(encode_entries(&entries), bytes);
}

#[test]
fn the_default_vector_is_zero() {
    assert_eq!(Vec2f::default(), Vec2f { x: 0.0f32.to_bits(), y: 0.0f32.to_bits() });
}

#[test]
fn on_a_little_endian_host_the_layout_is_the_memory_of_the_numbers() {
    let numbers: Vec<f32> = (0..32).map(|i| (i as f32 * 0.37).sin()).collect();
    let entries: Vec<StorageData> =
        numbers.chunks(2).map(|pair| entry(pair[0], pair[1])).collect();
    let in_memory: &[u8] = bytemuck::cast_slice(&numbers);
    if 1u32.to_ne_bytes() == 1u32.to_le_bytes() {
        assert_eq!(encode_entries(&entries), in_memory);
    }
    let little_endian: Vec<u8> = numbers.iter().flat_map(|number| number.to_le_bytes()).collect();
    assert_eq!(encode_entries(&entries), little_endian);
}
