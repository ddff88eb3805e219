use ctv_emulators::codec::{hash_to_child_vec, INDEX_LIMIT, PATH_LEN};

#[test]
fn zero_hash_gives_nine_zero_indices() {
    let path = hash_to_child_vec(&[0u8; 32]);
    assert_eq!(path, vec![0u32; 9]);
}

#[test]
fn all_ones_hash_gives_cleared_words_and_all_top_bits() {
    let path = hash_to_child_vec(&[0xffu8; 32]);
    assert_eq!(path.len(), 9);
    for i in 0..8 {
        assert_eq!(path[i], 0x7fff_ffff);
    }
    assert_eq!(path[8], 0xff);
}

#[test]
fn constants_match_the_layout() {
    assert_eq!(PATH_LEN, 9);
    assert_eq!(INDEX_LIMIT, 1u32 << 31);
    assert_eq!(hash_to_child_vec(&[0x5au8; 32]).len(), PATH_LEN);
}

#[test]
fn words_are_read_big_endian() {
    let mut h = [0u8; 32];
    h[0] = 0x01;
    h[1] = 0x02;
    h[2] = 0x03;
    h[3] = 0x04;
    h[28] = 0x7f;
    h[31] = 0x10;
    let path = hash_to_child_vec(&h);
    assert_eq!(path, vec![0x0102_0304, 0, 0, 0, 0, 0, 0, 0x7f00_0010, 0]);
}

#[test]
fn top_bit_of_word_w_is_bit_w_of_the_ninth_index() {
    for w in 0..8usize {
        let mut h = [0u8; 32];
        h[4 * w] = 0x80;
        h[4 * w + 3] = 0x01;
        let path = hash_to_child_vec(&h);
        for i in 0..8usize {
            assert_eq!(path[i], if i == w { 1 } else { 0 });
        }
        assert_eq!(path[8], 1u32 << w);
    }
}

#[test]
fn mixed_hash_has_the_expected_path() {
    let mut h = [0u8; 32];
    for i in 0..32usize {
        h[i] = (i * 8 + 0x80) as u8;
    }
    // Words 0..4 begin with 0x80, 0xa0, 0xc0, 0xe0; words 4..8 with 0x00,
    // 0x20, 0x40, 0x60.
    let path = hash_to_child_vec(&h);
    assert_eq!(path[0], 0x0088_9098);
    assert_eq!(path[1], 0x20a8_b0b8);
    assert_eq!(path[2], 0x40c8_d0d8);
    assert_eq!(path[3], 0x60e8_f0f8);
    assert_eq!(path[4], 0x0008_1018);
    assert_eq!(path[5], 0x2028_3038);
    assert_eq!(path[6], 0x4048_5058);
    assert_eq!(path[7], 0x6068_7078);
    assert_eq!(path[8], 0x0f);
}

#[test]
fn every_index_is_a_normal_child_number() {
    let hashes = [[0u8; 32], [0xffu8; 32], [0x80u8; 32], [0x7fu8; 32], [0xa5u8; 32]];
    for h in hashes.iter() {
        let path = hash_to_child_vec(h);
        for i in 0..8 {
            assert!(path[i] < INDEX_LIMIT);
        }
        assert!(path[8] < 0x100);
    }
}

#[test]
fn the_same_hash_gives_the_same_path() {
    let mut h = [0u8; 32];
    for i in 0..32usize {
        h[i] = (i * 37 + 11) as u8;
    }
    let first = hash_to_child_vec(&h);
    let second = hash_to_child_vec(&h);
    assert_eq!(first, second);
    let copy = h;
    assert_eq!(hash_to_child_vec(&copy), first);
}

#[test]
fn hashes_that_differ_in_one_bit_have_different_paths() {
    let base = [0x3cu8; 32];
    let mut paths = vec![hash_to_child_vec(&base)];
    for bit in 0..256usize {
        let mut h = base;
        h[bit / 8] ^= 1u8 << (bit % 8);
        paths.push(hash_to_child_vec(&h));
    }
    for i in 0..paths.len() {
        for j in (i + 1)..paths.len() {
            assert_ne!(paths[i], paths[j]);
        }
    }
}

#[test]
fn hashes_that_differ_only_in_top_bits_have_different_paths() {
    let mut seen: Vec<Vec<u32>> = Vec::new();
    for pattern in 0..256u32 {
        let mut h = [0x11u8; 32];
        for w in 0..8usize {
            if pattern & (1 << w) != 0 {
                h[4 * w] |= 0x80;
            }
        }
        let path = hash_to_child_vec(&h);
        assert_eq!(path[8], pattern);
        assert!(!seen.contains(&path));
        seen.push(path);
    }
}
