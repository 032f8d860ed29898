use arm7tdmi::util::get_bits;
use arm7tdmi::util::to_vec_words;

#[test]
fn test_get_bits() {
    let a = 0xDEADBEEF;
    let b = get_bits(a, 4, 16);
    println!("bits {}-{} {:x}", 4, 12, b);
}

#[test]
fn test_to_vec_words() {
    let input = vec![0xde, 0xea, 0xbe, 0xef];
    let out = to_vec_words(&input);
    println!("out: {:x}", out[0]);
    assert_eq!(out[0], 0xefbeeade);
}

#[test]
fn get_bits_exact_values() {
    assert_eq!(get_bits(0xDEADBEEF, 4, 16), 0x1BEE);
    assert_eq!(get_bits(0xDEADBEEF, 0, 31), 0xDEADBEEF);
    assert_eq!(get_bits(0xDEADBEEF, 31, 31), 1);
    assert_eq!(get_bits(0x000000FF, 0, 0), 1);
    assert_eq!(get_bits(0x000000FF, 8, 15), 0);
    assert_eq!(get_bits(0xFFFFFFFF, 0, 31), 0xFFFFFFFF);
}

#[test]
fn to_vec_words_empty() {
    let input: Vec<u8> = Vec::new();
    let out = to_vec_words(&input);
    assert_eq!(out.len(), 0);
}

#[test]
fn to_vec_words_two_words() {
    let input = vec![0x01, 0x02, 0x03, 0x04, 0xaa, 0xbb, 0xcc, 0xdd];
    let out = to_vec_words(&input);
    assert_eq!(out, vec![0x04030201, 0xddccbbaa]);
}
