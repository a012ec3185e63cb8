/// The address that a box points to.
fn address_of(boxed: &Box<u8>) -> usize {
    let text = format!("{:p}", *boxed);
    usize::from_str_radix(text.trim_start_matches("0x"), 16).unwrap()
}

/// A `u8` has an align of 1, but heap allocations even of 1 byte
/// will always be 8-byte aligned on x86.
#[test]
fn pointer_align_8() {
    for n in 0..=255 {
        let box_n: Box<u8> = Box::new(n);
        assert_eq!(address_of(&box_n) & 0b111, 0);
    }
}

/// A `u8` has an align of 1, but heap allocations even for 1 byte
/// will always be 16-byte aligned on x86_64.
#[test]
fn pointer_align_16() {
    for n in 0..=255 {
        let box_n: Box<u8> = Box::new(n);
        assert_eq!(address_of(&box_n) & 0xf, 0);
    }
}
