use lidar_protocol::cabin::decode_cabin;

fn cabin(major: u32, predict1: i32, predict2: i32) -> u32 {
    major | (((predict1 as u32) & 0x3ff) << 12) | (((predict2 as u32) & 0x3ff) << 22)
}

#[test]
fn cabin_anchor_and_predictions() {
    // Anchor 1000 decodes to 1488 at level 1; the next anchor 2000 to 5760
    // at level 3.
    let r = decode_cabin(cabin(1000, 5, -3), cabin(2000, 0, 0));
    assert_eq!(r, [1488 * 4, (1488 + 5 * 2) * 4, (5760 - 3 * 8) * 4]);
    assert_eq!(r, [5952, 5992, 22944]);
}

#[test]
fn cabin_sentinel_gives_zero() {
    for major in [0u32, 1, 1000, 4095] {
        for next in [0u32, 700, 4095] {
            let r = decode_cabin(cabin(major, -512, 7), cabin(next, 0, 0));
            assert_eq!(r[1], 0);
            let r = decode_cabin(cabin(major, 511, 7), cabin(next, 0, 0));
            assert_eq!(r[1], 0);
            let r = decode_cabin(cabin(major, 7, -512), cabin(next, 0, 0));
            assert_eq!(r[2], 0);
            let r = decode_cabin(cabin(major, 7, 511), cabin(next, 0, 0));
            assert_eq!(r[2], 0);
        }
    }
}

#[test]
fn cabin_sentinel_bit_patterns() {
    // The raw fields 0x200 and 0x1FF are the two sentinels.
    let word = 1000 | (0x200 << 12) | (0x1ff << 22);
    assert_eq!(decode_cabin(word, 1000), [5952, 0, 0]);
}

#[test]
fn cabin_borrows_next_anchor() {
    // The own anchor is zero, the next is 1000 (1488 at level 1).
    let r = decode_cabin(cabin(0, 3, 2), cabin(1000, 0, 0));
    assert_eq!(r, [0, (1488 + 3 * 2) * 4, (1488 + 2 * 2) * 4]);
}

#[test]
fn cabin_no_borrow_when_both_zero() {
    // A negative prediction on a zero base reads back modulo 2^32.
    let r = decode_cabin(cabin(0, -1, 0), cabin(0, 0, 0));
    assert_eq!(r, [0, 4294967292, 0]);
}

#[test]
fn cabin_largest_anchor_scaled_offset() {
    // Anchor 4095 decodes to 28656 at level 4; the offset 510 scales by 16.
    let r = decode_cabin(cabin(4095, 510, -511), cabin(4095, 0, 0));
    assert_eq!(r, [28656 * 4, (28656 + 510 * 16) * 4, (28656 - 511 * 16) * 4]);
}
