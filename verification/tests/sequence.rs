use engine_runner::{wrapping_add_u16, wrapping_lt_u16, wrapping_lte_u16, wrapping_sub_u16};

#[test]
fn indices_wrap_around() {
    assert_eq!(wrapping_add_u16(65535, 1), 0);
    assert_eq!(wrapping_add_u16(65000, 1000), 464);
    assert_eq!(wrapping_sub_u16(0, 1), 65535);
    assert_eq!(wrapping_sub_u16(5, 3), 2);
}

#[test]
fn order_follows_the_shorter_way() {
    assert!(wrapping_lt_u16(1, 2));
    assert!(!wrapping_lt_u16(2, 1));
    assert!(wrapping_lt_u16(65535, 0));
    assert!(!wrapping_lt_u16(0, 65535));
    assert!(!wrapping_lt_u16(7, 7));
}

#[test]
fn order_ends_half_way_round() {
    assert!(wrapping_lt_u16(0, 32766));
    assert!(!wrapping_lt_u16(0, 32767));
    assert!(!wrapping_lt_u16(32767, 0));
    assert!(!wrapping_lt_u16(0, 32768));
    assert!(!wrapping_lt_u16(32768, 0));
    assert!(wrapping_lt_u16(32770, 0));
}

#[test]
fn equal_indices_are_in_order() {
    assert!(wrapping_lte_u16(9, 9));
    assert!(wrapping_lte_u16(8, 9));
    assert!(!wrapping_lte_u16(10, 9));
}

#[test]
fn successor_is_ahead_everywhere() {
    let mut index: u16 = 65530;
    for _ in 0..12 {
        let next = wrapping_add_u16(index, 1);
        assert!(wrapping_lt_u16(index, next));
        assert!(!wrapping_lt_u16(next, index));
        index = next;
    }
}
