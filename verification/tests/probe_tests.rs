use talos_splits::probe::{combine_loading, flag_address, flag_bit_set, LOADING_FLAG_OFFSET};

#[test]
fn the_flag_is_the_lowest_bit() {
    assert!(!flag_bit_set(0));
    assert!(flag_bit_set(1));
    assert!(!flag_bit_set(2));
    assert!(flag_bit_set(3));
    assert!(flag_bit_set(0xFF));
    assert!(!flag_bit_set(0xFE));
}

#[test]
fn the_flag_address_is_the_pointer_plus_the_offset() {
    assert_eq!(flag_address(0), Some(LOADING_FLAG_OFFSET as usize));
    assert_eq!(flag_address(0x1000), Some(0x1000 + LOADING_FLAG_OFFSET as usize));
}

#[test]
fn a_pointer_near_the_top_of_the_address_space_reads_nothing() {
    assert_eq!(flag_address(u64::MAX), None);
    assert_eq!(flag_address(u64::MAX - LOADING_FLAG_OFFSET + 1), None);
}

#[test]
fn a_failed_popup_probe_is_untracked() {
    assert_eq!(combine_loading(None, None), None);
    assert_eq!(combine_loading(None, Some(true)), None);
}

#[test]
fn a_set_popup_flag_short_circuits_to_loading() {
    assert_eq!(combine_loading(Some(true), None), Some(true));
    assert_eq!(combine_loading(Some(true), Some(false)), Some(true));
}

#[test]
fn a_clear_popup_flag_defers_to_the_world_probe() {
    assert_eq!(combine_loading(Some(false), Some(true)), Some(true));
    assert_eq!(combine_loading(Some(false), Some(false)), Some(false));
    assert_eq!(combine_loading(Some(false), None), None);
}
