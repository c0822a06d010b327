use compio_driver::buffer_pool_len;

#[test]
fn numbers_of_buffers_are_rounded_up() {
    assert_eq!(buffer_pool_len(0), 1);
    assert_eq!(buffer_pool_len(1), 1);
    assert_eq!(buffer_pool_len(3), 4);
    assert_eq!(buffer_pool_len(1000), 1024);
    assert_eq!(buffer_pool_len(0x4001), 0x8000);
    assert_eq!(buffer_pool_len(0x8000), 0x8000);
}

#[test]
fn rounding_up_is_that_of_the_type() {
    for n in 0..=0x8000u16 {
        assert_eq!(buffer_pool_len(n), n.next_power_of_two());
        assert_eq!(buffer_pool_len(buffer_pool_len(n)), buffer_pool_len(n));
    }
}
