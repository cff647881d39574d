use bh_mhd::buffer::Data;
use bh_mhd::grid::{SimConfig, SimDimensions};

#[test]
fn starts_at_iteration_zero() {
    let dims = SimDimensions::new(4, 4, 4);
    let data: Data<u32> = Data::new(dims, 10, 20);
    assert_eq!(data.iter, 0);
    assert_eq!(*data.front_layer(), 10);
    assert_eq!(*data.back_layer(), 20);
}

#[test]
fn advance_swaps_front_and_back() {
    let dims = SimDimensions::new(4, 4, 4);
    let mut data: Data<u32> = Data::new(dims, 10, 20);

    let front_before = *data.front_layer();
    let back_before = *data.back_layer();
    data.next_iter();
    assert_eq!(data.iter, 1);
    assert_eq!(*data.front_layer(), back_before);
    assert_eq!(*data.back_layer(), front_before);

    data.next_iter();
    assert_eq!(data.iter, 2);
    assert_eq!(*data.front_layer(), front_before);
    assert_eq!(*data.back_layer(), back_before);
}

#[test]
fn stock_configuration() {
    let cfg = SimConfig::default();
    assert_eq!(cfg.wave_speed_squared, 343);
    assert_eq!(cfg.impulse_magnitude, 10);
    assert_eq!(cfg.impulse_half_width, 2);
}

#[test]
fn roles_alternate_over_many_steps() {
    let dims = SimDimensions::new(4, 4, 4);
    let mut data: Data<&str> = Data::new(dims, "first", "second");
    for i in 0..10u64 {
        assert_eq!(data.iter, i);
        if i % 2 == 0 {
            assert_eq!(*data.front_layer(), "first");
            assert_eq!(*data.back_layer(), "second");
        } else {
            assert_eq!(*data.front_layer(), "second");
            assert_eq!(*data.back_layer(), "first");
        }
        data.next_iter();
    }
}
