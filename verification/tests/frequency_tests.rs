use tsmc_rust::frequency::{periods_per_year, Frequency};

fn dt_of(f: Frequency) -> f32 {
    1.0 / (periods_per_year(f) as f32)
}

#[test]
fn cli_dt_conversion_works() {
    assert!(dt_of(Frequency::Daily) > 0.003);
    assert!(dt_of(Frequency::Daily) < 0.004);
    assert_eq!(dt_of(Frequency::Weekly), 1.0 / 52.0);
    assert_eq!(dt_of(Frequency::Monthly), 1.0 / 12.0);
}
