use beatmap_pp::options::OptionU32;
use beatmap_pp::score::CalculatePerformanceResult;

#[test]
fn some_carries_its_payload() {
    let o = OptionU32::some(42);
    assert_eq!(o.to_option(), Some(42));
}

#[test]
fn none_is_absent() {
    let o = OptionU32::none();
    assert_eq!(o.to_option(), None);
}

#[test]
fn only_discriminant_one_means_present() {
    let o = OptionU32 { value: 9, is_some: 2 };
    assert_eq!(o.to_option(), None);
    let p = OptionU32 { value: 9, is_some: 1 };
    assert_eq!(p.to_option(), Some(9));
}

#[test]
fn default_result_is_zero() {
    let r = CalculatePerformanceResult::default();
    assert_eq!(f64::from_bits(r.pp_bits), 0.0);
    assert_eq!(f64::from_bits(r.stars_bits), 0.0);
}

#[test]
fn from_bits_keeps_both_fields() {
    let r = CalculatePerformanceResult::from_bits((12.5f64).to_bits(), (3.75f64).to_bits());
    assert_eq!(f64::from_bits(r.pp_bits), 12.5);
    assert_eq!(f64::from_bits(r.stars_bits), 3.75);
}
