use pi_kernel::duration::Duration::{MilliSeconds, Minutes, Seconds};

#[test]
fn durations_compare_by_length() {
    assert!(Seconds(120) == Minutes(2));
    assert!(Seconds(420) == Minutes(7));
    assert!(MilliSeconds(420000) == Minutes(7));
    assert!(MilliSeconds(43000) == Seconds(43));
    assert!(Seconds(61) != Minutes(1));
}

#[test]
fn duration_text_in_millis() {
    assert_eq!(Seconds(2).to_string(), "2000ms");
    assert_eq!(Minutes(1).to_string(), "60000ms");
    assert_eq!(MilliSeconds(7).to_string(), "7ms");
}
