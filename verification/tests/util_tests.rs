use kpipes::util::least_power_of_2_greater;

#[test]
fn test_least_power_of_2_greater() {
    assert_eq!(least_power_of_2_greater(5), 8);
    assert_eq!(least_power_of_2_greater(7), 8);
    assert_eq!(least_power_of_2_greater(8), 8);
    assert_eq!(least_power_of_2_greater(33), 64);
    assert_eq!(least_power_of_2_greater(528), 1024);
    assert_eq!(least_power_of_2_greater(46021), 65536);
    assert_eq!(least_power_of_2_greater(821032), 1048576);
}

#[test]
fn test_least_power_of_2_greater_edges() {
    assert_eq!(least_power_of_2_greater(0), 0);
    assert_eq!(least_power_of_2_greater(1), 1);
    assert_eq!(least_power_of_2_greater(2), 2);
    assert_eq!(least_power_of_2_greater(3), 4);
    assert_eq!(least_power_of_2_greater(0x8000_0000_0000_0000), 0x8000_0000_0000_0000);
}
