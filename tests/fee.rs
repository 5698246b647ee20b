use monsterra::fee::compute_net;

#[test]
fn net_of_fee_values() {
    assert_eq!(compute_net(1000, 500), 950);
    assert_eq!(compute_net(9999, 1), 9998);
    assert_eq!(compute_net(1, 5000), 0);
    assert_eq!(compute_net(0, 0), 0);
    assert_eq!(compute_net(12345, 0), 12345);
    assert_eq!(compute_net(12345, 10000), 0);
    assert_eq!(compute_net(u128::MAX, 0), u128::MAX);
    assert_eq!(compute_net(u128::MAX, 10000), 0);
    assert_eq!(compute_net(u128::MAX, 5000), u128::MAX / 2);
}

#[test]
fn net_stays_within_amount() {
    for amount in [0u128, 1, 7, 9999, 10000, 123456789, u128::MAX] {
        for fee in [0u16, 1, 250, 5000, 9999, 10000] {
            let net = compute_net(amount, fee);
            assert!(net <= amount);
            assert_eq!(net, compute_net(amount, fee));
        }
    }
}
