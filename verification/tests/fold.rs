use num_rational::Ratio;

#[test]
fn ratio_iter_sum() {
    // collect into array so test works on no_std
    let mut nums = [Ratio::new(0, 1); 1000];
    for (i, r) in (0..1000).map(|n| Ratio::new(n, 500)).enumerate() {
        nums[i] = r;
    }
    let mut manual_sum = Ratio::new(0, 1);
    for ratio in &nums[..] {
        manual_sum = manual_sum + ratio;
    }
    let sums = [manual_sum, Ratio::sum_of(&nums[..])];
    assert_eq!(sums[0], sums[1]);
    assert_eq!(sums[1], Ratio::new(999, 1));
}

#[test]
fn ratio_iter_product() {
    // collect into array so test works on no_std
    let mut nums = [Ratio::new(0, 1); 1000];
    for (i, r) in (0..1000).map(|n| Ratio::new(n, 500)).enumerate() {
        nums[i] = r;
    }
    let mut manual_prod = Ratio::new(1, 1);
    for ratio in &nums[..] {
        manual_prod = manual_prod * ratio;
    }
    let products = [manual_prod, Ratio::product_of(&nums[..])];
    assert_eq!(products[0], products[1]);
    assert_eq!(products[1], Ratio::new(0, 1));
}

#[test]
fn sums_and_products_of_a_few() {
    let items = [Ratio::new(1i32, 2), Ratio::new(1, 3), Ratio::new(1, 6)];
    assert_eq!(Ratio::sum_of(&items), Ratio::new(1, 1));
    assert_eq!(Ratio::product_of(&items), Ratio::new(1, 36));
    let none: [Ratio<i32>; 0] = [];
    assert_eq!(Ratio::sum_of(&none).into_pair(), (0, 1));
    assert_eq!(Ratio::product_of(&none).into_pair(), (1, 1));
}
