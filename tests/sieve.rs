use netchess::sieve::sieve_upto;

#[test]
fn test_sieve() {
    assert_eq!(sieve_upto(1), Ok(vec![]));
    assert_eq!(sieve_upto(2), Ok(vec![2]));
    assert_eq!(sieve_upto(3), Ok(vec![2, 3]));
    assert_eq!(sieve_upto(4), Ok(vec![2, 3]));
    assert_eq!(sieve_upto(5), Ok(vec![2, 3, 5]));
}

#[test]
fn sieve_small_bounds_and_squares() {
    assert_eq!(sieve_upto(0), Ok(vec![]));
    assert_eq!(sieve_upto(30), Ok(vec![2, 3, 5, 7, 11, 13, 17, 19, 23, 29]));
    assert_eq!(sieve_upto(49), sieve_upto(48));
    assert_eq!(sieve_upto(100).unwrap().len(), 25);
}
