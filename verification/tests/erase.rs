use yielding_async::erase::EraseOp;

#[test]
fn can_erase() {
    let mut op = EraseOp::new(0, 256, 128);
    let mut calls: Vec<(u32, u32)> = Vec::new();
    while let Some(range) = op.next_range() {
        calls.push(range);
        op.advance();
    }
    assert_eq!(2, calls.len());
    assert_eq!((0, 128), calls[0]);
    assert_eq!((128, 256), calls[1]);
}

#[test]
fn can_erase_wrong_erase_size() {
    let mut op = EraseOp::new(0, 257, 128);
    let mut calls: Vec<(u32, u32)> = Vec::new();
    while let Some(range) = op.next_range() {
        calls.push(range);
        op.advance();
    }
    assert_eq!(3, calls.len());
    assert_eq!((0, 128), calls[0]);
    assert_eq!((128, 256), calls[1]);
    assert_eq!((256, 257), calls[2]);
}

#[test]
fn erase_empty_range_issues_no_calls() {
    let op = EraseOp::new(5, 5, 128);
    assert_eq!(None, op.next_range());
}

#[test]
fn erase_single_exact_unit() {
    let mut op = EraseOp::new(0, 128, 128);
    assert_eq!(Some((0, 128)), op.next_range());
    op.advance();
    assert_eq!(None, op.next_range());
}

#[test]
fn erase_granularity_one() {
    let mut op = EraseOp::new(10, 13, 1);
    let mut calls: Vec<(u32, u32)> = Vec::new();
    while let Some(range) = op.next_range() {
        calls.push(range);
        op.advance();
    }
    assert_eq!(vec![(10, 11), (11, 12), (12, 13)], calls);
}

#[test]
fn erase_near_address_space_end() {
    let from = u32::MAX - 200;
    let mut op = EraseOp::new(from, u32::MAX, 128);
    let mut calls: Vec<(u32, u32)> = Vec::new();
    while let Some(range) = op.next_range() {
        calls.push(range);
        op.advance();
    }
    assert_eq!(2, calls.len());
    assert_eq!((from, from + 128), calls[0]);
    assert_eq!((from + 128, u32::MAX), calls[1]);
}

#[test]
fn erase_abort_on_first_failure() {
    // The first sub-range call fails: exactly one call reaches the driver.
    let mut op = EraseOp::new(0, 512, 128);
    let mut calls: Vec<(u32, u32)> = Vec::new();
    let range = op.next_range().unwrap();
    calls.push(range);
    op.abort();
    assert_eq!(None, op.next_range());
    assert_eq!(vec![(0, 128)], calls);
}

#[test]
fn erase_abort_midway() {
    // The second sub-range call fails: exactly two calls reach the driver,
    // and nothing is issued after the failing one.
    let mut op = EraseOp::new(0, 512, 128);
    let mut calls: Vec<(u32, u32)> = Vec::new();
    let range = op.next_range().unwrap();
    calls.push(range);
    op.advance();
    let range = op.next_range().unwrap();
    calls.push(range);
    op.abort();
    assert_eq!(None, op.next_range());
    assert_eq!(vec![(0, 128), (128, 256)], calls);
}
