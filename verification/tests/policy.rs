use yielding_async::policy::{complete_op, OpKind};
use yielding_async::YieldingAsync;

#[test]
fn success_is_passed_through_and_yields_once() {
    let (result, yields) = complete_op(OpKind::I2cWrite, Ok::<u32, u8>(7));
    assert_eq!(Ok(7), result);
    assert!(yields);
}

#[test]
fn failure_is_passed_through_and_never_yields() {
    let (result, yields) = complete_op(OpKind::SpiTransfer, Err::<(), u8>(3));
    assert_eq!(Err(3), result);
    assert!(!yields);
}

#[test]
fn every_bus_operation_yields_on_success() {
    let bus_kinds = [
        OpKind::I2cRead,
        OpKind::I2cWrite,
        OpKind::I2cWriteRead,
        OpKind::I2cTransaction,
        OpKind::SpiTransfer,
        OpKind::SpiTransferInPlace,
        OpKind::SpiFlush,
        OpKind::SpiWrite,
        OpKind::SpiRead,
    ];
    for kind in bus_kinds {
        let (result, yields) = complete_op(kind, Ok::<(), u8>(()));
        assert_eq!(Ok(()), result);
        assert!(yields);
    }
}

#[test]
fn storage_reads_do_not_yield_even_on_success() {
    let (result, yields) = complete_op(OpKind::StorageRead, Ok::<(), u8>(()));
    assert_eq!(Ok(()), result);
    assert!(!yields);
    let (result, yields) = complete_op(OpKind::StorageCapacity, Ok::<usize, u8>(1024));
    assert_eq!(Ok(1024), result);
    assert!(!yields);
}

#[test]
fn storage_writes_and_erase_chunks_yield_on_success() {
    let (_, yields) = complete_op(OpKind::StorageWrite, Ok::<(), u8>(()));
    assert!(yields);
    let (_, yields) = complete_op(OpKind::StorageEraseChunk, Ok::<(), u8>(()));
    assert!(yields);
}

#[test]
fn wrapped_driver_is_recovered_only_by_consuming_the_adapter() {
    let driver = vec![1u8, 2, 3];
    let adapter = YieldingAsync::new(driver);
    let recovered = adapter.into_inner();
    assert_eq!(vec![1u8, 2, 3], recovered);
}
