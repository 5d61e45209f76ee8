use dfu::error::Error;
use dfu::transaction::{calculate_pages, Transaction};

#[test]
fn test_calculate_pages() {
    assert_eq!(
        true,
        calculate_pages(0x0801_0000, 3)
            .map(|pages| assert_eq!(1, pages))
            .is_ok()
    );
    assert_eq!(
        true,
        calculate_pages(0x0801_0000, 0x10000)
            .map(|pages| assert_eq!(1, pages))
            .is_ok()
    );
    assert_eq!(
        true,
        calculate_pages(0x0801_0000, 0x10001)
            .map(|pages| assert_eq!(2, pages))
            .is_ok()
    );
    assert_eq!(
        true,
        calculate_pages(0x0801_0000, 0x20000)
            .map(|pages| assert_eq!(2, pages))
            .is_ok()
    );
}

#[test]
fn page_count_is_whole_pages_plus_one_for_a_rest() {
    assert_eq!(calculate_pages(0x0801_0000, 1), Ok(1));
    assert_eq!(calculate_pages(0x0801_0000, 0xFFFF), Ok(1));
    assert_eq!(calculate_pages(0x0801_0000, 0x20001), Ok(3));
    assert_eq!(calculate_pages(0x0801_0000, 0x30000), Ok(3));
    assert_eq!(calculate_pages(0x0801_0000, 0xFFFF_0000), Ok(0xFFFF));
    for length in [1u32, 2, 0xFFFF, 0x10000, 0x10001, 0x12345, 0x7_0000, 0x7_0001] {
        let expected = (length / 0x10000) + if length % 0x10000 != 0 { 1 } else { 0 };
        assert_eq!(calculate_pages(0x0801_0000, length), Ok(expected as u16));
    }
}

#[test]
fn page_count_refuses_length_zero() {
    assert_eq!(
        calculate_pages(0x0801_0000, 0),
        Err(Error::Argument("Length must be > 0".to_string()))
    );
    assert_eq!(
        calculate_pages(0, 0),
        Err(Error::Argument("Length must be > 0".to_string()))
    );
}

#[test]
fn page_count_refuses_address_outside_flash() {
    assert_eq!(calculate_pages(0x0800_FFFF, 1), Err(Error::Address(0x0800_FFFF)));
    assert_eq!(calculate_pages(0x0801_FFFF, 1), Err(Error::Address(0x0801_FFFF)));
    assert_eq!(calculate_pages(0, 16), Err(Error::Address(0)));
    assert_eq!(calculate_pages(0x0801_FFFE, 1), Ok(1));
    assert_eq!(calculate_pages(0x0801_0000, 1), Ok(1));
}

#[test]
fn cursor_starts_at_transaction_two() {
    let cursor = Transaction::new(0x0800_0000, 1500, 1024);
    assert_eq!(cursor.transaction, 2);
    assert_eq!(cursor.address, 0x0800_0000);
    assert_eq!(cursor.xfer, 1024);
    assert_eq!(cursor.pending, 476);
    assert_eq!(cursor.xfer_max, 1024);
}

#[test]
fn cursor_short_region_is_one_transfer() {
    let mut cursor = Transaction::new(0x2000_0000, 10, 1024);
    assert_eq!((cursor.transaction, cursor.xfer, cursor.pending), (2, 10, 0));
    assert_eq!(cursor.next(), None);
    assert_eq!(cursor.xfer, 0);
    assert_eq!(cursor.transaction, 2);
    assert_eq!(cursor.address, 0x2000_0000);
}

#[test]
fn cursor_empty_region_has_no_transfer() {
    let mut cursor = Transaction::new(0x2000_0000, 0, 1024);
    assert_eq!(cursor.xfer, 0);
    assert_eq!(cursor.next(), None);
    assert_eq!(cursor.xfer, 0);
}

#[test]
fn cursor_advances_by_the_transfer_just_made() {
    let mut cursor = Transaction::new(0x0800_0000, 1500, 1024);
    assert_eq!(cursor.next(), Some(()));
    assert_eq!(cursor.transaction, 3);
    assert_eq!(cursor.address, 0x0800_0400);
    assert_eq!(cursor.xfer, 476);
    assert_eq!(cursor.pending, 0);
    assert_eq!(cursor.next(), None);
    assert_eq!(cursor.xfer, 0);
    assert_eq!(cursor.transaction, 3);
    assert_eq!(cursor.address, 0x0800_0400);
}

fn walk(address: u32, length: u32, xfer_max: u16) -> Vec<(u16, u32, u16)> {
    let mut cursor = Transaction::new(address, length, xfer_max);
    let mut made = Vec::new();
    while cursor.xfer > 0 {
        made.push((cursor.transaction, cursor.address, cursor.xfer));
        let _ = cursor.next();
    }
    made
}

#[test]
fn cursor_exhaustion_counts_and_totals() {
    for (length, xfer_max) in [
        (1u32, 1u16),
        (1, 1024),
        (1024, 1024),
        (1025, 1024),
        (1500, 1024),
        (4096, 1024),
        (4097, 1024),
        (100_000, 7),
        (65_535, 65_535),
        (65_536, 65_535),
    ] {
        let made = walk(0x0800_0000, length, xfer_max);
        let expected = (length as u64 + xfer_max as u64 - 1) / xfer_max as u64;
        assert_eq!(made.len() as u64, expected);
        let total: u64 = made.iter().map(|chunk| chunk.2 as u64).sum();
        assert_eq!(total, length as u64);
        for (index, chunk) in made.iter().enumerate() {
            assert_eq!(chunk.0 as usize, 2 + index);
            assert_eq!(chunk.1 as u64, 0x0800_0000 + index as u64 * xfer_max as u64);
            assert!(chunk.2 > 0 && chunk.2 <= xfer_max);
        }
    }
}

#[test]
fn cursor_with_transfer_size_zero_moves_nothing() {
    assert_eq!(walk(0x0800_0000, 10, 0), vec![]);
}

#[test]
fn set_xfer_takes_the_next_size() {
    let mut cursor = Transaction {
        transaction: 7,
        address: 0x100,
        pending: 3000,
        xfer: 0,
        xfer_max: 1024,
    };
    cursor.set_xfer();
    assert_eq!((cursor.xfer, cursor.pending), (1024, 1976));
    cursor.set_xfer();
    assert_eq!((cursor.xfer, cursor.pending), (1024, 952));
    cursor.set_xfer();
    assert_eq!((cursor.xfer, cursor.pending), (952, 0));
    cursor.set_xfer();
    assert_eq!((cursor.xfer, cursor.pending), (0, 0));
    assert_eq!((cursor.transaction, cursor.address), (7, 0x100));
}
