use arti_core::Qty;

#[test]
fn display_qty() {
    let chk = |by, s| assert_eq!(Qty(by).display_string(), s);

    chk(10 * 1024, "0.01MiB");
    chk(1024 * 1024, "1.00MiB");
    chk(1000 * 1024 * 1024, "1000.00MiB");
}

#[test]
fn qty_as_usize() {
    assert_eq!(Qty(0).as_usize(), 0);
    assert_eq!(Qty(123456).as_usize(), 123456);
    // Rounding is half up, to hundredths of a mebibyte.
    assert_eq!(Qty(0).display_string(), "0.00MiB");
    assert_eq!(Qty(5242).display_string(), "0.00MiB");
    assert_eq!(Qty(5243).display_string(), "0.01MiB");
    assert_eq!(Qty(usize::MAX).display_string(), "17592186044416.00MiB");
}
