use axtask::page::PhysPage;
use axtask::page::VirtPage;

#[test]
fn phys_page_addr_round_trip() {
    let p = PhysPage::new(0x80000);
    assert_eq!(p.to_addr(), 0x8000_0000);
    let q = PhysPage::from_addr(0x8000_0000);
    assert_eq!(q, p);
    assert_eq!(PhysPage::from_addr(0x8000_0fff), p);
}

#[test]
fn virt_page_addr_round_trip() {
    let v = VirtPage::new(0x12345);
    assert_eq!(v.to_addr(), 0x12345 << 12);
    assert_eq!(VirtPage::from_addr(v.to_addr()), v);
    assert_eq!(VirtPage::from_addr(0x1000), VirtPage::new(1));
}

#[test]
fn numeric_conversions_wrap_page_numbers() {
    let p: PhysPage = PhysPage::from(7usize);
    assert_eq!(p, PhysPage::new(7));
    assert_eq!(usize::from(p), 7);
    let v: VirtPage = VirtPage::from(9usize);
    assert_eq!(v, VirtPage::new(9));
}
