//! Physical and virtual page numbers: 4 KiB pages, so a page number and its
//! base address differ by a shift of 12 bits.
use vstd::prelude::*;

verus! {

/// A physical page number.
#[derive(Clone, Copy, PartialEq, Eq, Structural, Debug)]
pub struct PhysPage(pub(crate) usize);

/// A virtual page number.
#[derive(Clone, Copy, PartialEq, Eq, Structural, Debug)]
pub struct VirtPage(pub(crate) usize);

impl PhysPage {
    /// The page number held.
    pub closed spec fn spec_ppn(self) -> usize {
        self.0
    }

    /// Wraps a raw physical page number.
    pub fn new(ppn: usize) -> (r: Self)
        ensures
            r.spec_ppn() == ppn,
    {
        PhysPage(ppn)
    }

    /// The page containing the given physical address.
    pub fn from_addr(addr: usize) -> (r: Self)
        ensures
            r.spec_ppn() == addr >> 12,
    {
        PhysPage(addr >> 12)
    }

    /// The base physical address of the page.
    pub fn to_addr(&self) -> (r: usize)
        ensures
            r == self.spec_ppn() << 12,
    {
        self.0 << 12
    }
}

impl VirtPage {
    /// The page number held.
    pub closed spec fn spec_vpn(self) -> usize {
        self.0
    }

    /// Wraps a raw virtual page number.
    pub fn new(vpn: usize) -> (r: Self)
        ensures
            r.spec_vpn() == vpn,
    {
        VirtPage(vpn)
    }

    /// The page containing the given virtual address.
    pub fn from_addr(addr: usize) -> (r: Self)
        ensures
            r.spec_vpn() == addr >> 12,
    {
        VirtPage(addr >> 12)
    }

    /// The base virtual address of the page.
    pub fn to_addr(&self) -> (r: usize)
        ensures
            r == self.spec_vpn() << 12,
    {
        self.0 << 12
    }
}

impl From<usize> for PhysPage {
    fn from(value: usize) -> (r: Self) {
        PhysPage(value)
    }
}

impl vstd::std_specs::convert::FromSpecImpl<usize> for PhysPage {
    open spec fn obeys_from_spec() -> bool {
        true
    }

    closed spec fn from_spec(value: usize) -> PhysPage {
        PhysPage(value)
    }
}

impl From<usize> for VirtPage {
    fn from(value: usize) -> (r: Self) {
        VirtPage(value)
    }
}

impl vstd::std_specs::convert::FromSpecImpl<usize> for VirtPage {
    open spec fn obeys_from_spec() -> bool {
        true
    }

    closed spec fn from_spec(value: usize) -> VirtPage {
        VirtPage(value)
    }
}

impl From<PhysPage> for usize {
    fn from(value: PhysPage) -> (r: Self) {
        value.0
    }
}

impl vstd::std_specs::convert::FromSpecImpl<PhysPage> for usize {
    open spec fn obeys_from_spec() -> bool {
        true
    }

    closed spec fn from_spec(value: PhysPage) -> usize {
        value.0
    }
}

/// What the numeric conversions mean: converting a number wraps it as the
/// page number, and converting a page back yields that number.
pub proof fn lemma_page_from_conversions(v: usize, p: PhysPage)
    ensures
        <PhysPage as vstd::std_specs::convert::FromSpec<usize>>::from_spec(v).spec_ppn() == v,
        <VirtPage as vstd::std_specs::convert::FromSpec<usize>>::from_spec(v).spec_vpn() == v,
        <usize as vstd::std_specs::convert::FromSpec<PhysPage>>::from_spec(p) == p.spec_ppn(),
{
}

} // verus!
