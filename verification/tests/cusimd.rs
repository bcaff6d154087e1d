//! Register values.

use cuda_oxide::cusimd::CuSimd;
use cuda_oxide::cusimd::Int2;
use cuda_oxide::cusimd::SimdElement;
use cuda_oxide::cusimd::Uint2;
use cuda_oxide::cusimd::Uint4;
use std::sync::atomic::AtomicU32;
use std::sync::atomic::Ordering;

#[test]
fn values_are_copied_out() {
    let regs = CuSimd::<u32, 4>::new([1, 2, 3, 4]);
    assert_eq!(regs[2], 3);
    assert_eq!(regs.at(3), 4);
    assert_eq!(regs.get::<0>(), 1);
    assert_eq!((regs.x(), regs.y(), regs.z(), regs.w()), (1, 2, 3, 4));
    assert_eq!(regs.xyzw(), (1, 2, 3, 4));
    assert_eq!(regs.len(), 4);
    assert!(!regs.is_empty());
    assert!(CuSimd::<u64, 0>::new([]).is_empty());
}

#[test]
fn arrays_go_to_registers_and_back() {
    let array = [5_i64, -6, 7];
    let regs = CuSimd::new(array);
    assert_eq!(regs.to_array(), array);
    let other: CuSimd<i64, 3> = array.into();
    assert!(other == regs);
    let back: [i64; 3] = other.into();
    assert_eq!(back, array);
    assert!(CuSimd::new([5_i64, -6, 8]) != regs);
}

#[test]
fn halves_split_the_whole() {
    let whole = Uint4::new([1, 2, 3, 4]);
    let lo: Uint2 = whole.lo();
    let hi: Uint2 = whole.hi();
    assert_eq!(lo.xy(), (1, 2));
    assert_eq!((hi.x(), hi.y()), (3, 4));
}

#[test]
fn defaults_fill_every_value() {
    assert_eq!(CuSimd::<u16, 3>::default().to_array(), [0, 0, 0]);
    assert_eq!(Int2::default().xy(), (0, 0));
}

/// A number that no other default has had.
#[derive(Clone, Copy, Debug, PartialEq)]
struct Ticket(u32);

static TICKETS: AtomicU32 = AtomicU32::new(0);

impl Default for Ticket {
    fn default() -> Ticket {
        Ticket(TICKETS.fetch_add(1, Ordering::SeqCst))
    }
}

impl SimdElement for Ticket {
    const MAX_N: usize = 8;
}

#[test]
fn every_value_has_a_default_of_its_own() {
    let none = CuSimd::<Ticket, 0>::default();
    assert!(none.is_empty());
    let three = CuSimd::<Ticket, 3>::default();
    assert_eq!(three.to_array(), [Ticket(0), Ticket(1), Ticket(2)]);
    let two = CuSimd::<Ticket, 2>::default();
    assert_eq!(two.to_array(), [Ticket(3), Ticket(4)]);
}

#[test]
fn element_types_bound_the_number_of_values() {
    assert_eq!(<u32 as SimdElement>::MAX_N, 32);
    assert_eq!(<i16 as SimdElement>::MAX_N, 32);
    assert_eq!(<i64 as SimdElement>::MAX_N, 16);
}
