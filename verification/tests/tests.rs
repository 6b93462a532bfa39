use memsec::bytes::{memcmp, memeq, memzero, mlock, munlock};
use memsec::guarded::{allocarray, free, malloc, mprotect};
use memsec::layout::{compute_layout, page_round};
use memsec::prot::{native_flag, Prot};
use memsec::state::AllocState;
use memsec::addr::{plan_block, recover_block, recover_unprotected_addr};
use memsec::{CANARY_SIZE, GARBAGE_VALUE};

const PAGE: usize = 4096;

fn state() -> AllocState {
    AllocState::new(PAGE).expect("page size must be accepted")
}

fn ref_sign(a: &[u8], b: &[u8]) -> i32 {
    match a.cmp(b) {
        std::cmp::Ordering::Less => -1,
        std::cmp::Ordering::Equal => 0,
        std::cmp::Ordering::Greater => 1,
    }
}

#[test]
fn memzero_test() {
    let mut x: Vec<u8> = vec![1; 16];
    memzero(&mut x, 0, 16);
    assert_eq!(x, vec![0u8; 16]);
    x = vec![1; 16];
    assert_eq!(x, vec![1u8; 16]);
    memzero(&mut x, 1, 10);
    assert_eq!(x, vec![1, 0, 0, 0, 0, 0, 0, 0, 0, 0, 0, 1, 1, 1, 1, 1]);
}

#[test]
fn memcmp_test() {
    let cases: Vec<(Vec<u8>, Vec<u8>)> = vec![
        (vec![], vec![]),
        (vec![1, 2, 3], vec![1, 2, 3]),
        (vec![0, 2], vec![1, 2]),
        (vec![9], vec![3]),
        (vec![1, 2, 3], vec![1, 2, 4]),
        (vec![5, 1], vec![4, 1]),
        (vec![1, 2, 3, 4], vec![1, 2]),
    ];
    for (x, y) in cases {
        let len = x.len().min(y.len());
        let got = memcmp(&x, &y, len);
        let want = ref_sign(&x[..len], &y[..len]);
        assert_eq!(got, want);
        assert_eq!(memcmp(&y, &x, len), -want);
        assert_eq!(memeq(&x, &y, len), x[..len] == y[..len]);
    }
}

#[test]
fn memcmp_scan_completeness() {
    // pairs differing only in the first byte, and only in the last byte
    let a: Vec<u8> = vec![7, 5, 5, 5, 5, 5, 5, 9];
    let first: Vec<u8> = vec![8, 5, 5, 5, 5, 5, 5, 9];
    let last: Vec<u8> = vec![7, 5, 5, 5, 5, 5, 5, 8];
    assert_eq!(memcmp(&a, &first, 8), -1);
    assert_eq!(memcmp(&first, &a, 8), 1);
    assert_eq!(memcmp(&a, &last, 8), 1);
    assert_eq!(memcmp(&last, &a, 8), -1);
    assert!(!memeq(&a, &first, 8));
    assert!(!memeq(&a, &last, 8));
    assert!(memeq(&a, &a, 8));
}

#[test]
fn mlock_munlock_test() {
    let mut x: Vec<u8> = vec![1; 16];

    assert!(mlock(&mut x, true));
    assert!(munlock(&mut x, true));
    assert_eq!(x, vec![0u8; 16]);
}

#[test]
fn munlock_zeroes_even_on_failure() {
    let mut x: Vec<u8> = vec![0xAB; 32];
    assert!(!munlock(&mut x, false));
    assert_eq!(x, vec![0u8; 32]);
}

#[test]
fn malloc_u64_test() {
    let state = state();
    let mut b = malloc(&state, 8).expect("allocation must succeed");
    b.write(&vec![0xFF; 8]);
    assert_eq!(b.read_all(), vec![0xFF; 8]);
    assert!(free(&state, b));
}

#[test]
fn malloc_free_test() {
    let state = state();
    let b = malloc(&state, 1).expect("allocation must succeed");
    assert!(free(&state, b));

    let b = malloc(&state, 0).expect("zero-size allocation must succeed");
    assert!(free(&state, b));

    assert!(malloc(&state, usize::MAX - 1).is_none());

    let mut buf = allocarray(&state, 16, 1).expect("array allocation must succeed");
    buf.fill(0);
    assert_eq!(memcmp(&buf.read_all(), &vec![0u8; 16], 16), 0);
    assert!(free(&state, buf));
}

#[test]
fn malloc_mprotect_1_test() {
    let state = state();
    let mut x = malloc(&state, 16).expect("allocation must succeed");

    x.fill(1);
    assert!(mprotect(&mut x, Prot::ReadOnly));
    assert_eq!(memcmp(&x.read_all(), &vec![1u8; 16], 16), 0);
    assert!(mprotect(&mut x, Prot::NoAccess));
    assert!(mprotect(&mut x, Prot::ReadWrite));
    x.fill(0);
    assert!(free(&state, x));
}

#[test]
fn readonly_scenario_preserves_payload() {
    let state = state();
    let mut b = malloc(&state, 16).expect("allocation must succeed");
    b.fill(0xAA);
    assert!(mprotect(&mut b, Prot::ReadOnly));
    assert_eq!(b.read_all(), vec![0xAA; 16]);
    assert!(mprotect(&mut b, Prot::ReadWrite));
    let n = b.len();
    b.fill(0);
    assert_eq!(b.read_all(), vec![0u8; n]);
    assert!(free(&state, b));
}

#[test]
fn malloc_fills_garbage_not_zero() {
    let state = state();
    let b = malloc(&state, 24).expect("allocation must succeed");
    assert_eq!(b.read_all(), vec![GARBAGE_VALUE; 24]);
    assert!(free(&state, b));
}

#[test]
fn canary_corruption_is_detected() {
    let state = state();
    let mut b = malloc(&state, 16).expect("allocation must succeed");
    let canary_start = b.layout.unprotected_size - CANARY_SIZE - b.layout.requested;
    let v = b.region_read(canary_start);
    b.region_write(canary_start, !v);
    assert!(!free(&state, b));
}

#[test]
fn allocarray_overflow_is_refused() {
    let state = state();
    assert!(allocarray(&state, usize::MAX, 2).is_none());
    assert!(allocarray(&state, usize::MAX / 2 + 1, 2).is_none());
    let b = allocarray(&state, 4, 8).expect("array allocation must succeed");
    assert_eq!(b.len(), 32);
    assert!(free(&state, b));
}

#[test]
fn state_rejects_bad_page_sizes() {
    assert!(AllocState::new(8).is_none());
    assert!(AllocState::new(0).is_none());
    assert!(AllocState::new(usize::MAX).is_none());
    let s = AllocState::new(PAGE).expect("page size must be accepted");
    assert_eq!(s.page_size, PAGE);
    assert_eq!(s.page_mask, PAGE - 1);
    assert_eq!(s.canary.len(), CANARY_SIZE);
}

#[test]
fn layout_exact_values() {
    assert_eq!(page_round(1, PAGE), PAGE);
    assert_eq!(page_round(PAGE, PAGE), PAGE);
    assert_eq!(page_round(PAGE + 1, PAGE), 2 * PAGE);
    assert_eq!(page_round(0, PAGE), 0);

    let l = compute_layout(PAGE, 100).expect("layout must succeed");
    assert_eq!(l.unprotected_size, PAGE);
    assert_eq!(l.total_size, 4 * PAGE);
    assert_eq!(l.requested, 100);

    let l = compute_layout(PAGE, PAGE).expect("layout must succeed");
    assert_eq!(l.unprotected_size, 2 * PAGE);
    assert_eq!(l.total_size, 5 * PAGE);

    assert!(compute_layout(PAGE, usize::MAX - 2 * PAGE).is_none());
}

#[test]
fn pointer_recovery_roundtrip() {
    let state = state();
    let l = compute_layout(PAGE, 100).expect("layout must succeed");
    let base = 40 * PAGE;
    let addrs = plan_block(&state, &l, base);
    assert_eq!(addrs.base, base);
    assert_eq!(addrs.leading_guard, base + PAGE);
    assert_eq!(addrs.unprotected, base + 2 * PAGE);
    assert_eq!(addrs.trailing_guard, addrs.unprotected + l.unprotected_size);
    assert_eq!(addrs.user_addr, addrs.trailing_guard - 100);
    assert_eq!(addrs.canary_addr, addrs.user_addr - CANARY_SIZE);

    assert_eq!(recover_unprotected_addr(&state, addrs.user_addr), Some(addrs.unprotected));
    let rec = recover_block(&state, addrs.user_addr, l.unprotected_size)
        .expect("recovery must succeed");
    assert_eq!(rec.base, addrs.base);
    assert_eq!(rec.unprotected, addrs.unprotected);
    assert_eq!(rec.canary_addr, addrs.canary_addr);
    assert_eq!(rec.total_size, l.total_size);
}

#[test]
fn recovery_rejects_low_addresses() {
    let state = state();
    assert_eq!(recover_unprotected_addr(&state, 5), None);
    assert_eq!(recover_unprotected_addr(&state, 2 * PAGE + CANARY_SIZE), None);
    assert!(recover_block(&state, 5, PAGE).is_none());
    assert!(recover_block(&state, 40 * PAGE + CANARY_SIZE, usize::MAX - PAGE).is_none());
}

#[test]
fn native_flag_values() {
    assert_eq!(native_flag(Prot::NoAccess), 0);
    assert_eq!(native_flag(Prot::ReadOnly), 1);
    assert_eq!(native_flag(Prot::WriteOnly), 2);
    assert_eq!(native_flag(Prot::ReadWrite), 3);
    assert_eq!(native_flag(Prot::Execute), 4);
    assert_eq!(native_flag(Prot::ReadExec), 5);
    assert_eq!(native_flag(Prot::WriteExec), 6);
    assert_eq!(native_flag(Prot::ReadWriteExec), 7);
}
