//! Tests of the borrowed and owned wide-string model.

use winaudio::{Error, ForeignRuntime, StringAlloc, WinStr, WinString};

#[test]
fn view_over_terminated_buffer() {
    // "AB\0": two code units before the terminator
    let buf: Vec<u16> = vec![0x0041, 0x0042, 0x0000];
    let view = WinStr::from_units(&buf);
    assert_eq!(view.len(), 2);
    assert_eq!(view.as_slice(), &[0x0041, 0x0042]);
    assert_eq!(view.to_string_lossy(), "AB");
}

#[test]
fn view_length_ignores_capacity_beyond_terminator() {
    let buf: Vec<u16> = vec![0x0041, 0x0042, 0, 0x0043, 0x0044, 0];
    let view = WinStr::from_units(&buf);
    assert_eq!(view.len(), 2);
    assert_eq!(view.to_string_lossy(), "AB");
}

#[test]
fn empty_view() {
    let buf: Vec<u16> = vec![0];
    let view = WinStr::from_units(&buf);
    assert_eq!(view.len(), 0);
    assert_eq!(view.to_string_lossy(), "");
}

#[test]
fn lossy_decoding_combines_surrogate_pairs() {
    let buf: Vec<u16> = vec![0xD83D, 0xDE00, 0];
    let view = WinStr::from_units(&buf);
    assert_eq!(view.to_string_lossy(), "\u{1F600}");
}

#[test]
fn lossy_decoding_replaces_unpaired_surrogates() {
    let buf: Vec<u16> = vec![0x0041, 0xD800, 0x0042, 0];
    let view = WinStr::from_units(&buf);
    assert_eq!(view.to_string_lossy(), "A\u{FFFD}B");
    let buf: Vec<u16> = vec![0xDC00, 0];
    let view = WinStr::from_units(&buf);
    assert_eq!(view.to_string_lossy(), "\u{FFFD}");
}

#[test]
fn owned_string_scans_to_terminator() {
    let s = WinString::from_com_buffer(vec![0x68, 0x69, 0, 0x21]);
    assert_eq!(s.len(), 2);
    assert_eq!(s.as_winstr().as_slice(), &[0x68, 0x69]);
    assert_eq!(s.alloc_tag(), StringAlloc::Com);
    let t = WinString::from_local_buffer(vec![0x68, 0]);
    assert_eq!(t.alloc_tag(), StringAlloc::Local);
}

#[test]
fn free_runs_exactly_the_matching_primitive() {
    let mut rt = ForeignRuntime::new();
    let s = WinString::from_com_buffer(vec![0x61, 0]);
    s.free(&mut rt);
    assert_eq!(rt.com_frees, 1);
    assert_eq!(rt.local_frees, 0);

    let t = WinString::from_local_buffer(vec![0x62, 0]);
    t.free(&mut rt);
    assert_eq!(rt.com_frees, 1);
    assert_eq!(rt.local_frees, 1);
}

#[test]
fn promotion_copies_and_tags_local() {
    let mut rt = ForeignRuntime::new();
    let buf: Vec<u16> = vec![0x77, 0x78, 0];
    let view = WinStr::from_units(&buf);
    let owned = view.to_winstring(&mut rt).expect("duplicate succeeds");
    assert_eq!(owned.alloc_tag(), StringAlloc::Local);
    assert_eq!(owned.as_winstr().as_slice(), view.as_slice());
    assert_eq!(rt.local_allocs, 1);
    owned.free(&mut rt);
    assert_eq!(rt.local_frees, 1);
}

#[test]
fn promotion_failure_is_propagated() {
    let mut rt = ForeignRuntime::new();
    rt.fail_next_alloc = true;
    let buf: Vec<u16> = vec![0x77, 0];
    let view = WinStr::from_units(&buf);
    match view.to_winstring(&mut rt) {
        Err(e) => assert_eq!(e, Error::AllocFailed),
        Ok(_) => panic!("expected allocation failure"),
    }
    assert_eq!(rt.local_allocs, 0);
    // the switch is consumed: the next duplicate succeeds
    let owned = view.to_winstring(&mut rt).expect("duplicate succeeds");
    assert_eq!(rt.local_allocs, 1);
    owned.free(&mut rt);
}

#[test]
fn equality_is_code_unit_wise_across_tags() {
    let a = WinString::from_com_buffer(vec![0x61, 0x62, 0]);
    let b = WinString::from_local_buffer(vec![0x61, 0x62, 0]);
    assert_eq!(a, b);
    let c = WinString::from_com_buffer(vec![0x61, 0]);
    assert_ne!(a, c);

    let buf1: Vec<u16> = vec![0x61, 0x62, 0];
    let buf2: Vec<u16> = vec![0x61, 0x62, 0, 0x63, 0];
    let v1 = WinStr::from_units(&buf1);
    let v2 = WinStr::from_units(&buf2);
    assert_eq!(v1, v2);
}

#[test]
fn ordering_is_code_unit_lexicographic() {
    let ab: Vec<u16> = vec![0x61, 0x62, 0];
    let ac: Vec<u16> = vec![0x61, 0x63, 0];
    let a: Vec<u16> = vec![0x61, 0];
    let vab = WinStr::from_units(&ab);
    let vac = WinStr::from_units(&ac);
    let va = WinStr::from_units(&a);
    assert!(vab < vac);
    assert!(va < vab);
    assert!(vac > vab);
    assert!(vab <= vab);

    let sab = WinString::from_com_buffer(vec![0x61, 0x62, 0]);
    let sac = WinString::from_local_buffer(vec![0x61, 0x63, 0]);
    assert!(sab < sac);
    assert!(!(sac < sab));
}

#[test]
fn view_and_owned_compare_through_the_shared_view() {
    let buf: Vec<u16> = vec![0x61, 0x62, 0];
    let view = WinStr::from_units(&buf);
    let owned = WinString::from_com_buffer(vec![0x61, 0x62, 0]);
    assert!(view == owned);
    assert!(owned == view);
    let other = WinString::from_com_buffer(vec![0x61, 0]);
    assert!(view != other);
}

#[test]
fn cloning_an_owned_string_always_tags_the_canonical_allocator() {
    let mut rt = ForeignRuntime::new();
    let original = WinString::from_com_buffer(vec![0x6B, 0]);
    // the copy goes through the duplicate primitive, never reusing the
    // source's ownership mode
    let copy = original.as_winstr().to_winstring(&mut rt).unwrap();
    assert_eq!(original.alloc_tag(), StringAlloc::Com);
    assert_eq!(copy.alloc_tag(), StringAlloc::Local);
    assert_eq!(copy, original);
    original.free(&mut rt);
    copy.free(&mut rt);
    assert_eq!(rt.com_frees, 1);
    assert_eq!(rt.local_frees, 1);
}
