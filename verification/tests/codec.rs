//! Round-trip and edge-case tests of the property codec.

use winaudio::{
    Error, ForeignRuntime, Property, RawProperty, StringAlloc, WinString, E_ACCESSDENIED,
};

fn encode(p: &Property) -> RawProperty {
    p.to_raw().expect("encodable variant")
}

fn decode(raw: &RawProperty, rt: &mut ForeignRuntime) -> Property {
    Property::from_raw(raw, rt).expect("decode succeeds")
}

fn round_trip(p: Property) {
    let mut rt = ForeignRuntime::new();
    let raw = encode(&p);
    let q = decode(&raw, &mut rt);
    assert_eq!(p, q);
}

#[test]
fn round_trip_numeric_variants() {
    round_trip(Property::Empty);
    round_trip(Property::Null);
    round_trip(Property::I8(-128));
    round_trip(Property::I8(127));
    round_trip(Property::U8(255));
    round_trip(Property::I16(-32768));
    round_trip(Property::U16(65535));
    round_trip(Property::I32(-42));
    round_trip(Property::U32(4_000_000_000));
    round_trip(Property::I64(i64::MIN));
    round_trip(Property::I64(i64::MAX));
    round_trip(Property::U64(u64::MAX));
    round_trip(Property::Bool(true));
    round_trip(Property::Bool(false));
}

#[test]
fn round_trip_float_bit_patterns() {
    let f = 1.5f32;
    round_trip(Property::F32(f.to_bits()));
    let raw = encode(&Property::F32(f.to_bits()));
    let mut rt = ForeignRuntime::new();
    match decode(&raw, &mut rt) {
        Property::F32(bits) => assert_eq!(f32::from_bits(bits), 1.5f32),
        other => panic!("unexpected variant {:?}", other),
    }
    let d = -2.25f64;
    round_trip(Property::F64(d.to_bits()));
}

#[test]
fn round_trip_text_is_code_unit_equal() {
    let s = WinString::from_com_buffer(vec![0x0041, 0x0042, 0x0043, 0]);
    let p = Property::Str(s);
    let raw = encode(&p);
    assert_eq!(raw.wide, vec![0x0041, 0x0042, 0x0043, 0]);
    let mut rt = ForeignRuntime::new();
    let q = decode(&raw, &mut rt);
    assert_eq!(p, q);
    match q {
        Property::Str(t) => {
            assert_eq!(t.alloc_tag(), StringAlloc::Com);
            assert_eq!(t.as_winstr().as_slice(), &[0x0041, 0x0042, 0x0043]);
            t.free(&mut rt);
        }
        other => panic!("unexpected variant {:?}", other),
    }
    assert_eq!(rt.com_allocs, 1);
    assert_eq!(rt.com_frees, 1);
}

#[test]
fn encode_unsupported_fails_loudly() {
    let r = Property::Unsupported.to_raw();
    match r {
        Err(e) => assert_eq!(e, Error::NotEncodable),
        Ok(raw) => panic!("unsupported must not encode, got vt {}", raw.vt),
    }
}

#[test]
fn decode_i32_tagged_union() {
    // a union tagged as 32-bit signed integer with payload -42
    let raw = RawProperty { vt: 3, scalar: (-42i32 as u32) as u64, wide: Vec::new() };
    let mut rt = ForeignRuntime::new();
    assert_eq!(decode(&raw, &mut rt), Property::I32(-42));
}

#[test]
fn decode_unknown_tag_degrades_to_unsupported() {
    let raw = RawProperty { vt: 0xFFFF, scalar: 12345, wide: Vec::new() };
    let mut rt = ForeignRuntime::new();
    assert_eq!(decode(&raw, &mut rt), Property::Unsupported);
    // another tag outside the supported set: a vector discriminant
    let raw = RawProperty { vt: 0x1003, scalar: 0, wide: Vec::new() };
    assert_eq!(decode(&raw, &mut rt), Property::Unsupported);
}

#[test]
fn decode_machine_width_tags() {
    let raw = RawProperty { vt: 22, scalar: (-7i32 as u32) as u64, wide: Vec::new() };
    let mut rt = ForeignRuntime::new();
    assert_eq!(decode(&raw, &mut rt), Property::I32(-7));
    let raw = RawProperty { vt: 23, scalar: 7, wide: Vec::new() };
    assert_eq!(decode(&raw, &mut rt), Property::U32(7));
}

#[test]
fn decode_bool_any_nonzero_is_true() {
    let mut rt = ForeignRuntime::new();
    let raw = RawProperty { vt: 11, scalar: 0xFFFF, wide: Vec::new() };
    assert_eq!(decode(&raw, &mut rt), Property::Bool(true));
    let raw = RawProperty { vt: 11, scalar: 0, wide: Vec::new() };
    assert_eq!(decode(&raw, &mut rt), Property::Bool(false));
}

#[test]
fn decode_text_alloc_failure_is_propagated() {
    let raw = RawProperty { vt: 31, scalar: 0, wide: vec![0x0041, 0] };
    let mut rt = ForeignRuntime::new();
    rt.fail_next_alloc = true;
    match Property::from_raw(&raw, &mut rt) {
        Err(e) => assert_eq!(e, Error::AllocFailed),
        Ok(p) => panic!("expected allocation failure, got {:?}", p),
    }
    assert_eq!(rt.com_allocs, 0);
}

#[test]
fn decode_text_truncates_at_terminator() {
    let raw = RawProperty { vt: 31, scalar: 0, wide: vec![0x0058, 0, 0x0059, 0] };
    let mut rt = ForeignRuntime::new();
    match decode(&raw, &mut rt) {
        Property::Str(s) => {
            assert_eq!(s.as_winstr().as_slice(), &[0x0058]);
            s.free(&mut rt);
        }
        other => panic!("unexpected variant {:?}", other),
    }
}

#[test]
fn property_equality_ignores_allocator_tag() {
    let a = Property::Str(WinString::from_com_buffer(vec![0x61, 0x62, 0]));
    let b = Property::Str(WinString::from_local_buffer(vec![0x61, 0x62, 0]));
    assert_eq!(a, b);
    let c = Property::Str(WinString::from_com_buffer(vec![0x61, 0]));
    assert_ne!(a, c);
    assert_ne!(Property::I32(1), Property::U32(1));
    // the access-denied status exists independently of the codec
    assert_ne!(Error::Foreign(E_ACCESSDENIED), Error::NotEncodable);
}

#[test]
fn decoding_allocates_only_for_the_text_discriminant() {
    let mut rt = ForeignRuntime::new();
    let raw = RawProperty { vt: 20, scalar: 5, wide: Vec::new() };
    assert_eq!(decode(&raw, &mut rt), Property::I64(5));
    assert_eq!(rt.com_allocs, 0);
    assert_eq!(rt.local_allocs, 0);

    let raw = RawProperty { vt: 31, scalar: 0, wide: vec![0x71, 0] };
    match decode(&raw, &mut rt) {
        Property::Str(s) => s.free(&mut rt),
        other => panic!("unexpected variant {:?}", other),
    }
    assert_eq!(rt.com_allocs, 1);
    assert_eq!(rt.local_allocs, 0);
}
