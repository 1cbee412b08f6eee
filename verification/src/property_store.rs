//! The tagged-variant property codec and the per-device property store.
//!
//! The foreign side describes a property value as a discriminant plus an
//! untagged union payload. [`Property`] is the closed native sum type;
//! decoding is total over every discriminant (unknown ones degrade to
//! [`Property::Unsupported`], never an error), encoding is defined for
//! every variant except `Unsupported`, which is rejected loudly.

use vstd::prelude::*;

use crate::error::{Error, E_ACCESSDENIED, E_INVALIDARG};
use crate::bits::StorageAccessMode;
use crate::foreign::{
    device_same_except_store, devices_unchanged, registry_unchanged, rt_same_except_device,
    strings_unchanged, ForeignRuntime, Guid, StoreEntry,
};
use crate::string::{
    copy_prefix, lemma_scan_len_props, lemma_scan_len_unique, null_free, scan_len, scan_units,
    units_eq, StringAlloc, WinString,
};

verus! {

/// Discriminant: no value.
pub const VT_EMPTY: u16 = 0;

/// Discriminant: an explicit null value.
pub const VT_NULL: u16 = 1;

/// Discriminant: 16-bit signed integer.
pub const VT_I2: u16 = 2;

/// Discriminant: 32-bit signed integer.
pub const VT_I4: u16 = 3;

/// Discriminant: 32-bit floating point, carried as its bit pattern.
pub const VT_R4: u16 = 4;

/// Discriminant: 64-bit floating point, carried as its bit pattern.
pub const VT_R8: u16 = 5;

/// Discriminant: 16-bit boolean, where any non-zero payload is true.
pub const VT_BOOL: u16 = 11;

/// Discriminant: 8-bit signed integer.
pub const VT_I1: u16 = 16;

/// Discriminant: 8-bit unsigned integer.
pub const VT_UI1: u16 = 17;

/// Discriminant: 16-bit unsigned integer.
pub const VT_UI2: u16 = 18;

/// Discriminant: 32-bit unsigned integer.
pub const VT_UI4: u16 = 19;

/// Discriminant: 64-bit signed integer.
pub const VT_I8: u16 = 20;

/// Discriminant: 64-bit unsigned integer.
pub const VT_UI8: u16 = 21;

/// Discriminant: machine signed integer, decoded like a 32-bit one.
pub const VT_INT: u16 = 22;

/// Discriminant: machine unsigned integer, decoded like a 32-bit one.
pub const VT_UINT: u16 = 23;

/// Discriminant: pointer to a null-terminated wide string.
pub const VT_LPWSTR: u16 = 31;

/// Identifies a property: a 128-bit namespace and a 32-bit sub-index.
#[derive(Debug, Clone, Copy, PartialEq, Eq, Structural)]
pub struct PropertyKey {
    pub fmtid: Guid,
    pub pid: u32,
}

impl PropertyKey {
    pub fn from_raw(fmtid: Guid, pid: u32) -> (r: Self)
        ensures
            r.fmtid == fmtid,
            r.pid == pid,
    {
        PropertyKey { fmtid, pid }
    }
}

/// A property value in the foreign self-describing form: a discriminant,
/// the raw bits of the union payload, and — for the string discriminant —
/// the null-terminated buffer the payload points at.
#[derive(Debug, Clone)]
pub struct RawProperty {
    pub vt: u16,
    pub scalar: u64,
    pub wide: Vec<u16>,
}

impl RawProperty {
    /// A raw string payload must be terminated; other payloads carry no
    /// buffer.
    pub open spec fn wf(&self) -> bool {
        self.vt == VT_LPWSTR ==> self.wide@.contains(0u16)
    }

    /// A fresh copy with the same discriminant and payloads.
    pub fn duplicate(&self) -> (r: Self)
        ensures
            r.vt == self.vt,
            r.scalar == self.scalar,
            r.wide@ == self.wide@,
    {
        RawProperty {
            vt: self.vt,
            scalar: self.scalar,
            wide: copy_prefix(self.wide.as_slice(), self.wide.len()),
        }
    }
}

/// The closed native property sum type.
///
/// Floating-point payloads are carried as their raw bit patterns: the
/// codec moves them bit-for-bit and never computes with them.
#[derive(Debug)]
pub enum Property {
    Empty,
    Null,
    I8(i8),
    U8(u8),
    I16(i16),
    U16(u16),
    I32(i32),
    U32(u32),
    I64(i64),
    U64(u64),
    /// Bit pattern of a 32-bit float payload.
    F32(u32),
    /// Bit pattern of a 64-bit float payload.
    F64(u64),
    Bool(bool),
    Str(WinString),
    /// The foreign value used a discriminant this crate does not model.
    Unsupported,
}

impl Property {
    pub open spec fn wf(&self) -> bool {
        match self {
            Property::Str(s) => s.wf(),
            _ => true,
        }
    }
}

/// The two property values agree: exactly for numeric and boolean
/// variants, code-unit-wise for text.
pub open spec fn same_value(a: Property, b: Property) -> bool {
    match (a, b) {
        (Property::Empty, Property::Empty) => true,
        (Property::Null, Property::Null) => true,
        (Property::I8(x), Property::I8(y)) => x == y,
        (Property::U8(x), Property::U8(y)) => x == y,
        (Property::I16(x), Property::I16(y)) => x == y,
        (Property::U16(x), Property::U16(y)) => x == y,
        (Property::I32(x), Property::I32(y)) => x == y,
        (Property::U32(x), Property::U32(y)) => x == y,
        (Property::I64(x), Property::I64(y)) => x == y,
        (Property::U64(x), Property::U64(y)) => x == y,
        (Property::F32(x), Property::F32(y)) => x == y,
        (Property::F64(x), Property::F64(y)) => x == y,
        (Property::Bool(x), Property::Bool(y)) => x == y,
        (Property::Str(x), Property::Str(y)) => x@ == y@,
        (Property::Unsupported, Property::Unsupported) => true,
        _ => false,
    }
}

impl PartialEq for Property {
    /// Equality agrees with [`same_value`]: the allocator tag of a text
    /// payload does not take part.
    fn eq(&self, other: &Self) -> bool {
        match (self, other) {
            (Property::Empty, Property::Empty) => true,
            (Property::Null, Property::Null) => true,
            (Property::I8(x), Property::I8(y)) => x == y,
            (Property::U8(x), Property::U8(y)) => x == y,
            (Property::I16(x), Property::I16(y)) => x == y,
            (Property::U16(x), Property::U16(y)) => x == y,
            (Property::I32(x), Property::I32(y)) => x == y,
            (Property::U32(x), Property::U32(y)) => x == y,
            (Property::I64(x), Property::I64(y)) => x == y,
            (Property::U64(x), Property::U64(y)) => x == y,
            (Property::F32(x), Property::F32(y)) => x == y,
            (Property::F64(x), Property::F64(y)) => x == y,
            (Property::Bool(x), Property::Bool(y)) => x == y,
            (Property::Str(x), Property::Str(y)) => x == y,
            (Property::Unsupported, Property::Unsupported) => true,
            _ => false,
        }
    }
}

impl vstd::std_specs::cmp::PartialEqSpecImpl for Property {
    open spec fn obeys_eq_spec() -> bool {
        true
    }

    open spec fn eq_spec(&self, other: &Self) -> bool {
        same_value(*self, *other)
    }
}

/// The discriminant is one this crate models.
pub open spec fn supported_vt(vt: u16) -> bool {
    ||| vt == VT_EMPTY
    ||| vt == VT_NULL
    ||| vt == VT_I1
    ||| vt == VT_UI1
    ||| vt == VT_I2
    ||| vt == VT_UI2
    ||| vt == VT_I4
    ||| vt == VT_UI4
    ||| vt == VT_INT
    ||| vt == VT_UINT
    ||| vt == VT_I8
    ||| vt == VT_UI8
    ||| vt == VT_R4
    ||| vt == VT_R8
    ||| vt == VT_BOOL
    ||| vt == VT_LPWSTR
}

/// What decoding a non-string payload yields: a total function of the
/// discriminant and the raw payload bits.
pub open spec fn decode_scalar_spec(vt: u16, scalar: u64) -> Property {
    if vt == VT_EMPTY {
        Property::Empty
    } else if vt == VT_NULL {
        Property::Null
    } else if vt == VT_I1 {
        Property::I8(scalar as i8)
    } else if vt == VT_UI1 {
        Property::U8(scalar as u8)
    } else if vt == VT_I2 {
        Property::I16(scalar as i16)
    } else if vt == VT_UI2 {
        Property::U16(scalar as u16)
    } else if vt == VT_I4 || vt == VT_INT {
        Property::I32(scalar as i32)
    } else if vt == VT_UI4 || vt == VT_UINT {
        Property::U32(scalar as u32)
    } else if vt == VT_I8 {
        Property::I64(scalar as i64)
    } else if vt == VT_UI8 {
        Property::U64(scalar)
    } else if vt == VT_R4 {
        Property::F32(scalar as u32)
    } else if vt == VT_R8 {
        Property::F64(scalar)
    } else if vt == VT_BOOL {
        Property::Bool(scalar as i16 != 0)
    } else {
        Property::Unsupported
    }
}

/// What decoding yields for any discriminant. A string payload becomes an
/// owned COM-tagged copy of the units before the buffer's terminator.
pub open spec fn decodes_to(vt: u16, scalar: u64, wide: Seq<u16>, p: Property) -> bool {
    if vt == VT_LPWSTR {
        match p {
            Property::Str(s) => {
                &&& s@ == wide.subrange(0, scan_len(wide) as int)
                &&& s.tag() == StringAlloc::Com
                &&& s.wf()
            },
            _ => false,
        }
    } else {
        p == decode_scalar_spec(vt, scalar)
    }
}

/// What encoding yields: the discriminant, payload bits, and — for text —
/// the terminated buffer. `Unsupported` has no encoding.
pub open spec fn encodes_to(p: Property, vt: u16, scalar: u64, wide: Seq<u16>) -> bool {
    match p {
        Property::Empty => vt == VT_EMPTY && scalar == 0 && wide.len() == 0,
        Property::Null => vt == VT_NULL && scalar == 0 && wide.len() == 0,
        Property::I8(x) => vt == VT_I1 && scalar == x as u8 as u64 && wide.len() == 0,
        Property::U8(x) => vt == VT_UI1 && scalar == x as u64 && wide.len() == 0,
        Property::I16(x) => vt == VT_I2 && scalar == x as u16 as u64 && wide.len() == 0,
        Property::U16(x) => vt == VT_UI2 && scalar == x as u64 && wide.len() == 0,
        Property::I32(x) => vt == VT_I4 && scalar == x as u32 as u64 && wide.len() == 0,
        Property::U32(x) => vt == VT_UI4 && scalar == x as u64 && wide.len() == 0,
        Property::I64(x) => vt == VT_I8 && scalar == x as u64 && wide.len() == 0,
        Property::U64(x) => vt == VT_UI8 && scalar == x && wide.len() == 0,
        Property::F32(x) => vt == VT_R4 && scalar == x as u64 && wide.len() == 0,
        Property::F64(x) => vt == VT_R8 && scalar == x && wide.len() == 0,
        Property::Bool(x) => vt == VT_BOOL && scalar == (if x {
            1u64
        } else {
            0u64
        }) && wide.len() == 0,
        Property::Str(s) => vt == VT_LPWSTR && scalar == 0 && wide == s@.push(0u16),
        Property::Unsupported => false,
    }
}

impl Property {
    /// Decode a foreign tagged union. Total over every discriminant:
    /// unknown ones yield `Unsupported`. The string discriminant runs the
    /// foreign stringify primitive, which allocates from the COM family;
    /// only that allocation can fail.
    pub fn from_raw(raw: &RawProperty, rt: &mut ForeignRuntime) -> (r: Result<Property, Error>)
        requires
            raw.wf(),
            old(rt).com_allocs < u64::MAX,
        ensures
            registry_unchanged(*old(rt), *final(rt)),
            devices_unchanged(*old(rt), *final(rt)),
            raw.vt != VT_LPWSTR ==> *final(rt) == *old(rt),
            raw.vt != VT_LPWSTR ==> r == Ok::<Property, Error>(
                decode_scalar_spec(raw.vt, raw.scalar),
            ),
            !supported_vt(raw.vt) ==> r == Ok::<Property, Error>(Property::Unsupported),
            raw.vt == VT_LPWSTR ==> {
                &&& final(rt).com_frees == old(rt).com_frees
                &&& final(rt).local_allocs == old(rt).local_allocs
                &&& final(rt).local_frees == old(rt).local_frees
                &&& !final(rt).fail_next_alloc
                &&& (old(rt).fail_next_alloc ==> r == Err::<Property, Error>(Error::AllocFailed)
                    && final(rt).com_allocs == old(rt).com_allocs)
                &&& (!old(rt).fail_next_alloc ==> final(rt).com_allocs == old(rt).com_allocs + 1
                    && (match r {
                    Ok(p) => decodes_to(raw.vt, raw.scalar, raw.wide@, p),
                    Err(_) => false,
                }))
            },
            (match r {
                Ok(p) => p.wf(),
                Err(_) => true,
            }),
    {
        let vt = raw.vt;
        if vt == VT_EMPTY {
            Ok(Property::Empty)
        } else if vt == VT_NULL {
            Ok(Property::Null)
        } else if vt == VT_I1 {
            Ok(Property::I8(#[verifier::truncate] (raw.scalar as i8)))
        } else if vt == VT_UI1 {
            Ok(Property::U8(#[verifier::truncate] (raw.scalar as u8)))
        } else if vt == VT_I2 {
            Ok(Property::I16(#[verifier::truncate] (raw.scalar as i16)))
        } else if vt == VT_UI2 {
            Ok(Property::U16(#[verifier::truncate] (raw.scalar as u16)))
        } else if vt == VT_I4 || vt == VT_INT {
            Ok(Property::I32(#[verifier::truncate] (raw.scalar as i32)))
        } else if vt == VT_UI4 || vt == VT_UINT {
            Ok(Property::U32(#[verifier::truncate] (raw.scalar as u32)))
        } else if vt == VT_I8 {
            Ok(Property::I64(#[verifier::truncate] (raw.scalar as i64)))
        } else if vt == VT_UI8 {
            Ok(Property::U64(raw.scalar))
        } else if vt == VT_R4 {
            Ok(Property::F32(#[verifier::truncate] (raw.scalar as u32)))
        } else if vt == VT_R8 {
            Ok(Property::F64(raw.scalar))
        } else if vt == VT_BOOL {
            Ok(Property::Bool(#[verifier::truncate] (raw.scalar as i16) != 0))
        } else if vt == VT_LPWSTR {
            // the stringify primitive copies the payload into a fresh
            // COM-family buffer
            if !rt.com_string_alloc() {
                return Err(Error::AllocFailed);
            }
            let n = scan_units(raw.wide.as_slice());
            let units = copy_prefix(raw.wide.as_slice(), n);
            proof {
                lemma_scan_len_props(raw.wide@);
            }
            Ok(Property::Str(WinString::from_scanned(units, StringAlloc::Com)))
        } else {
            Ok(Property::Unsupported)
        }
    }

    /// Encode into the foreign tagged union. Defined for every variant but
    /// `Unsupported`, which is rejected with the not-encodable failure and
    /// never emitted as a zeroed union.
    pub fn to_raw(&self) -> (r: Result<RawProperty, Error>)
        ensures
            (*self is Unsupported) <==> r == Err::<RawProperty, Error>(Error::NotEncodable),
            (match r {
                Ok(raw) => encodes_to(*self, raw.vt, raw.scalar, raw.wide@) && raw.wf(),
                Err(e) => e == Error::NotEncodable,
            }),
    {
        match self {
            Property::Empty => Ok(RawProperty { vt: VT_EMPTY, scalar: 0, wide: Vec::new() }),
            Property::Null => Ok(RawProperty { vt: VT_NULL, scalar: 0, wide: Vec::new() }),
            Property::I8(x) => Ok(
                RawProperty {
                    vt: VT_I1,
                    scalar: (#[verifier::truncate] (*x as u8)) as u64,
                    wide: Vec::new(),
                },
            ),
            Property::U8(x) => Ok(RawProperty { vt: VT_UI1, scalar: *x as u64, wide: Vec::new() }),
            Property::I16(x) => Ok(
                RawProperty {
                    vt: VT_I2,
                    scalar: (#[verifier::truncate] (*x as u16)) as u64,
                    wide: Vec::new(),
                },
            ),
            Property::U16(x) => Ok(RawProperty { vt: VT_UI2, scalar: *x as u64, wide: Vec::new() }),
            Property::I32(x) => Ok(
                RawProperty {
                    vt: VT_I4,
                    scalar: (#[verifier::truncate] (*x as u32)) as u64,
                    wide: Vec::new(),
                },
            ),
            Property::U32(x) => Ok(RawProperty { vt: VT_UI4, scalar: *x as u64, wide: Vec::new() }),
            Property::I64(x) => Ok(
                RawProperty {
                    vt: VT_I8,
                    scalar: #[verifier::truncate] (*x as u64),
                    wide: Vec::new(),
                },
            ),
            Property::U64(x) => Ok(RawProperty { vt: VT_UI8, scalar: *x, wide: Vec::new() }),
            Property::F32(x) => Ok(RawProperty { vt: VT_R4, scalar: *x as u64, wide: Vec::new() }),
            Property::F64(x) => Ok(RawProperty { vt: VT_R8, scalar: *x, wide: Vec::new() }),
            Property::Bool(x) => Ok(
                RawProperty {
                    vt: VT_BOOL,
                    scalar: if *x {
                        1
                    } else {
                        0
                    },
                    wide: Vec::new(),
                },
            ),
            Property::Str(s) => {
                // the produced union borrows the string's units in the
                // foreign layout; the model carries them by value, with
                // the terminator appended
                let wide = s.terminated_units();
                proof {
                    assert(wide@[wide@.len() - 1] == 0u16);
                }
                Ok(RawProperty { vt: VT_LPWSTR, scalar: 0, wide })
            },
            Property::Unsupported => Err(Error::NotEncodable),
        }
    }
}

/// Round-trip law: decoding what encoding produced gives the value back —
/// exactly for numeric and boolean variants, code-unit-wise for text.
/// `Unsupported` has no encoding, by design.
pub proof fn lemma_codec_round_trip(p: Property, vt: u16, scalar: u64, wide: Seq<u16>, q: Property)
    requires
        p.wf(),
        !(p is Unsupported),
        encodes_to(p, vt, scalar, wide),
        decodes_to(vt, scalar, wide, q),
    ensures
        same_value(p, q),
{
    match p {
        Property::I8(x) => {
            assert(x as u8 as u64 as i8 == x) by (bit_vector);
        },
        Property::I16(x) => {
            assert(x as u16 as u64 as i16 == x) by (bit_vector);
        },
        Property::I32(x) => {
            assert(x as u32 as u64 as i32 == x) by (bit_vector);
        },
        Property::I64(x) => {
            assert(x as u64 as i64 == x) by (bit_vector);
        },
        Property::U8(x) => {
            assert(x as u64 as u8 == x) by (bit_vector);
        },
        Property::U16(x) => {
            assert(x as u64 as u16 == x) by (bit_vector);
        },
        Property::U32(x) => {
            assert(x as u64 as u32 == x) by (bit_vector);
        },
        Property::F32(x) => {
            assert(x as u64 as u32 == x) by (bit_vector);
        },
        Property::Bool(x) => {
            assert(1u64 as i16 == 1i16) by (bit_vector);
            assert(0u64 as i16 == 0i16) by (bit_vector);
        },
        Property::Str(s) => {
            assert(wide[s@.len() as int] == 0u16);
            lemma_scan_len_unique(wide, s@.len() as int);
            assert(wide.subrange(0, s@.len() as int) =~= s@);
        },
        _ => {},
    }
}

/// Index of the first entry whose key is `key`.
fn find_entry(store: &Vec<StoreEntry>, key: &PropertyKey) -> (r: Option<usize>)
    ensures
        (match r {
            Some(i) => {
                &&& i < store@.len()
                &&& store@[i as int].key == *key
                &&& forall|j: int| 0 <= j < i ==> store@[j].key != *key
            },
            None => forall|j: int| 0 <= j < store@.len() ==> store@[j].key != *key,
        }),
{
    let mut i: usize = 0;
    while i < store.len()
        invariant
            i <= store@.len(),
            forall|j: int| 0 <= j < i ==> store@[j].key != *key,
        decreases store@.len() - i,
    {
        if store[i].key == *key {
            return Some(i);
        }
        i = i + 1;
    }
    None
}

/// A device's property store, opened with an access mode. Values live on
/// the foreign side in their raw tagged-union form; reading decodes them
/// and writing encodes them.
#[derive(Debug, Clone, Copy, PartialEq, Eq, Structural)]
pub struct PropertyStore {
    pub device: u64,
    pub access: StorageAccessMode,
}

impl PropertyStore {
    pub open spec fn valid(&self, rt: ForeignRuntime) -> bool {
        self.device < rt.devices@.len()
    }

    pub open spec fn entries(&self, rt: ForeignRuntime) -> Seq<StoreEntry> {
        rt.devices@[self.device as int].store@
    }

    pub open spec fn has_key(&self, rt: ForeignRuntime, key: PropertyKey) -> bool {
        exists|i: int| 0 <= i < self.entries(rt).len() && self.entries(rt)[i].key == key
    }

    /// How many properties the store holds.
    pub fn get_count(&self, rt: &ForeignRuntime) -> (r: Result<u32, Error>)
        requires
            self.valid(*rt),
            rt.wf_devices(),
        ensures
            r == Ok::<u32, Error>(self.entries(*rt).len() as u32),
    {
        let d = rt.device_index(self.device);
        proof {
            assert(rt.devices@[d as int].wf());
        }
        let n: usize = rt.devices[d].store.len();
        Ok(n as u32)
    }

    /// The key at position `index`; an index outside the range is rejected
    /// with the invalid-argument status, if and only if.
    pub fn get_at(&self, rt: &ForeignRuntime, index: u32) -> (r: Result<PropertyKey, Error>)
        requires
            self.valid(*rt),
            rt.wf_devices(),
        ensures
            index < self.entries(*rt).len() ==> r == Ok::<PropertyKey, Error>(
                self.entries(*rt)[index as int].key,
            ),
            index >= self.entries(*rt).len() ==> r == Err::<PropertyKey, Error>(
                Error::Foreign(E_INVALIDARG),
            ),
    {
        let d = rt.device_index(self.device);
        proof {
            assert(rt.devices@[d as int].wf());
        }
        let n: usize = rt.devices[d].store.len();
        if (index as usize) < n {
            Ok(rt.devices[d].store[index as usize].key)
        } else {
            Err(Error::Foreign(E_INVALIDARG))
        }
    }

    /// The decoded value stored under `key`. A key the store does not hold
    /// reads as `Empty`, as the foreign store contract has it; only the
    /// text discriminant can fail, on its stringify allocation.
    pub fn get_value(&self, rt: &mut ForeignRuntime, key: &PropertyKey) -> (r: Result<
        Property,
        Error,
    >)
        requires
            self.valid(*old(rt)),
            old(rt).wf_devices(),
            old(rt).com_allocs < u64::MAX,
        ensures
            registry_unchanged(*old(rt), *final(rt)),
            devices_unchanged(*old(rt), *final(rt)),
            !self.has_key(*old(rt), *key) ==> *final(rt) == *old(rt) && r == Ok::<Property, Error>(
                Property::Empty,
            ),
            forall|i: int|
                0 <= i < self.entries(*old(rt)).len() && self.entries(*old(rt))[i].key == *key
                    ==> {
                    let raw = self.entries(*old(rt))[i].value;
                    &&& (raw.vt != VT_LPWSTR ==> *final(rt) == *old(rt) && r == Ok::<
                        Property,
                        Error,
                    >(decode_scalar_spec(raw.vt, raw.scalar)))
                    &&& (raw.vt == VT_LPWSTR ==> {
                        &&& !final(rt).fail_next_alloc
                        &&& (old(rt).fail_next_alloc ==> r == Err::<Property, Error>(
                            Error::AllocFailed,
                        ) && final(rt).com_allocs == old(rt).com_allocs)
                        &&& (!old(rt).fail_next_alloc ==> final(rt).com_allocs == old(rt).com_allocs + 1 && (match r {
                            Ok(p) => decodes_to(raw.vt, raw.scalar, raw.wide@, p),
                            Err(_) => false,
                        }))
                    })
                },
            (match r {
                Ok(p) => p.wf(),
                Err(_) => true,
            }),
    {
        let d = rt.device_index(self.device);
        proof {
            assert(rt.devices@[d as int].wf());
        }
        match find_entry(&rt.devices[d].store, key) {
            None => Ok(Property::Empty),
            Some(i) => {
                let raw = rt.devices[d].store[i].value.duplicate();
                Property::from_raw(&raw, rt)
            },
        }
    }

    /// Encode `property` and store it under `key`, replacing any prior
    /// value and marking the store dirty. An `Unsupported` value is
    /// rejected as not encodable; a store opened read-only rejects the
    /// write with the access-denied status.
    pub fn set_value(&self, rt: &mut ForeignRuntime, key: &PropertyKey, property: &Property) -> (r:
        Result<(), Error>)
        requires
            self.valid(*old(rt)),
            old(rt).wf_devices(),
            self.entries(*old(rt)).len() < u32::MAX,
        ensures
            (*property is Unsupported) ==> r == Err::<(), Error>(Error::NotEncodable) && *final(rt)
                == *old(rt),
            !(*property is Unsupported) && !self.access.writable_spec() ==> r == Err::<(), Error>(
                Error::Foreign(E_ACCESSDENIED),
            ) && *final(rt) == *old(rt),
            !(*property is Unsupported) && self.access.writable_spec() ==> {
                &&& r == Ok::<(), Error>(())
                &&& rt_same_except_device(*old(rt), *final(rt), self.device as int)
                &&& device_same_except_store(
                    old(rt).devices@[self.device as int],
                    final(rt).devices@[self.device as int],
                )
                &&& final(rt).devices@[self.device as int].store_dirty
                &&& (!self.has_key(*old(rt), *key) ==> {
                    &&& self.entries(*final(rt)).len() == self.entries(*old(rt)).len() + 1
                    &&& forall|j: int|
                        0 <= j < self.entries(*old(rt)).len() ==> self.entries(*final(rt))[j]
                            == self.entries(*old(rt))[j]
                    &&& self.entries(*final(rt)).last().key == *key
                    &&& encodes_to(
                        *property,
                        self.entries(*final(rt)).last().value.vt,
                        self.entries(*final(rt)).last().value.scalar,
                        self.entries(*final(rt)).last().value.wide@,
                    )
                })
                &&& (forall|i: int|
                    0 <= i < self.entries(*old(rt)).len() && self.entries(*old(rt))[i].key == *key
                        ==> {
                        &&& self.entries(*final(rt)).len() == self.entries(*old(rt)).len()
                        &&& forall|j: int|
                            0 <= j < self.entries(*old(rt)).len() && j != i ==> self.entries(
                                *final(rt),
                            )[j] == self.entries(*old(rt))[j]
                        &&& self.entries(*final(rt))[i].key == *key
                        &&& encodes_to(
                            *property,
                            self.entries(*final(rt))[i].value.vt,
                            self.entries(*final(rt))[i].value.scalar,
                            self.entries(*final(rt))[i].value.wide@,
                        )
                    })
            },
            old(rt).wf_devices() ==> final(rt).wf_devices(),
    {
        let raw = match property.to_raw() {
            Ok(raw) => raw,
            Err(e) => {
                return Err(e);
            },
        };
        if !self.access.writable() {
            return Err(Error::Foreign(E_ACCESSDENIED));
        }
        let d = rt.device_index(self.device);
        proof {
            assert(old(rt).devices@[d as int].wf());
        }
        match find_entry(&rt.devices[d].store, key) {
            Some(i) => {
                rt.devices[d].store[i] = StoreEntry { key: *key, value: raw };
            },
            None => {
                rt.devices[d].store.push(StoreEntry { key: *key, value: raw });
            },
        }
        rt.devices[d].store_dirty = true;
        proof {
            if old(rt).wf_devices() {
                assert forall|j: int| 0 <= j < final(rt).devices@.len() implies (#[trigger] final(rt).devices@[j]).wf() by {
                    assert(old(rt).devices@[j].wf());
                }
            }
        }
        Ok(())
    }

    /// Persist staged property writes: clears the store's dirty mark.
    pub fn commit(&self, rt: &mut ForeignRuntime) -> (r: Result<(), Error>)
        requires
            self.valid(*old(rt)),
        ensures
            r == Ok::<(), Error>(()),
            rt_same_except_device(*old(rt), *final(rt), self.device as int),
            device_same_except_store(
                old(rt).devices@[self.device as int],
                final(rt).devices@[self.device as int],
            ),
            final(rt).devices@[self.device as int].store == old(rt).devices@[self.device
                as int].store,
            !final(rt).devices@[self.device as int].store_dirty,
            old(rt).wf_devices() ==> final(rt).wf_devices(),
    {
        let d = rt.device_index(self.device);
        rt.devices[d].store_dirty = false;
        proof {
            if old(rt).wf_devices() {
                assert forall|j: int| 0 <= j < final(rt).devices@.len() implies (#[trigger] final(rt).devices@[j]).wf() by {
                    assert(old(rt).devices@[j].wf());
                }
            }
        }
        Ok(())
    }
}

} // verus!
