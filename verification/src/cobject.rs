//! The tagged-union message codec.
//!
//! Messages in transit between isolates travel as a fixed-layout tagged
//! union: a discriminant tag beside a union whose active member must match
//! the tag exactly — reading any other member is undefined.  This module
//! models that wire object as a tag beside its one active member, keeps the
//! borrowed pointers the wire format carries as plain address bits that the
//! codec passes through untouched, and verifies the two conversions between
//! the wire object and the safe tagged value.  The boundary veneer maps the
//! model to the bit-exact C layout.

use vstd::prelude::*;

use crate::port::Port;

verus! {

/// The element type of a typed-data payload.
#[derive(Clone, Copy, Debug, PartialEq, Eq, Structural)]
pub enum DartTypedDataType {
    ByteData,
    Int8,
    Uint8,
    Uint8Clamped,
    Int16,
    Uint16,
    Int32,
    Uint32,
    Int64,
    Uint64,
    Float32,
    Float64,
    Float32x4,
    Invalid,
}

/// The wire discriminant: which union member a message carries.
/// `Unsupported` is reserved; a message arriving with it is a protocol
/// fault, not a value.
#[derive(Clone, Copy, Debug, PartialEq, Eq, Structural)]
pub enum DartCObjectType {
    Null,
    Bool,
    Int32,
    Int64,
    BigInt,
    Double,
    String,
    Array,
    TypedData,
    ExternalTypedData,
    SendPort,
    Capability,
    Unsupported,
}

/// An arbitrary-precision integer payload: a sign, a digit count, and the
/// address of the borrowed digit buffer.
#[derive(Clone, Copy, Debug, PartialEq, Eq, Structural)]
pub struct CObjectValueBigInt {
    pub neg: bool,
    pub used: usize,
    pub digits: usize,
}

/// A send-port payload: the destination port and its origin.
#[derive(Clone, Copy, Debug, PartialEq, Eq, Structural)]
pub struct CObjectValueSendPort {
    pub id: Port,
    pub origin_id: Port,
}

/// A typed-data payload: the element type, the element count, and the
/// address of the borrowed byte buffer.
#[derive(Clone, Copy, Debug, PartialEq, Eq, Structural)]
pub struct CObjectValueTypedData {
    pub typ: DartTypedDataType,
    pub length: usize,
    pub values: usize,
}

/// An external typed-data payload.  Beside the buffer it carries a peer
/// pointer and the address of a finalizer callback the VM invokes exactly
/// once when it has fully released the buffer — the one place where
/// ownership crosses the boundary explicitly.
#[derive(Clone, Copy, Debug, PartialEq, Eq, Structural)]
pub struct CObjectValueExternalTypedData {
    pub typ: DartTypedDataType,
    pub length: usize,
    pub values: usize,
    pub peer: usize,
    pub callback: usize,
}

/// An array payload on the safe side: the owned sub-objects.  The wire
/// object built from it references each sub-object individually and records
/// their count in its length field.
#[derive(Debug, PartialEq)]
pub struct CObjectValueArray {
    pub values: Vec<CObject>,
}

/// A message value, safe side: a tagged value with one variant per wire
/// discriminant.  The double payload is kept as its IEEE-754 bit pattern and
/// the borrowed string pointer as address bits: the codec never interprets
/// either, it moves them across unchanged.
#[derive(Debug, PartialEq)]
pub enum CObject {
    Null,
    Bool(bool),
    Int32(i32),
    Int64(i64),
    Double(u64),
    String(usize),
    BigInt(CObjectValueBigInt),
    SendPort(CObjectValueSendPort),
    Capability(i64),
    Array(CObjectValueArray),
    TypedData(CObjectValueTypedData),
    ExternalTypedData(CObjectValueExternalTypedData),
}

/// An array payload on the wire side: the length field written beside the
/// sub-object references.
#[derive(Debug, PartialEq)]
pub struct RawCObjectArray {
    pub length: usize,
    pub values: Vec<RawCObject>,
}

/// The one active member of the wire union.
#[derive(Debug, PartialEq)]
pub enum RawCObjectValue {
    Null,
    Bool(bool),
    Int32(i32),
    Int64(i64),
    Double(u64),
    String(usize),
    BigInt(CObjectValueBigInt),
    SendPort(CObjectValueSendPort),
    Capability(i64),
    Array(RawCObjectArray),
    TypedData(CObjectValueTypedData),
    ExternalTypedData(CObjectValueExternalTypedData),
}

/// A message in wire form: the discriminant tag beside the union member it
/// says is active.  The two can only be trusted together where
/// [`raw_wf`] holds of the value's view.
#[derive(Debug, PartialEq)]
pub struct RawCObject {
    pub typ: DartCObjectType,
    pub value: RawCObjectValue,
}

/// The mathematical image of a safe message value; arrays become sequences.
pub enum CObjectView {
    Null,
    Bool(bool),
    Int32(i32),
    Int64(i64),
    Double(u64),
    String(usize),
    BigInt(CObjectValueBigInt),
    SendPort(CObjectValueSendPort),
    Capability(i64),
    Array(Seq<CObjectView>),
    TypedData(CObjectValueTypedData),
    ExternalTypedData(CObjectValueExternalTypedData),
}

/// The mathematical image of a wire array payload.
pub struct RawArrayView {
    pub length: nat,
    pub values: Seq<RawCObjectView>,
}

/// The mathematical image of the wire union's one active member.
pub enum RawValueView {
    Null,
    Bool(bool),
    Int32(i32),
    Int64(i64),
    Double(u64),
    String(usize),
    BigInt(CObjectValueBigInt),
    SendPort(CObjectValueSendPort),
    Capability(i64),
    Array(RawArrayView),
    TypedData(CObjectValueTypedData),
    ExternalTypedData(CObjectValueExternalTypedData),
}

/// The mathematical image of a wire object: tag beside active member.
pub struct RawCObjectView {
    pub typ: DartCObjectType,
    pub value: RawValueView,
}

/// The image of a safe message value.
pub open spec fn cobject_view(c: CObject) -> CObjectView
    decreases c,
{
    match c {
        CObject::Null => CObjectView::Null,
        CObject::Bool(b) => CObjectView::Bool(b),
        CObject::Int32(v) => CObjectView::Int32(v),
        CObject::Int64(v) => CObjectView::Int64(v),
        CObject::Double(v) => CObjectView::Double(v),
        CObject::String(v) => CObjectView::String(v),
        CObject::BigInt(v) => CObjectView::BigInt(v),
        CObject::SendPort(v) => CObjectView::SendPort(v),
        CObject::Capability(v) => CObjectView::Capability(v),
        CObject::Array(_) => CObjectView::Array(
            Seq::new(
                c->Array_0.values@.len(),
                |i: int|
                    if 0 <= i < c->Array_0.values@.len() {
                        cobject_view(c->Array_0.values@[i])
                    } else {
                        CObjectView::Null
                    },
            ),
        ),
        CObject::TypedData(v) => CObjectView::TypedData(v),
        CObject::ExternalTypedData(v) => CObjectView::ExternalTypedData(v),
    }
}

impl View for CObject {
    type V = CObjectView;

    open spec fn view(&self) -> CObjectView {
        cobject_view(*self)
    }
}

/// The image of a wire object.
pub open spec fn raw_view(r: RawCObject) -> RawCObjectView
    decreases r,
{
    RawCObjectView {
        typ: r.typ,
        value: match r.value {
            RawCObjectValue::Null => RawValueView::Null,
            RawCObjectValue::Bool(b) => RawValueView::Bool(b),
            RawCObjectValue::Int32(v) => RawValueView::Int32(v),
            RawCObjectValue::Int64(v) => RawValueView::Int64(v),
            RawCObjectValue::Double(v) => RawValueView::Double(v),
            RawCObjectValue::String(v) => RawValueView::String(v),
            RawCObjectValue::BigInt(v) => RawValueView::BigInt(v),
            RawCObjectValue::SendPort(v) => RawValueView::SendPort(v),
            RawCObjectValue::Capability(v) => RawValueView::Capability(v),
            RawCObjectValue::Array(_) => RawValueView::Array(
                RawArrayView {
                    length: r.value->Array_0.length as nat,
                    values: Seq::new(
                        r.value->Array_0.values@.len(),
                        |i: int|
                            if 0 <= i < r.value->Array_0.values@.len() {
                                raw_view(r.value->Array_0.values@[i])
                            } else {
                                RawCObjectView { typ: DartCObjectType::Null, value: RawValueView::Null }
                            },
                    ),
                },
            ),
            RawCObjectValue::TypedData(v) => RawValueView::TypedData(v),
            RawCObjectValue::ExternalTypedData(v) => RawValueView::ExternalTypedData(v),
        },
    }
}

impl View for RawCObject {
    type V = RawCObjectView;

    open spec fn view(&self) -> RawCObjectView {
        raw_view(*self)
    }
}

/// Well-formedness of a wire object: the tag matches the active union
/// member, an array's recorded length matches its sub-object count, and the
/// same holds of every sub-object.  Reading a wire object is meaningful only
/// under this invariant; in particular the reserved `Unsupported` tag never
/// satisfies it.
pub open spec fn raw_wf(w: RawCObjectView) -> bool
    decreases w,
{
    match w.value {
        RawValueView::Null => w.typ is Null,
        RawValueView::Bool(_) => w.typ is Bool,
        RawValueView::Int32(_) => w.typ is Int32,
        RawValueView::Int64(_) => w.typ is Int64,
        RawValueView::Double(_) => w.typ is Double,
        RawValueView::String(_) => w.typ is String,
        RawValueView::BigInt(_) => w.typ is BigInt,
        RawValueView::SendPort(_) => w.typ is SendPort,
        RawValueView::Capability(_) => w.typ is Capability,
        RawValueView::Array(_) => w.typ is Array && w.value->Array_0.length
            == w.value->Array_0.values.len() && (forall|i: int|
            0 <= i < w.value->Array_0.values.len() ==> raw_wf(
                #[trigger] w.value->Array_0.values[i],
            )),
        RawValueView::TypedData(_) => w.typ is TypedData,
        RawValueView::ExternalTypedData(_) => w.typ is ExternalTypedData,
    }
}

/// What encoding writes: the tag for the value's variant beside the
/// matching union member; an array's length field is its sub-object count.
pub open spec fn spec_encode(v: CObjectView) -> RawCObjectView
    decreases v,
{
    match v {
        CObjectView::Null => RawCObjectView { typ: DartCObjectType::Null, value: RawValueView::Null },
        CObjectView::Bool(b) => RawCObjectView {
            typ: DartCObjectType::Bool,
            value: RawValueView::Bool(b),
        },
        CObjectView::Int32(x) => RawCObjectView {
            typ: DartCObjectType::Int32,
            value: RawValueView::Int32(x),
        },
        CObjectView::Int64(x) => RawCObjectView {
            typ: DartCObjectType::Int64,
            value: RawValueView::Int64(x),
        },
        CObjectView::Double(x) => RawCObjectView {
            typ: DartCObjectType::Double,
            value: RawValueView::Double(x),
        },
        CObjectView::String(x) => RawCObjectView {
            typ: DartCObjectType::String,
            value: RawValueView::String(x),
        },
        CObjectView::BigInt(x) => RawCObjectView {
            typ: DartCObjectType::BigInt,
            value: RawValueView::BigInt(x),
        },
        CObjectView::SendPort(x) => RawCObjectView {
            typ: DartCObjectType::SendPort,
            value: RawValueView::SendPort(x),
        },
        CObjectView::Capability(x) => RawCObjectView {
            typ: DartCObjectType::Capability,
            value: RawValueView::Capability(x),
        },
        CObjectView::Array(_) => RawCObjectView {
            typ: DartCObjectType::Array,
            value: RawValueView::Array(
                RawArrayView {
                    length: v->Array_0.len(),
                    values: Seq::new(
                        v->Array_0.len(),
                        |i: int|
                            if 0 <= i < v->Array_0.len() {
                                spec_encode(v->Array_0[i])
                            } else {
                                RawCObjectView { typ: DartCObjectType::Null, value: RawValueView::Null }
                            },
                    ),
                },
            ),
        },
        CObjectView::TypedData(x) => RawCObjectView {
            typ: DartCObjectType::TypedData,
            value: RawValueView::TypedData(x),
        },
        CObjectView::ExternalTypedData(x) => RawCObjectView {
            typ: DartCObjectType::ExternalTypedData,
            value: RawValueView::ExternalTypedData(x),
        },
    }
}

/// What decoding reads: exactly the union member the tag names, turned back
/// into the safe tagged value.
pub open spec fn spec_decode(w: RawCObjectView) -> CObjectView
    decreases w,
{
    match w.value {
        RawValueView::Null => CObjectView::Null,
        RawValueView::Bool(b) => CObjectView::Bool(b),
        RawValueView::Int32(x) => CObjectView::Int32(x),
        RawValueView::Int64(x) => CObjectView::Int64(x),
        RawValueView::Double(x) => CObjectView::Double(x),
        RawValueView::String(x) => CObjectView::String(x),
        RawValueView::BigInt(x) => CObjectView::BigInt(x),
        RawValueView::SendPort(x) => CObjectView::SendPort(x),
        RawValueView::Capability(x) => CObjectView::Capability(x),
        RawValueView::Array(_) => CObjectView::Array(
            Seq::new(
                w.value->Array_0.values.len(),
                |i: int|
                    if 0 <= i < w.value->Array_0.values.len() {
                        spec_decode(w.value->Array_0.values[i])
                    } else {
                        CObjectView::Null
                    },
            ),
        ),
        RawValueView::TypedData(x) => CObjectView::TypedData(x),
        RawValueView::ExternalTypedData(x) => CObjectView::ExternalTypedData(x),
    }
}

/// The codec round trip: encoding any message value yields a well-formed
/// wire object — its tag matches its active member, and is never the
/// reserved `Unsupported` tag — and decoding that wire object restores the
/// value exactly, sub-objects included.
pub proof fn lemma_codec_round_trip(v: CObjectView)
    ensures
        raw_wf(spec_encode(v)),
        !(spec_encode(v).typ is Unsupported),
        spec_decode(spec_encode(v)) == v,
    decreases v,
{
    match v {
        CObjectView::Array(s) => {
            let w = spec_encode(v);
            let ws = w.value->Array_0.values;
            assert forall|i: int| 0 <= i < s.len() implies raw_wf(#[trigger] ws[i])
                && spec_decode(ws[i]) == s[i] by {
                lemma_codec_round_trip(s[i]);
            }
            assert(spec_decode(w)->Array_0 =~= s);
        },
        _ => {},
    }
}

/// Array nesting: an array of `N` sub-objects — `N` zero included — encodes
/// to a wire object whose length field is `N` and whose sub-objects decode
/// back to the originals.
pub proof fn lemma_array_nesting(s: Seq<CObjectView>)
    ensures
        spec_encode(CObjectView::Array(s)).typ is Array,
        spec_encode(CObjectView::Array(s)).value->Array_0.length == s.len(),
        spec_encode(CObjectView::Array(s)).value->Array_0.values.len() == s.len(),
        forall|i: int|
            0 <= i < s.len() ==> spec_decode(
                #[trigger] spec_encode(CObjectView::Array(s)).value->Array_0.values[i],
            ) == s[i],
{
    assert forall|i: int|
        0 <= i < s.len() implies spec_decode(
        #[trigger] spec_encode(CObjectView::Array(s)).value->Array_0.values[i],
    ) == s[i] by {
        lemma_codec_round_trip(s[i]);
    }
}

impl RawCObject {
    /// Encodes a safe message value into wire form: writes the tag for the
    /// value's variant, then the matching union member.  Sub-objects of an
    /// array are encoded one by one and their count recorded in the length
    /// field.  Borrowed pointers pass through unmodified; nothing is
    /// allocated, copied or validated on their behalf.
    pub fn from(object: &CObject) -> (r: RawCObject)
        ensures
            r@ == spec_encode(object@),
            raw_wf(r@),
            spec_decode(r@) == object@,
        decreases *object,
    {
        proof {
            lemma_codec_round_trip(object@);
        }
        match object {
            CObject::Null => RawCObject { typ: DartCObjectType::Null, value: RawCObjectValue::Null },
            CObject::Bool(b) => RawCObject {
                typ: DartCObjectType::Bool,
                value: RawCObjectValue::Bool(*b),
            },
            CObject::Int32(x) => RawCObject {
                typ: DartCObjectType::Int32,
                value: RawCObjectValue::Int32(*x),
            },
            CObject::Int64(x) => RawCObject {
                typ: DartCObjectType::Int64,
                value: RawCObjectValue::Int64(*x),
            },
            CObject::Double(x) => RawCObject {
                typ: DartCObjectType::Double,
                value: RawCObjectValue::Double(*x),
            },
            CObject::String(x) => RawCObject {
                typ: DartCObjectType::String,
                value: RawCObjectValue::String(*x),
            },
            CObject::BigInt(x) => RawCObject {
                typ: DartCObjectType::BigInt,
                value: RawCObjectValue::BigInt(*x),
            },
            CObject::SendPort(x) => RawCObject {
                typ: DartCObjectType::SendPort,
                value: RawCObjectValue::SendPort(*x),
            },
            CObject::Capability(x) => RawCObject {
                typ: DartCObjectType::Capability,
                value: RawCObjectValue::Capability(*x),
            },
            CObject::Array(a) => {
                let n = a.values.len();
                let mut children: Vec<RawCObject> = Vec::new();
                let mut i: usize = 0;
                while i < n
                    invariant
                        *object matches CObject::Array(av) && av == *a,
                        n == a.values@.len(),
                        i <= n,
                        children@.len() == i,
                        forall|j: int|
                            0 <= j < i ==> raw_view(#[trigger] children@[j]) == spec_encode(
                                cobject_view(a.values@[j]),
                            ),
                    decreases n - i,
                {
                    proof {
                        let co = *object;
                        assert(a.values@[i as int] == co->Array_0.values@[i as int]);
                        assert(decreases_to!(co => co->Array_0.values@[i as int]));
                    }
                    let c = RawCObject::from(&a.values[i]);
                    children.push(c);
                    i = i + 1;
                }
                let r = RawCObject {
                    typ: DartCObjectType::Array,
                    value: RawCObjectValue::Array(RawCObjectArray { length: n, values: children }),
                };
                proof {
                    assert(raw_view(r).value->Array_0.values =~= spec_encode(
                        cobject_view(*object),
                    ).value->Array_0.values);
                }
                r
            },
            CObject::TypedData(x) => RawCObject {
                typ: DartCObjectType::TypedData,
                value: RawCObjectValue::TypedData(*x),
            },
            CObject::ExternalTypedData(x) => RawCObject {
                typ: DartCObjectType::ExternalTypedData,
                value: RawCObjectValue::ExternalTypedData(*x),
            },
        }
    }
}

impl CObject {
    /// Decodes a wire object: reads the tag, then exactly the union member
    /// the tag names.  The wire object must satisfy the layout invariant —
    /// in particular, a message carrying the reserved `Unsupported` tag is a
    /// protocol violation, not a value, and is excluded here; the boundary
    /// treats it as an unrecoverable fault before ever building a wire
    /// value.
    pub fn from(object: &RawCObject) -> (r: CObject)
        requires
            raw_wf(object@),
        ensures
            r@ == spec_decode(object@),
        decreases *object,
    {
        match object.typ {
            DartCObjectType::Null => CObject::Null,
            DartCObjectType::Bool => match &object.value {
                RawCObjectValue::Bool(b) => CObject::Bool(*b),
                _ => vstd::pervasive::unreached(),
            },
            DartCObjectType::Int32 => match &object.value {
                RawCObjectValue::Int32(x) => CObject::Int32(*x),
                _ => vstd::pervasive::unreached(),
            },
            DartCObjectType::Int64 => match &object.value {
                RawCObjectValue::Int64(x) => CObject::Int64(*x),
                _ => vstd::pervasive::unreached(),
            },
            DartCObjectType::Double => match &object.value {
                RawCObjectValue::Double(x) => CObject::Double(*x),
                _ => vstd::pervasive::unreached(),
            },
            DartCObjectType::String => match &object.value {
                RawCObjectValue::String(x) => CObject::String(*x),
                _ => vstd::pervasive::unreached(),
            },
            DartCObjectType::BigInt => match &object.value {
                RawCObjectValue::BigInt(x) => CObject::BigInt(*x),
                _ => vstd::pervasive::unreached(),
            },
            DartCObjectType::SendPort => match &object.value {
                RawCObjectValue::SendPort(x) => CObject::SendPort(*x),
                _ => vstd::pervasive::unreached(),
            },
            DartCObjectType::Capability => match &object.value {
                RawCObjectValue::Capability(x) => CObject::Capability(*x),
                _ => vstd::pervasive::unreached(),
            },
            DartCObjectType::Array => match &object.value {
                RawCObjectValue::Array(a) => {
                    let n = a.values.len();
                    let mut out: Vec<CObject> = Vec::new();
                    let mut i: usize = 0;
                    while i < n
                        invariant
                            raw_wf(raw_view(*object)),
                            object.value matches RawCObjectValue::Array(av) && av == *a,
                            n == a.values@.len(),
                            i <= n,
                            out@.len() == i,
                            forall|j: int|
                                0 <= j < i ==> cobject_view(#[trigger] out@[j]) == spec_decode(
                                    raw_view(a.values@[j]),
                                ),
                        decreases n - i,
                    {
                        proof {
                            let ro = *object;
                            assert(a.values@[i as int] == ro.value->Array_0.values@[i as int]);
                            assert(decreases_to!(ro => ro.value->Array_0.values@[i as int]));
                            assert(raw_view(ro).value->Array_0.values[i as int] == raw_view(
                                a.values@[i as int],
                            ));
                        }
                        let c = CObject::from(&a.values[i]);
                        out.push(c);
                        i = i + 1;
                    }
                    let r = CObject::Array(CObjectValueArray { values: out });
                    proof {
                        assert(cobject_view(r)->Array_0 =~= spec_decode(
                            raw_view(*object),
                        )->Array_0);
                    }
                    r
                },
                _ => vstd::pervasive::unreached(),
            },
            DartCObjectType::TypedData => match &object.value {
                RawCObjectValue::TypedData(x) => CObject::TypedData(*x),
                _ => vstd::pervasive::unreached(),
            },
            DartCObjectType::ExternalTypedData => match &object.value {
                RawCObjectValue::ExternalTypedData(x) => CObject::ExternalTypedData(*x),
                _ => vstd::pervasive::unreached(),
            },
            DartCObjectType::Unsupported => vstd::pervasive::unreached(),
        }
    }

    /// The borrowed string payload's address, where this value carries one.
    /// The boundary, not the codec, is what may read through it.
    pub fn string_address(&self) -> (r: Option<usize>)
        ensures
            r is Some <==> self@ is String,
            r is Some ==> r->0 == self@->String_0,
    {
        match self {
            CObject::String(addr) => Some(*addr),
            _ => None,
        }
    }

    /// This message value in wire form: a well-formed wire object that
    /// decodes back to this value.
    pub fn as_raw(&self) -> (r: RawCObject)
        ensures
            r@ == spec_encode(self@),
            raw_wf(r@),
            spec_decode(r@) == self@,
    {
        RawCObject::from(self)
    }
}

impl CObjectValueArray {
    /// The sub-object at the given index.
    pub fn at(&self, index: usize) -> (r: &CObject)
        requires
            index < self.values@.len(),
        ensures
            r == &self.values@[index as int],
    {
        &self.values[index]
    }
}

} // verus!
