use dart::cobject::CObject;
use dart::cobject::CObjectValueArray;
use dart::cobject::CObjectValueBigInt;
use dart::cobject::CObjectValueExternalTypedData;
use dart::cobject::CObjectValueSendPort;
use dart::cobject::CObjectValueTypedData;
use dart::cobject::DartCObjectType;
use dart::cobject::DartTypedDataType;
use dart::cobject::RawCObjectValue;
use dart::port::Port;

fn round_trip(v: CObject) -> CObject {
    let raw = v.as_raw();
    CObject::from(&raw)
}

#[test]
fn int64_encodes_to_the_matching_tag_and_field() {
    let raw = CObject::Int64(42).as_raw();
    assert_eq!(raw.typ, DartCObjectType::Int64);
    match raw.value {
        RawCObjectValue::Int64(x) => assert_eq!(x, 42),
        _ => panic!("wrong union member written"),
    }
    assert_eq!(CObject::from(&raw), CObject::Int64(42));
}

#[test]
fn scalar_values_round_trip() {
    assert_eq!(round_trip(CObject::Null), CObject::Null);
    assert_eq!(round_trip(CObject::Bool(true)), CObject::Bool(true));
    assert_eq!(round_trip(CObject::Bool(false)), CObject::Bool(false));
    assert_eq!(round_trip(CObject::Int32(-7)), CObject::Int32(-7));
    assert_eq!(round_trip(CObject::Int64(i64::MIN)), CObject::Int64(i64::MIN));
    assert_eq!(round_trip(CObject::Capability(3)), CObject::Capability(3));
}

#[test]
fn double_bits_pass_through_uninterpreted() {
    let bits = f64::to_bits(1.5);
    let raw = CObject::Double(bits).as_raw();
    assert_eq!(raw.typ, DartCObjectType::Double);
    match raw.value {
        RawCObjectValue::Double(x) => assert_eq!(f64::from_bits(x), 1.5),
        _ => panic!("wrong union member written"),
    }
    assert_eq!(round_trip(CObject::Double(bits)), CObject::Double(bits));
}

#[test]
fn send_port_round_trips() {
    let port = Port::make_native_port(88).unwrap();
    let origin = Port::invalid();
    let v = CObject::SendPort(CObjectValueSendPort { id: port, origin_id: origin });
    let raw = v.as_raw();
    assert_eq!(raw.typ, DartCObjectType::SendPort);
    assert_eq!(
        round_trip(CObject::SendPort(CObjectValueSendPort { id: port, origin_id: origin })),
        CObject::SendPort(CObjectValueSendPort { id: port, origin_id: origin })
    );
}

#[test]
fn borrowed_pointer_variants_pass_their_bits_through() {
    assert_eq!(round_trip(CObject::String(0xdead)), CObject::String(0xdead));
    let big = CObjectValueBigInt { neg: true, used: 4, digits: 0x1000 };
    assert_eq!(round_trip(CObject::BigInt(big)), CObject::BigInt(big));
    let td = CObjectValueTypedData {
        typ: DartTypedDataType::Uint8,
        length: 16,
        values: 0x2000,
    };
    assert_eq!(round_trip(CObject::TypedData(td)), CObject::TypedData(td));
    let etd = CObjectValueExternalTypedData {
        typ: DartTypedDataType::ByteData,
        length: 8,
        values: 0x3000,
        peer: 0x4000,
        callback: 0x5000,
    };
    assert_eq!(
        round_trip(CObject::ExternalTypedData(etd)),
        CObject::ExternalTypedData(etd)
    );
}

#[test]
fn empty_array_round_trips_with_zero_length() {
    let raw = CObject::Array(CObjectValueArray { values: vec![] }).as_raw();
    assert_eq!(raw.typ, DartCObjectType::Array);
    match &raw.value {
        RawCObjectValue::Array(a) => {
            assert_eq!(a.length, 0);
            assert_eq!(a.values.len(), 0);
        }
        _ => panic!("wrong union member written"),
    }
    assert_eq!(
        CObject::from(&raw),
        CObject::Array(CObjectValueArray { values: vec![] })
    );
}

#[test]
fn nested_arrays_record_their_length_and_round_trip() {
    let inner = CObject::Array(CObjectValueArray {
        values: vec![CObject::Int32(1), CObject::Bool(true)],
    });
    let outer = CObject::Array(CObjectValueArray {
        values: vec![inner, CObject::Null, CObject::Int64(9)],
    });
    let raw = outer.as_raw();
    assert_eq!(raw.typ, DartCObjectType::Array);
    match &raw.value {
        RawCObjectValue::Array(a) => {
            assert_eq!(a.length, 3);
            assert_eq!(a.values.len(), 3);
            assert_eq!(a.values[0].typ, DartCObjectType::Array);
            match &a.values[0].value {
                RawCObjectValue::Array(b) => assert_eq!(b.length, 2),
                _ => panic!("wrong union member written"),
            }
        }
        _ => panic!("wrong union member written"),
    }
    let decoded = CObject::from(&raw);
    assert_eq!(decoded, outer);
}

#[test]
fn only_string_values_expose_a_string_address() {
    assert_eq!(CObject::String(0xbeef).string_address(), Some(0xbeef));
    assert_eq!(CObject::Null.string_address(), None);
    assert_eq!(CObject::Int64(3).string_address(), None);
}

#[test]
fn array_elements_are_reachable_by_index() {
    let arr = CObjectValueArray { values: vec![CObject::Int32(5), CObject::Null] };
    assert_eq!(*arr.at(0), CObject::Int32(5));
    assert_eq!(*arr.at(1), CObject::Null);
}
