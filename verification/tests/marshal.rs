use rucaja::{
    jvalue_from_jboolean, jvalue_from_jbyte, jvalue_from_jchar, jvalue_from_jdouble,
    jvalue_from_jfloat, jvalue_from_jint, jvalue_from_jlong, jvalue_from_jobject,
    jvalue_from_jshort, TaggedValue, ValueKind,
};

#[test]
fn boolean_is_kept() {
    assert_eq!(jvalue_from_jboolean(jni_sys::JNI_TRUE), TaggedValue::Boolean(1));
    assert_eq!(jvalue_from_jboolean(jni_sys::JNI_FALSE), TaggedValue::Boolean(0));
    assert_eq!(jvalue_from_jboolean(255), TaggedValue::Boolean(255));
}

#[test]
fn byte_is_kept() {
    assert_eq!(jvalue_from_jbyte(-128), TaggedValue::Byte(-128));
    assert_eq!(jvalue_from_jbyte(0), TaggedValue::Byte(0));
    assert_eq!(jvalue_from_jbyte(127), TaggedValue::Byte(127));
}

#[test]
fn char_is_kept() {
    assert_eq!(jvalue_from_jchar(0), TaggedValue::Char(0));
    assert_eq!(jvalue_from_jchar(0x41), TaggedValue::Char(0x41));
    assert_eq!(jvalue_from_jchar(0xffff), TaggedValue::Char(0xffff));
}

#[test]
fn short_is_kept() {
    assert_eq!(jvalue_from_jshort(i16::MIN), TaggedValue::Short(i16::MIN));
    assert_eq!(jvalue_from_jshort(-1), TaggedValue::Short(-1));
    assert_eq!(jvalue_from_jshort(i16::MAX), TaggedValue::Short(i16::MAX));
}

#[test]
fn int_is_kept() {
    assert_eq!(jvalue_from_jint(i32::MIN), TaggedValue::Int(i32::MIN));
    assert_eq!(jvalue_from_jint(2), TaggedValue::Int(2));
    assert_eq!(jvalue_from_jint(i32::MAX), TaggedValue::Int(i32::MAX));
}

#[test]
fn long_is_kept() {
    assert_eq!(jvalue_from_jlong(i64::MIN), TaggedValue::Long(i64::MIN));
    assert_eq!(jvalue_from_jlong(-3), TaggedValue::Long(-3));
    assert_eq!(jvalue_from_jlong(i64::MAX), TaggedValue::Long(i64::MAX));
}

#[test]
fn object_is_kept() {
    assert_eq!(jvalue_from_jobject(0), TaggedValue::Object(0));
    assert_eq!(jvalue_from_jobject(0x7f00_1000), TaggedValue::Object(0x7f00_1000));
    assert_eq!(jvalue_from_jobject(usize::MAX), TaggedValue::Object(usize::MAX));
}

#[test]
fn float_keeps_every_bit() {
    let values: [f32; 6] = [0.0, -0.0, 1.5, f32::MIN_POSITIVE, f32::INFINITY, f32::MAX];
    for value in values {
        match jvalue_from_jfloat(value.to_bits()) {
            TaggedValue::Float(bits) => {
                assert_eq!(bits, value.to_bits());
                assert_eq!(f32::from_bits(bits).to_bits(), value.to_bits());
            }
            other => panic!("a float became {:?}", other),
        }
    }
    assert_eq!(jvalue_from_jfloat(0x3fc0_0000), TaggedValue::Float(0x3fc0_0000));
    assert_eq!(f32::from_bits(0x3fc0_0000), 1.5);
}

#[test]
fn float_keeps_the_payload_of_a_nan() {
    let nan: u32 = 0x7fc0_1234;
    assert!(f32::from_bits(nan).is_nan());
    assert_eq!(jvalue_from_jfloat(nan), TaggedValue::Float(0x7fc0_1234));
}

#[test]
fn double_keeps_every_bit() {
    let values: [f64; 6] = [0.0, -0.0, 2.25, f64::MIN_POSITIVE, f64::NEG_INFINITY, f64::MAX];
    for value in values {
        match jvalue_from_jdouble(value.to_bits()) {
            TaggedValue::Double(bits) => {
                assert_eq!(bits, value.to_bits());
                assert_eq!(f64::from_bits(bits).to_bits(), value.to_bits());
            }
            other => panic!("a double became {:?}", other),
        }
    }
    assert_eq!(
        jvalue_from_jdouble(0x4002_0000_0000_0000),
        TaggedValue::Double(0x4002_0000_0000_0000)
    );
    assert_eq!(f64::from_bits(0x4002_0000_0000_0000), 2.25);
}

#[test]
fn double_keeps_the_payload_of_a_nan() {
    let nan: u64 = 0x7ff8_0000_dead_beef;
    assert!(f64::from_bits(nan).is_nan());
    assert_eq!(jvalue_from_jdouble(nan), TaggedValue::Double(0x7ff8_0000_dead_beef));
}

#[test]
fn kinds_are_told_apart() {
    assert_eq!(jvalue_from_jboolean(1).kind(), ValueKind::Boolean);
    assert_eq!(jvalue_from_jbyte(1).kind(), ValueKind::Byte);
    assert_eq!(jvalue_from_jchar(1).kind(), ValueKind::Char);
    assert_eq!(jvalue_from_jdouble(1).kind(), ValueKind::Double);
    assert_eq!(jvalue_from_jfloat(1).kind(), ValueKind::Float);
    assert_eq!(jvalue_from_jint(1).kind(), ValueKind::Int);
    assert_eq!(jvalue_from_jlong(1).kind(), ValueKind::Long);
    assert_eq!(jvalue_from_jobject(1).kind(), ValueKind::Object);
    assert_eq!(jvalue_from_jshort(1).kind(), ValueKind::Short);
}

#[test]
fn equal_numbers_of_different_kinds_differ() {
    assert_ne!(jvalue_from_jint(1), jvalue_from_jlong(1));
    assert_ne!(jvalue_from_jbyte(1), jvalue_from_jboolean(1));
    assert_ne!(jvalue_from_jfloat(0), jvalue_from_jint(0));
}

#[test]
fn marshaling_is_repeatable() {
    assert_eq!(jvalue_from_jint(-7), jvalue_from_jint(-7));
    assert_eq!(jvalue_from_jdouble(0x7ff8_0000_0000_0001), jvalue_from_jdouble(0x7ff8_0000_0000_0001));
}
