//! What each operation of the handle layer asks for and how it reads the
//! answer, on chosen values.

use pytype::err::PyErr;
use pytype::objects::{PyDict, PyObject, PyTuple};
use pytype::pointers::PyPtr;
use pytype::protocol::{status_is_yes, ForeignCall};
use pytype::python::{Python, ToPyPointer};
use pytype::text::{decode_c_str, find_c_str_len};
use pytype::typeobject::PyType;

fn token() -> Python {
    Python::assume_gil_acquired()
}

#[test]
fn from_type_ptr_keeps_the_address_and_adds_one_reference() {
    let (ty, incref) = PyType::from_type_ptr(token(), 0x1000);
    assert_eq!(ty.as_type_ptr(), 0x1000);
    assert_eq!(ty.as_ptr(), 0x1000);
    assert_eq!(incref, ForeignCall::IncRef { object: 0x1000 });
}

#[test]
fn null_type_pointer_is_refused() {
    assert!(PyType::from_type_ptr_or_opt(token(), 0).is_none());
}

#[test]
fn other_type_pointer_is_borrowed() {
    match PyType::from_type_ptr_or_opt(token(), 0x1000) {
        Some((ty, incref)) => {
            assert_eq!(ty.as_type_ptr(), 0x1000);
            assert_eq!(incref, ForeignCall::IncRef { object: 0x1000 });
        }
        None => panic!("a live address was refused"),
    }
    assert!(PyType::from_type_ptr_or_opt(token(), 1).is_some());
    assert!(PyType::from_type_ptr_or_opt(token(), usize::MAX).is_some());
}

#[test]
fn release_gives_the_reference_back() {
    let py = token();
    let (ty, _) = PyType::from_type_ptr(py, 0x1000);
    assert_eq!(ty.release(), ForeignCall::DecRef { object: 0x1000 });
    let obj = PyObject::from_owned_ptr(py, 0x20);
    assert_eq!(obj.release(), ForeignCall::DecRef { object: 0x20 });
    let tuple = PyTuple::from_owned_ptr(py, 0x30);
    assert_eq!(tuple.release(), ForeignCall::DecRef { object: 0x30 });
    let dict = PyDict::from_owned_ptr(py, 0x40);
    assert_eq!(dict.release(), ForeignCall::DecRef { object: 0x40 });
}

#[test]
fn owned_pointer_is_taken_over_without_counting() {
    let py = token();
    let ptr = PyPtr::from_owned_ptr(py, 0x50);
    assert_eq!(ptr.as_ptr(), 0x50);
    assert_eq!(ptr.release(), ForeignCall::DecRef { object: 0x50 });
}

#[test]
fn borrowed_pointer_is_counted_once() {
    let py = token();
    let (ptr, incref) = PyPtr::from_borrowed_ptr(py, 0x60);
    assert_eq!(ptr.as_ptr(), 0x60);
    assert_eq!(incref, ForeignCall::IncRef { object: 0x60 });
    assert_eq!(ptr.release(), ForeignCall::DecRef { object: 0x60 });
}

#[test]
fn handles_on_one_address_are_equal() {
    let py = token();
    let (a, _) = PyType::from_type_ptr(py, 0x1000);
    let (b, _) = PyType::from_type_ptr(py, 0x1000);
    let (c, _) = PyType::from_type_ptr(py, 0x2000);
    assert!(a == b);
    assert!(b == a);
    assert!(a == a);
    assert!(a != c);
    assert!(c != b);
    assert_eq!(a, b);
    assert_ne!(a, c);
}

#[test]
fn name_asks_for_the_name_of_this_type() {
    let py = token();
    let (ty, _) = PyType::from_type_ptr(py, 0x1000);
    assert_eq!(ty.name(py), ForeignCall::TypeName { ty: 0x1000 });
}

#[test]
fn subtype_question_names_self_first() {
    let py = token();
    let (sub, _) = PyType::from_type_ptr(py, 0x1000);
    let (sup, _) = PyType::from_type_ptr(py, 0x2000);
    assert_eq!(
        sub.is_subtype_of(py, &sup),
        ForeignCall::IsSubtype { sub: 0x1000, sup: 0x2000 }
    );
    assert_eq!(
        sup.is_subtype_of(py, &sub),
        ForeignCall::IsSubtype { sub: 0x2000, sup: 0x1000 }
    );
    assert_eq!(
        sub.is_subtype_of(py, &sub),
        ForeignCall::IsSubtype { sub: 0x1000, sup: 0x1000 }
    );
}

#[test]
fn instance_question_names_the_object_first() {
    let py = token();
    let (ty, _) = PyType::from_type_ptr(py, 0x1000);
    let obj = PyObject::from_owned_ptr(py, 0x20);
    assert_eq!(
        ty.is_instance(py, &obj),
        ForeignCall::TypeCheck { object: 0x20, ty: 0x1000 }
    );
    let (other, _) = PyType::from_type_ptr(py, 0x2000);
    assert_eq!(
        ty.is_instance(py, &other),
        ForeignCall::TypeCheck { object: 0x2000, ty: 0x1000 }
    );
    assert_eq!(
        ty.is_instance(py, &Some(&obj)),
        ForeignCall::TypeCheck { object: 0x20, ty: 0x1000 }
    );
}

#[test]
fn call_without_keywords_passes_null() {
    let py = token();
    let (ty, _) = PyType::from_type_ptr(py, 0x1000);
    let args = PyTuple::from_owned_ptr(py, 0x30);
    assert_eq!(
        ty.call(py, &args, None),
        ForeignCall::Call { callee: 0x1000, args: 0x30, kwargs: 0 }
    );
}

#[test]
fn call_with_keywords_passes_the_mapping() {
    let py = token();
    let (ty, _) = PyType::from_type_ptr(py, 0x1000);
    let args = PyTuple::from_owned_ptr(py, 0x30);
    let kwargs = PyDict::from_owned_ptr(py, 0x40);
    assert_eq!(
        ty.call(py, &args, Some(&kwargs)),
        ForeignCall::Call { callee: 0x1000, args: 0x30, kwargs: 0x40 }
    );
    assert_ne!(ty.call(py, &args, Some(&kwargs)), ty.call(py, &args, None));
}

#[test]
fn absent_value_is_the_null_pointer() {
    let py = token();
    let dict = PyDict::from_owned_ptr(py, 0x40);
    let absent: Option<&PyDict> = None;
    assert_eq!(absent.as_ptr(), 0);
    assert_eq!(Some(&dict).as_ptr(), 0x40);
}

#[test]
fn null_result_is_the_error() {
    let r = PyObject::from_owned_ptr_or_err(token(), 0);
    match r {
        Ok(_) => panic!("a null pointer was taken for an object"),
        Err(e) => assert_eq!(e, PyErr {}),
    }
}

#[test]
fn other_result_is_the_object() {
    let r = PyObject::from_owned_ptr_or_err(token(), 0x7f00);
    match r {
        Ok(obj) => assert_eq!(obj.as_ptr(), 0x7f00),
        Err(_) => panic!("a new reference was taken for a failure"),
    }
    let top = PyObject::from_owned_ptr_or_err(token(), usize::MAX);
    assert!(matches!(top, Ok(_)));
}

#[test]
fn status_word_zero_is_no_and_all_else_is_yes() {
    assert!(!status_is_yes(0));
    assert!(status_is_yes(1));
    assert!(status_is_yes(-1));
    assert!(status_is_yes(2));
    assert!(status_is_yes(i32::MAX));
    assert!(status_is_yes(i32::MIN));
}

#[test]
fn c_string_ends_at_the_first_nul() {
    assert_eq!(find_c_str_len(b"int\0"), 3);
    assert_eq!(find_c_str_len(b"int\0tail\0"), 3);
    assert_eq!(find_c_str_len(b"int"), 3);
    assert_eq!(find_c_str_len(b"\0"), 0);
    assert_eq!(find_c_str_len(b"\0abc"), 0);
    assert_eq!(find_c_str_len(b""), 0);
}

#[test]
fn name_of_plain_text_is_the_text() {
    assert_eq!(decode_c_str(b"int\0"), "int");
    assert_eq!(decode_c_str(b"collections.OrderedDict\0"), "collections.OrderedDict");
    assert_eq!(decode_c_str(b"\0"), "");
    assert_eq!(decode_c_str(b""), "");
}

#[test]
fn name_stops_at_the_terminator() {
    assert_eq!(decode_c_str(b"str\0int\0"), "str");
    assert_eq!(decode_c_str(b"str"), "str");
    assert_eq!(decode_c_str(b"a\0\xff"), "a");
}

#[test]
fn name_of_valid_multibyte_text_is_decoded() {
    assert_eq!(decode_c_str("caf\u{e9}\0".as_bytes()), "caf\u{e9}");
    assert_eq!(decode_c_str(&[0xf0, 0x9f, 0x92, 0x96, 0]), "\u{1f496}");
}

#[test]
fn name_with_invalid_bytes_is_replaced_not_refused() {
    assert_eq!(decode_c_str(b"ab\xffcd\0"), "ab\u{fffd}cd");
    assert_eq!(decode_c_str(b"\xc3\0"), "\u{fffd}");
    assert_eq!(decode_c_str(b"Hello \xf0\x90\x80World\0"), "Hello \u{fffd}World");
    assert_eq!(decode_c_str(b"\x80\x80"), "\u{fffd}\u{fffd}");
}
