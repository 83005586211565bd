//! Values in the form the Java Native Interface takes them.

use vstd::prelude::*;
use crate::utils::utf16::{decode_utf16, encode_utf16, utf16, utf16_text};

verus! {

/// `jni_sys::JNI_OK`, the status of a call that succeeded: zero.
#[verifier::external_body]
pub(crate) fn jni_ok() -> (status: i32)
    ensures
        status == 0,
{
    jni_sys::JNI_OK
}

/// `jni_sys::JNI_VERSION_1_8`, the interface version that the launcher asks
/// for: 0x00010008.
#[verifier::external_body]
pub(crate) fn jni_version_1_8() -> (version: i32)
    ensures
        version == 0x0001_0008,
{
    jni_sys::JNI_VERSION_1_8
}

/// `jni_sys::JNI_TRUE`, the Java boolean `true`: one.
#[verifier::external_body]
pub(crate) fn jni_true() -> (value: u8)
    ensures
        value == 1,
{
    jni_sys::JNI_TRUE
}

/// `jni_sys::JNI_FALSE`, the Java boolean `false`: zero.
#[verifier::external_body]
pub(crate) fn jni_false() -> (value: u8)
    ensures
        value == 0,
{
    jni_sys::JNI_FALSE
}

/// A Java boolean as a number.
pub open spec fn java_boolean_of(flag: bool) -> u8 {
    if flag {
        1
    } else {
        0
    }
}

/// The Java boolean for `flag`.
pub fn java_boolean(flag: bool) -> (value: u8)
    ensures
        value == java_boolean_of(flag),
{
    if flag {
        jni_true()
    } else {
        jni_false()
    }
}

/// Text that can be handed to Java and taken back from it. A Java string is
/// passed as its UTF-16 code units.
pub trait JStringExt: Sized {
    /// The characters of the text.
    spec fn chars(&self) -> Seq<char>;

    /// The text that a Java string holds, or `None` where its code units are
    /// not well formed.
    fn from_java_string(units: &[u16]) -> (text: Option<Self>)
        ensures
            match text {
                Some(t) => utf16_text(units@) == Some(t.chars()),
                None => utf16_text(units@) is None,
            },
    ;

    /// The code units of the Java string that holds this text.
    fn to_java_string(&self) -> (units: Vec<u16>)
        ensures
            units@ == utf16(self.chars()),
    ;
}

impl JStringExt for String {
    open spec fn chars(&self) -> Seq<char> {
        self@
    }

    fn from_java_string(units: &[u16]) -> (text: Option<Self>) {
        decode_utf16(units)
    }

    fn to_java_string(&self) -> (units: Vec<u16>) {
        encode_utf16(self.as_str())
    }
}

} // verus!
