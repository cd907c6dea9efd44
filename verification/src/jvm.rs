//! The requests that the bridge puts to the host's Java runtime.
//!
//! Nothing in this module is proved. Each function hands one request to the
//! `jni` crate and gives back what came of it. No contract promises anything
//! of an outcome: what the runtime answers is the host's to decide, so
//! verified callers must be right for every answer.
//!
//! What a function requires is that the call it is handed be the one that
//! its request makes, and, where `jni` parses a method signature, that the
//! signature be one on which the parser's caller does not panic.

use vstd::prelude::*;
use crate::bridge::{flat_signature, HostCall, HostRequest};
use jni::errors::Error;
use jni::objects::{JClass, JObject, JString, JValue};
use jni::{AttachGuard, JavaVM};

verus! {

/// `jni::JavaVM`, the handle to the process's Java runtime.
#[verifier::external_type_specification]
#[verifier::external_body]
pub struct ExJavaVM(JavaVM);

/// `jni::AttachGuard`, which stands for "this thread is attached" and gives
/// access to the thread's JNI environment.
#[verifier::external_type_specification]
#[verifier::external_body]
pub struct ExAttachGuard<'local>(AttachGuard<'local>);

/// The target of the raw reference inside a `JObject`; it appears in the
/// signature of `JObject`'s `Deref`.
#[verifier::external_type_specification]
#[verifier::external_body]
pub struct ExRawObject(jni::sys::_jobject);

/// `jni::objects::JObject`, a local reference to a Java object.
#[verifier::external_type_specification]
#[verifier::external_body]
pub struct ExJObject<'local>(JObject<'local>);

/// `jni::objects::JClass`, a local reference to a Java class.
#[verifier::external_type_specification]
#[verifier::external_body]
pub struct ExJClass<'local>(JClass<'local>);

/// `jni::objects::JString`, a local reference to a Java string.
#[verifier::external_type_specification]
#[verifier::external_body]
pub struct ExJString<'local>(JString<'local>);

/// `jni::errors::Error`.
#[verifier::external_type_specification]
#[verifier::external_body]
pub struct ExError(Error);

/// `JavaVM::attach_current_thread`: attaches the calling thread to the
/// runtime. The guard detaches the thread again when it is dropped, unless
/// the thread was attached before the call. Nothing is claimed of the
/// outcome.
#[verifier::external_body]
pub(crate) fn attach_thread<'vm>(vm: &'vm JavaVM) -> Result<AttachGuard<'vm>, Error> {
    vm.attach_current_thread()
}

/// `JNIEnv::find_class`: looks a class up by the slash-separated path in
/// `call.name`. Nothing is claimed of the outcome.
#[verifier::external_body]
pub(crate) fn find_class<'local>(guard: &mut AttachGuard<'local>, call: &HostCall) -> Result<
    JClass<'local>,
    Error,
>
    requires
        call.is_request(HostRequest::FindClass),
{
    guard.find_class(call.name)
}

/// `JNIEnv::exception_clear`: drops the Java exception that is pending on
/// this thread, if there is one. Nothing is claimed of the outcome.
#[verifier::external_body]
pub(crate) fn clear_exception(guard: &AttachGuard<'_>) -> Result<(), Error> {
    guard.exception_clear()
}

/// `JNIEnv::new_string`: makes a Java string that holds `call.name`. Nothing
/// is claimed of the outcome.
#[verifier::external_body]
pub(crate) fn new_string<'local>(guard: &AttachGuard<'local>, call: &HostCall) -> Result<
    JString<'local>,
    Error,
>
    requires
        call.is_request(HostRequest::ClassName),
{
    guard.new_string(call.name)
}

/// `JNIEnv::call_method`, for the method of `target` that `call` names: one
/// that returns an object and takes nothing (the loader's getter) or one
/// string (the loader's lookup). Nothing is claimed of the outcome.
///
/// `call_method` panics on a signature whose argument list holds a method
/// signature; a flat signature holds none.
#[verifier::external_body]
pub(crate) fn call_object_method<'local>(
    guard: &mut AttachGuard<'local>,
    target: &JObject<'_>,
    call: &HostCall,
    argument: Option<&JString<'_>>,
) -> Result<JObject<'local>, Error>
    requires
        flat_signature(call.signature@),
        call.is_request(HostRequest::ContextLoader) && argument is None || call.is_request(
            HostRequest::LoadClass,
        ) && argument is Some,
{
    let arguments: Vec<JValue> = argument.into_iter().map(JValue::from).collect();
    guard.call_method(target, call.name, call.signature, &arguments)?.l()
}

/// `JClass::from`: takes a reference to an object as a reference to a
/// class. The reference itself is unchanged; nothing is claimed of what it
/// refers to.
#[verifier::external_body]
pub(crate) fn into_class<'local>(object: JObject<'local>) -> JClass<'local> {
    JClass::from(object)
}

/// `JNIEnv::call_static_method`, for the static method of `class` that
/// `call` names: one that takes the `int` in `call.argument` and returns a
/// `boolean`. Nothing is claimed of the outcome.
///
/// `call_static_method` panics on a signature whose argument list holds a
/// method signature; a flat signature holds none.
#[verifier::external_body]
pub(crate) fn call_static_boolean<'local>(
    guard: &mut AttachGuard<'local>,
    class: &JClass<'_>,
    call: &HostCall,
) -> Result<bool, Error>
    requires
        flat_signature(call.signature@),
        call.is_request(HostRequest::CallProtect),
{
    let arguments: Vec<JValue> = call.argument.into_iter().map(JValue::from).collect();
    guard.call_static_method(class, call.name, call.signature, &arguments)?.z()
}

/// The error's text, as the `Display` implementation of `jni::errors::Error`
/// writes it. Nothing is claimed of the text.
#[verifier::external_body]
pub(crate) fn error_text(error: &Error) -> String {
    format!("{error}")
}

} // verus!
