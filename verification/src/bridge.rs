//! The runtime bridge: one protection call into the host application's Java
//! runtime.
//!
//! A call attaches the calling thread, finds the class that performs the
//! privileged operation, and invokes its static method once. The class is
//! looked up directly first; if that fails, the loader of the caller's
//! context object is asked for it. There are no retries.
//!
//! The decisions are made by [`advance`], and what each request hands to
//! the host is made by [`host_call`]; both are total and exact. The requests
//! themselves go through the `jni` crate, in the private module `jvm`;
//! nothing is assumed of what the host answers.

use vstd::prelude::*;
use jni::errors::Error;
use jni::objects::{JClass, JObject, JString};
use jni::{AttachGuard, JavaVM};
use crate::jvm::{
    attach_thread, call_object_method, call_static_boolean, clear_exception, error_text,
    find_class, into_class, new_string,
};

verus! {

/// The class that performs the privileged call, as a slash-separated path.
pub const CLASS_PATH: &'static str = "com/plugin/vpnservice/TauriVpnService";

/// The same class, as the dotted name that a class loader takes.
pub const CLASS_NAME: &'static str = "com.plugin.vpnservice.TauriVpnService";

/// The static method of that class: `boolean protectFd(int)`.
pub const PROTECT_METHOD: &'static str = "protectFd";

pub const PROTECT_SIGNATURE: &'static str = "(I)Z";

/// `ClassLoader getClassLoader()`, asked of the context object.
pub const LOADER_GETTER: &'static str = "getClassLoader";

pub const LOADER_GETTER_SIGNATURE: &'static str = "()Ljava/lang/ClassLoader;";

/// `Class loadClass(String)`, asked of the loader.
pub const LOAD_METHOD: &'static str = "loadClass";

pub const LOAD_SIGNATURE: &'static str = "(Ljava/lang/String;)Ljava/lang/Class;";

/// Why a bridge call gave no answer.
#[derive(Debug, PartialEq, Eq)]
pub enum BridgeError {
    /// The calling thread could not be attached to the runtime.
    AttachFailed,
    /// The direct lookup did not find the class, and the lookup through the
    /// loader did not either, or could not be made because the exception
    /// that the direct lookup left pending could not be cleared.
    ResolutionFailed,
    /// The method call itself failed; the text says how.
    CallFailed(String),
}

/// One request that a bridge call puts to the host runtime.
#[derive(Debug, Clone, Copy, PartialEq, Eq)]
pub enum HostRequest {
    /// Attach the calling thread.
    Attach,
    /// Look the class up directly, by [`CLASS_PATH`].
    FindClass,
    /// Drop the Java exception that the failed lookup left pending; the
    /// runtime fails every further request until that is done.
    ClearPending,
    /// Ask the context object for its class loader.
    ContextLoader,
    /// Make the Java string that holds [`CLASS_NAME`].
    ClassName,
    /// Ask the loader for the class of that name.
    LoadClass,
    /// Call the static method with the descriptor.
    CallProtect,
}

/// What the host replied to a request: `Ok(answer)` when it carried the
/// request out, `Err(text)` when it could not, with its diagnostic text.
///
/// The answer to `CallProtect` is the method's result. To every other
/// request the host answers `true` when it has done what was asked.
pub type HostReply = Result<bool, String>;

/// What a bridge call does after a reply.
#[derive(Debug, PartialEq, Eq)]
pub enum BridgeNext {
    /// Put this request to the host next.
    Ask(HostRequest),
    /// The call is over, with this result.
    Finish(Result<bool, BridgeError>),
}

/// The host carried the request out and said yes.
pub open spec fn granted(reply: HostReply) -> bool {
    reply == Ok::<bool, String>(true)
}

/// What follows `reply` to `request`.
///
/// Only the answer to `CallProtect` is a result of the call; for the other
/// requests anything but `Ok(true)` means that the step failed.
pub open spec fn next_of(request: HostRequest, reply: HostReply) -> BridgeNext {
    match request {
        HostRequest::Attach => if granted(reply) {
            BridgeNext::Ask(HostRequest::FindClass)
        } else {
            BridgeNext::Finish(Err(BridgeError::AttachFailed))
        },
        HostRequest::FindClass => if granted(reply) {
            BridgeNext::Ask(HostRequest::CallProtect)
        } else {
            BridgeNext::Ask(HostRequest::ClearPending)
        },
        HostRequest::ClearPending => if granted(reply) {
            BridgeNext::Ask(HostRequest::ContextLoader)
        } else {
            BridgeNext::Finish(Err(BridgeError::ResolutionFailed))
        },
        HostRequest::ContextLoader => if granted(reply) {
            BridgeNext::Ask(HostRequest::ClassName)
        } else {
            BridgeNext::Finish(Err(BridgeError::ResolutionFailed))
        },
        HostRequest::ClassName => if granted(reply) {
            BridgeNext::Ask(HostRequest::LoadClass)
        } else {
            BridgeNext::Finish(Err(BridgeError::ResolutionFailed))
        },
        HostRequest::LoadClass => if granted(reply) {
            BridgeNext::Ask(HostRequest::CallProtect)
        } else {
            BridgeNext::Finish(Err(BridgeError::ResolutionFailed))
        },
        HostRequest::CallProtect => match reply {
            Ok(answer) => BridgeNext::Finish(Ok(answer)),
            Err(text) => BridgeNext::Finish(Err(BridgeError::CallFailed(text))),
        },
    }
}

/// An upper bound on the requests that a call still makes, `request`
/// included.
pub open spec fn requests_left(request: HostRequest) -> nat {
    match request {
        HostRequest::Attach => 7,
        HostRequest::FindClass => 6,
        HostRequest::ClearPending => 5,
        HostRequest::ContextLoader => 4,
        HostRequest::ClassName => 3,
        HostRequest::LoadClass => 2,
        HostRequest::CallProtect => 1,
    }
}

/// Decides what a bridge call does after `reply` to `request`.
pub fn advance(request: HostRequest, reply: HostReply) -> (next: BridgeNext)
    ensures
        next == next_of(request, reply),
        next matches BridgeNext::Ask(following) ==> requests_left(following) < requests_left(
            request,
        ),
{
    let yes = match &reply {
        Ok(answer) => *answer,
        Err(_) => false,
    };
    match request {
        HostRequest::Attach => if yes {
            BridgeNext::Ask(HostRequest::FindClass)
        } else {
            BridgeNext::Finish(Err(BridgeError::AttachFailed))
        },
        HostRequest::FindClass => if yes {
            BridgeNext::Ask(HostRequest::CallProtect)
        } else {
            BridgeNext::Ask(HostRequest::ClearPending)
        },
        HostRequest::ClearPending => if yes {
            BridgeNext::Ask(HostRequest::ContextLoader)
        } else {
            BridgeNext::Finish(Err(BridgeError::ResolutionFailed))
        },
        HostRequest::ContextLoader => if yes {
            BridgeNext::Ask(HostRequest::ClassName)
        } else {
            BridgeNext::Finish(Err(BridgeError::ResolutionFailed))
        },
        HostRequest::ClassName => if yes {
            BridgeNext::Ask(HostRequest::LoadClass)
        } else {
            BridgeNext::Finish(Err(BridgeError::ResolutionFailed))
        },
        HostRequest::LoadClass => if yes {
            BridgeNext::Ask(HostRequest::CallProtect)
        } else {
            BridgeNext::Finish(Err(BridgeError::ResolutionFailed))
        },
        HostRequest::CallProtect => match reply {
            Ok(answer) => BridgeNext::Finish(Ok(answer)),
            Err(text) => BridgeNext::Finish(Err(BridgeError::CallFailed(text))),
        },
    }
}

/// The request that a call stands at after the host has given `replies`,
/// in order, to the requests made so far; `None` once the call is over.
pub open spec fn reached(replies: Seq<HostReply>) -> Option<HostRequest>
    decreases replies.len(),
{
    if replies.len() == 0 {
        Some(HostRequest::Attach)
    } else {
        match reached(replies.drop_last()) {
            Some(request) => match next_of(request, replies.last()) {
                BridgeNext::Ask(following) => Some(following),
                BridgeNext::Finish(_) => None,
            },
            None => None,
        }
    }
}

/// The result of a call to which the host gave exactly `replies`; `None`
/// where the replies end before the call does, or go on after it.
pub open spec fn outcome(replies: Seq<HostReply>) -> Option<Result<bool, BridgeError>>
{
    if replies.len() == 0 {
        None
    } else {
        match reached(replies.drop_last()) {
            Some(request) => match next_of(request, replies.last()) {
                BridgeNext::Ask(_) => None,
                BridgeNext::Finish(result) => Some(result),
            },
            None => None,
        }
    }
}

/// The text that `request` hands to the host: the class's path, the
/// string's content, or the name of the method to call. Empty where the
/// request carries no text.
pub open spec fn name_of(request: HostRequest) -> Seq<char> {
    match request {
        HostRequest::Attach => Seq::empty(),
        HostRequest::FindClass => CLASS_PATH@,
        HostRequest::ClearPending => Seq::empty(),
        HostRequest::ContextLoader => LOADER_GETTER@,
        HostRequest::ClassName => CLASS_NAME@,
        HostRequest::LoadClass => LOAD_METHOD@,
        HostRequest::CallProtect => PROTECT_METHOD@,
    }
}

/// The signature of the method that `request` calls. Empty where the
/// request calls no method.
pub open spec fn signature_of(request: HostRequest) -> Seq<char> {
    match request {
        HostRequest::ContextLoader => LOADER_GETTER_SIGNATURE@,
        HostRequest::LoadClass => LOAD_SIGNATURE@,
        HostRequest::CallProtect => PROTECT_SIGNATURE@,
        _ => Seq::empty(),
    }
}

/// No parenthesis opens after the first character, so the signature's
/// argument list holds no method signature.
pub open spec fn flat_signature(signature: Seq<char>) -> bool {
    forall|i: int| 1 <= i < signature.len() ==> signature[i] != '('
}

/// What one request hands to the host.
#[derive(Debug, Clone, Copy, PartialEq, Eq)]
pub struct HostCall {
    /// The request that this call carries out.
    pub request: HostRequest,
    /// The class's path, the string's content, or the method's name.
    pub name: &'static str,
    /// The method's signature.
    pub signature: &'static str,
    /// The descriptor, where the request hands one over.
    pub argument: Option<i32>,
}

impl HostCall {
    /// The call carries the texts of `request`, and a descriptor exactly
    /// where `request` is the method call.
    pub open spec fn is_request(self, request: HostRequest) -> bool {
        &&& self.request == request
        &&& self.name@ == name_of(request)
        &&& self.signature@ == signature_of(request)
        &&& self.argument is Some <==> request == HostRequest::CallProtect
    }

    /// The call is what `request` hands to the host in a bridge call for
    /// `fd`: the method call hands over `fd` itself.
    pub open spec fn is_call(self, request: HostRequest, fd: i32) -> bool {
        &&& self.is_request(request)
        &&& request == HostRequest::CallProtect ==> self.argument == Some(fd)
    }
}

/// What `request` hands to the host in a bridge call for `fd`.
pub fn host_call(request: HostRequest, fd: i32) -> (call: HostCall)
    ensures
        call.is_call(request, fd),
        flat_signature(call.signature@),
{
    proof {
        reveal_strlit("");
        reveal_strlit("()Ljava/lang/ClassLoader;");
        reveal_strlit("(Ljava/lang/String;)Ljava/lang/Class;");
        reveal_strlit("(I)Z");
        assert(""@ =~= Seq::<char>::empty());
    }
    match request {
        HostRequest::Attach => HostCall { request, name: "", signature: "", argument: None },
        HostRequest::FindClass => HostCall {
            request,
            name: CLASS_PATH,
            signature: "",
            argument: None,
        },
        HostRequest::ClearPending => HostCall { request, name: "", signature: "", argument: None },
        HostRequest::ContextLoader => HostCall {
            request,
            name: LOADER_GETTER,
            signature: LOADER_GETTER_SIGNATURE,
            argument: None,
        },
        HostRequest::ClassName => HostCall {
            request,
            name: CLASS_NAME,
            signature: "",
            argument: None,
        },
        HostRequest::LoadClass => HostCall {
            request,
            name: LOAD_METHOD,
            signature: LOAD_SIGNATURE,
            argument: None,
        },
        HostRequest::CallProtect => HostCall {
            request,
            name: PROTECT_METHOD,
            signature: PROTECT_SIGNATURE,
            argument: Some(fd),
        },
    }
}

/// A finished bridge call: its result, what was handed to the host with
/// each request, and what the host replied to it.
#[derive(Debug)]
pub struct BridgeRun {
    pub result: Result<bool, BridgeError>,
    pub asked: Vec<HostCall>,
    pub replies: Vec<HostReply>,
}

/// `asked` holds, for every reply, the call of the request that the reply
/// answers, in a bridge call for `fd`.
pub open spec fn asked_for(asked: Seq<HostCall>, replies: Seq<HostReply>, fd: i32) -> bool {
    &&& asked.len() == replies.len()
    &&& forall|i: int|
        0 <= i < asked.len() ==> (#[trigger] reached(replies.take(i)) matches Some(request)
            && asked[i].is_call(request, fd))
}

impl BridgeRun {
    /// The run is a whole bridge call for `fd`: every request was the one
    /// that the replies before it called for and handed over what
    /// [`host_call`] says, and the result is what the replies decide.
    pub open spec fn is_call_for(self, fd: i32) -> bool {
        &&& asked_for(self.asked@, self.replies@, fd)
        &&& outcome(self.replies@) == Some(self.result)
    }
}

/// The reply that stands for the host's `answer` to a request that yields a
/// value, and the value that came with it: a value is a granted request, an
/// error is a failed one, with the error's text.
fn settle<T>(answer: Result<T, Error>) -> (settled: (Option<T>, HostReply))
    ensures
        answer matches Ok(value) ==> settled.0 == Some(value) && granted(settled.1),
        answer is Err ==> settled.0 is None && settled.1 is Err,
{
    match answer {
        Ok(value) => (Some(value), Ok(true)),
        Err(error) => (None, Err(error_text(&error))),
    }
}

/// The reply that stands for the host's `answer` to the method call: the
/// method's own answer, verbatim, or a failure with the error's text.
fn method_reply(answer: Result<bool, Error>) -> (reply: HostReply)
    ensures
        answer matches Ok(value) ==> reply == Ok::<bool, String>(value),
        answer is Err ==> reply is Err,
{
    match answer {
        Ok(value) => Ok(value),
        Err(error) => Err(error_text(&error)),
    }
}

fn copy_reply(reply: &HostReply) -> (copy: HostReply)
    ensures
        copy == *reply,
{
    match reply {
        Ok(answer) => Ok(*answer),
        Err(text) => Err(text.clone()),
    }
}

/// Asks the host application to protect `fd`: attaches the calling thread to
/// `vm`, resolves the class, directly or through the loader of `context`, and
/// calls its static method with `fd`.
///
/// The thread is detached again on every way out, unless it was attached
/// before the call.
pub fn invoke_protect<'vm>(vm: &'vm JavaVM, context: &JObject<'_>, fd: i32) -> (run: BridgeRun)
    ensures
        run.is_call_for(fd),
{
    let mut asked: Vec<HostCall> = Vec::new();
    let mut replies: Vec<HostReply> = Vec::new();
    let mut guard: Option<AttachGuard<'vm>> = None;
    let mut loader: Option<JObject<'vm>> = None;
    let mut name: Option<JString<'vm>> = None;
    let mut class: Option<JClass<'vm>> = None;
    let mut request = HostRequest::Attach;
    loop
        invariant
            reached(replies@) == Some(request),
            asked_for(asked@, replies@, fd),
            request != HostRequest::Attach ==> guard is Some,
            request == HostRequest::ClassName || request == HostRequest::LoadClass
                ==> loader is Some,
            request == HostRequest::LoadClass ==> name is Some,
            request == HostRequest::CallProtect ==> class is Some,
        decreases requests_left(request),
    {
        let call = host_call(request, fd);
        let reply = match request {
            HostRequest::Attach => {
                let (attached, reply) = settle(attach_thread(vm));
                guard = attached;
                reply
            },
            HostRequest::FindClass => {
                let mut attached = guard.unwrap();
                let (found, reply) = settle(find_class(&mut attached, &call));
                guard = Some(attached);
                class = found;
                reply
            },
            HostRequest::ClearPending => {
                let attached = guard.unwrap();
                let (_, reply) = settle(clear_exception(&attached));
                guard = Some(attached);
                reply
            },
            HostRequest::ContextLoader => {
                let mut attached = guard.unwrap();
                let (found, reply) = settle(
                    call_object_method(&mut attached, context, &call, None),
                );
                guard = Some(attached);
                loader = found;
                reply
            },
            HostRequest::ClassName => {
                let attached = guard.unwrap();
                let (made, reply) = settle(new_string(&attached, &call));
                guard = Some(attached);
                name = made;
                reply
            },
            HostRequest::LoadClass => {
                let mut attached = guard.unwrap();
                let target = loader.unwrap();
                let argument = name.unwrap();
                let (found, reply) = settle(
                    call_object_method(&mut attached, &target, &call, Some(&argument)),
                );
                guard = Some(attached);
                loader = Some(target);
                name = Some(argument);
                class = match found {
                    Some(object) => Some(into_class(object)),
                    None => None,
                };
                reply
            },
            HostRequest::CallProtect => {
                let mut attached = guard.unwrap();
                let target = class.unwrap();
                let answer = call_static_boolean(&mut attached, &target, &call);
                guard = Some(attached);
                class = Some(target);
                method_reply(answer)
            },
        };
        let ghost before = replies@;
        asked.push(call);
        replies.push(copy_reply(&reply));
        proof {
            assert(replies@.drop_last() == before);
            assert forall|i: int| 0 <= i < asked@.len() implies (#[trigger] reached(
                replies@.take(i),
            ) matches Some(earlier) && asked@[i].is_call(earlier, fd)) by {
                assert(replies@.take(i) == before.take(i));
                if i == before.len() {
                    assert(before.take(i) == before);
                }
            }
        }
        match advance(request, reply) {
            BridgeNext::Ask(following) => {
                request = following;
            },
            BridgeNext::Finish(result) => {
                return BridgeRun { result, asked, replies };
            },
        }
    }
}

/// What a bridge result means to a caller that only asks whether the socket
/// is protected: every failure of the bridge counts as "not protected".
pub fn answer_of(result: &Result<bool, BridgeError>) -> (answer: bool)
    ensures
        answer == (*result == Ok::<bool, BridgeError>(true)),
{
    match result {
        Ok(value) => *value,
        Err(_) => false,
    }
}

/// Asks the host application to protect `fd` and reports whether it did,
/// together with the run that the answer comes from.
pub fn protect_fd<'vm>(vm: &'vm JavaVM, context: &JObject<'_>, fd: i32) -> (answered: (
    bool,
    BridgeRun,
))
    ensures
        answered.1.is_call_for(fd),
        answered.0 == (answered.1.result == Ok::<bool, BridgeError>(true)),
{
    let run = invoke_protect(vm, context, fd);
    (answer_of(&run.result), run)
}

/// Once a call is over, it stays over: no further reply revives it.
proof fn reached_stays_none(replies: Seq<HostReply>, shorter: int, longer: int)
    requires
        0 <= shorter <= longer <= replies.len(),
        reached(replies.take(shorter)) is None,
    ensures
        reached(replies.take(longer)) is None,
    decreases longer - shorter,
{
    if shorter < longer {
        reached_stays_none(replies, shorter, longer - 1);
        assert(replies.take(longer).drop_last() == replies.take(longer - 1));
    }
}

/// The result of a call to which the host gave exactly `replies`, in order.
pub fn replay(replies: &Vec<HostReply>) -> (result: Option<Result<bool, BridgeError>>)
    ensures
        result == outcome(replies@),
{
    let mut request = HostRequest::Attach;
    let mut index: usize = 0;
    assert(replies@.take(0) == Seq::<HostReply>::empty());
    while index < replies.len()
        invariant
            index <= replies.len(),
            reached(replies@.take(index as int)) == Some(request),
        decreases replies.len() - index,
    {
        let next = advance(request, copy_reply(&replies[index]));
        assert(replies@.take(index + 1).drop_last() == replies@.take(index as int));
        match next {
            BridgeNext::Ask(following) => {
                request = following;
            },
            BridgeNext::Finish(result) => {
                if index + 1 == replies.len() {
                    return Some(result);
                } else {
                    proof {
                        reached_stays_none(replies@, index + 1, replies.len() - 1);
                        assert(replies@.drop_last() == replies@.take(replies.len() - 1));
                    }
                    return None;
                }
            },
        }
        index += 1;
    }
    assert(replies@.take(replies.len() as int) == replies@);
    None
}

/// Every reply brings a call closer to its end.
proof fn reached_is_bounded(replies: Seq<HostReply>)
    ensures
        reached(replies) matches Some(request) ==> replies.len() + requests_left(request) <= 7,
    decreases replies.len(),
{
    if replies.len() > 0 {
        reached_is_bounded(replies.drop_last());
    }
}

/// There are no retries: a call is over after seven replies at most.
pub proof fn call_is_short(replies: Seq<HostReply>)
    requires
        outcome(replies) is Some,
    ensures
        1 <= replies.len() <= 7,
{
    reached_is_bounded(replies.drop_last());
}

/// A call fails with `AttachFailed` exactly when the first request, to
/// attach the thread, fails; nothing else is asked then.
pub proof fn attach_failure_is_immediate(replies: Seq<HostReply>)
    ensures
        outcome(replies) == Some(Err::<bool, BridgeError>(BridgeError::AttachFailed)) <==> (
        replies.len() == 1 && !granted(replies[0])),
{
    reveal_with_fuel(reached, 3);
}

/// A call fails with `ResolutionFailed` only after the direct lookup has
/// failed and a later step has failed too: clearing the pending exception,
/// or one of the steps of the lookup through the loader.
pub proof fn resolution_fails_after_both_lookups(replies: Seq<HostReply>)
    requires
        outcome(replies) == Some(Err::<bool, BridgeError>(BridgeError::ResolutionFailed)),
    ensures
        3 <= replies.len() <= 6,
        granted(replies[0]),
        !granted(replies[1]),
        forall|i: int| 2 <= i < replies.len() - 1 ==> granted(#[trigger] replies[i]),
        !granted(replies.last()),
{
    call_is_short(replies);
    reveal_with_fuel(reached, 7);
}

/// A call that succeeds returns the answer of the method call verbatim, and
/// the method is called only once the class is resolved.
pub proof fn answer_is_verbatim(replies: Seq<HostReply>, answer: bool)
    requires
        outcome(replies) == Some(Ok::<bool, BridgeError>(answer)),
    ensures
        replies.last() == Ok::<bool, String>(answer),
        reached(replies.drop_last()) == Some(HostRequest::CallProtect),
        replies.len() == 3 || replies.len() == 7,
{
    call_is_short(replies);
    reveal_with_fuel(reached, 7);
}

/// The loader is asked for the class that the direct lookup names: the
/// dotted name is the path with every `/` replaced by `.`.
pub proof fn loader_name_matches_path()
    ensures
        CLASS_NAME@ == CLASS_PATH@.map_values(
            |c: char|
                if c == '/' {
                    '.'
                } else {
                    c
                },
        ),
{
    reveal_strlit("com/plugin/vpnservice/TauriVpnService");
    reveal_strlit("com.plugin.vpnservice.TauriVpnService");
}

} // verus!
