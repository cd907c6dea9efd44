use socket_protect::bridge::{
    advance, answer_of, host_call, replay, BridgeError, BridgeNext, HostCall, HostRequest,
    CLASS_NAME, CLASS_PATH, LOADER_GETTER, LOADER_GETTER_SIGNATURE, LOAD_METHOD, LOAD_SIGNATURE,
    PROTECT_METHOD, PROTECT_SIGNATURE,
};

fn failed(text: &str) -> Result<bool, String> {
    Err(text.to_string())
}

const SETUP: [HostRequest; 6] = [
    HostRequest::Attach,
    HostRequest::FindClass,
    HostRequest::ClearPending,
    HostRequest::ContextLoader,
    HostRequest::ClassName,
    HostRequest::LoadClass,
];

#[test]
fn target_names_are_fixed() {
    assert_eq!(CLASS_PATH, "com/plugin/vpnservice/TauriVpnService");
    assert_eq!(CLASS_NAME, "com.plugin.vpnservice.TauriVpnService");
    assert_eq!(PROTECT_METHOD, "protectFd");
    assert_eq!(PROTECT_SIGNATURE, "(I)Z");
    assert_eq!(LOADER_GETTER, "getClassLoader");
    assert_eq!(LOADER_GETTER_SIGNATURE, "()Ljava/lang/ClassLoader;");
    assert_eq!(LOAD_METHOD, "loadClass");
    assert_eq!(LOAD_SIGNATURE, "(Ljava/lang/String;)Ljava/lang/Class;");
}

#[test]
fn loader_name_is_the_dotted_path() {
    assert_eq!(CLASS_NAME, CLASS_PATH.replace('/', "."));
}

#[test]
fn attach_success_leads_to_direct_lookup() {
    assert_eq!(advance(HostRequest::Attach, Ok(true)), BridgeNext::Ask(HostRequest::FindClass));
}

#[test]
fn attach_failure_ends_the_call() {
    assert_eq!(
        advance(HostRequest::Attach, failed("JNI call failed")),
        BridgeNext::Finish(Err(BridgeError::AttachFailed))
    );
}

#[test]
fn direct_lookup_success_leads_to_the_call() {
    assert_eq!(
        advance(HostRequest::FindClass, Ok(true)),
        BridgeNext::Ask(HostRequest::CallProtect)
    );
}

#[test]
fn direct_lookup_failure_clears_the_exception_first() {
    assert_eq!(
        advance(HostRequest::FindClass, failed("Java exception was thrown")),
        BridgeNext::Ask(HostRequest::ClearPending)
    );
}

#[test]
fn cleared_exception_leads_to_the_loader() {
    assert_eq!(
        advance(HostRequest::ClearPending, Ok(true)),
        BridgeNext::Ask(HostRequest::ContextLoader)
    );
}

#[test]
fn exception_that_cannot_be_cleared_is_resolution_failed() {
    assert_eq!(
        advance(HostRequest::ClearPending, failed("Null pointer deref in JNIEnv")),
        BridgeNext::Finish(Err(BridgeError::ResolutionFailed))
    );
}

#[test]
fn loader_steps_follow_one_another() {
    assert_eq!(
        advance(HostRequest::ContextLoader, Ok(true)),
        BridgeNext::Ask(HostRequest::ClassName)
    );
    assert_eq!(advance(HostRequest::ClassName, Ok(true)), BridgeNext::Ask(HostRequest::LoadClass));
    assert_eq!(
        advance(HostRequest::LoadClass, Ok(true)),
        BridgeNext::Ask(HostRequest::CallProtect)
    );
}

#[test]
fn any_loader_step_failure_is_resolution_failed() {
    for request in [HostRequest::ContextLoader, HostRequest::ClassName, HostRequest::LoadClass] {
        assert_eq!(
            advance(request, failed("Null pointer in call_method obj argument")),
            BridgeNext::Finish(Err(BridgeError::ResolutionFailed))
        );
    }
}

#[test]
fn a_refused_step_counts_as_failed() {
    for request in SETUP {
        assert_eq!(advance(request, Ok(false)), advance(request, failed("refused")));
    }
}

#[test]
fn call_answer_is_returned_verbatim() {
    assert_eq!(advance(HostRequest::CallProtect, Ok(true)), BridgeNext::Finish(Ok(true)));
    assert_eq!(advance(HostRequest::CallProtect, Ok(false)), BridgeNext::Finish(Ok(false)));
}

#[test]
fn call_failure_carries_the_text() {
    assert_eq!(
        advance(HostRequest::CallProtect, failed("Method not found: protectFd (I)Z")),
        BridgeNext::Finish(Err(BridgeError::CallFailed(
            "Method not found: protectFd (I)Z".to_string()
        )))
    );
}

#[test]
fn scenario_fallback_resolution_then_true() {
    let replies = vec![
        Ok(true),
        failed("Java exception was thrown"),
        Ok(true),
        Ok(true),
        Ok(true),
        Ok(true),
        Ok(true),
    ];
    assert_eq!(replay(&replies), Some(Ok(true)));
}

#[test]
fn scenario_fallback_step_by_step() {
    let mut asked = vec![HostRequest::Attach];
    let replies = [Ok(true), failed("not found"), Ok(true), Ok(true), Ok(true), Ok(true)];
    for reply in replies {
        match advance(*asked.last().unwrap(), reply) {
            BridgeNext::Ask(next) => asked.push(next),
            BridgeNext::Finish(result) => panic!("ended early with {result:?}"),
        }
    }
    assert_eq!(
        asked,
        vec![
            HostRequest::Attach,
            HostRequest::FindClass,
            HostRequest::ClearPending,
            HostRequest::ContextLoader,
            HostRequest::ClassName,
            HostRequest::LoadClass,
            HostRequest::CallProtect,
        ]
    );
    assert_eq!(advance(HostRequest::CallProtect, Ok(true)), BridgeNext::Finish(Ok(true)));
}

#[test]
fn replay_direct_resolution() {
    assert_eq!(replay(&vec![Ok(true), Ok(true), Ok(true)]), Some(Ok(true)));
    assert_eq!(replay(&vec![Ok(true), Ok(true), Ok(false)]), Some(Ok(false)));
}

#[test]
fn replay_attach_failure() {
    assert_eq!(replay(&vec![failed("detached")]), Some(Err(BridgeError::AttachFailed)));
}

#[test]
fn replay_both_lookups_fail() {
    let at_clear = vec![Ok(true), failed("a"), failed("b")];
    let at_loader = vec![Ok(true), failed("a"), Ok(true), failed("b")];
    let at_name = vec![Ok(true), failed("a"), Ok(true), Ok(true), failed("b")];
    let at_load = vec![Ok(true), failed("a"), Ok(true), Ok(true), Ok(true), failed("b")];
    for replies in [at_clear, at_loader, at_name, at_load] {
        assert_eq!(replay(&replies), Some(Err(BridgeError::ResolutionFailed)));
    }
}

#[test]
fn replay_call_failure_after_fallback() {
    let replies =
        vec![Ok(true), failed("a"), Ok(true), Ok(true), Ok(true), Ok(true), failed("boom")];
    assert_eq!(replay(&replies), Some(Err(BridgeError::CallFailed("boom".to_string()))));
}

#[test]
fn replay_of_an_unfinished_call_is_none() {
    assert_eq!(replay(&vec![]), None);
    assert_eq!(replay(&vec![Ok(true)]), None);
    assert_eq!(replay(&vec![Ok(true), Ok(true)]), None);
    assert_eq!(replay(&vec![Ok(true), failed("a"), Ok(true), Ok(true), Ok(true), Ok(true)]), None);
}

#[test]
fn replay_with_replies_after_the_end_is_none() {
    assert_eq!(replay(&vec![failed("detached"), Ok(true)]), None);
    assert_eq!(replay(&vec![Ok(true), Ok(true), Ok(true), Ok(true)]), None);
    assert_eq!(replay(&vec![Ok(true), Ok(true), Ok(true), Ok(true), Ok(true)]), None);
}

#[test]
fn answer_of_keeps_only_a_true_answer() {
    assert!(answer_of(&Ok(true)));
    assert!(!answer_of(&Ok(false)));
    assert!(!answer_of(&Err(BridgeError::AttachFailed)));
    assert!(!answer_of(&Err(BridgeError::ResolutionFailed)));
    assert!(!answer_of(&Err(BridgeError::CallFailed("boom".to_string()))));
}

fn call(
    request: HostRequest,
    name: &'static str,
    signature: &'static str,
    argument: Option<i32>,
) -> HostCall {
    HostCall { request, name, signature, argument }
}

#[test]
fn host_call_hands_over_the_fixed_texts() {
    let fd = 31;
    assert_eq!(host_call(HostRequest::Attach, fd), call(HostRequest::Attach, "", "", None));
    assert_eq!(
        host_call(HostRequest::FindClass, fd),
        call(HostRequest::FindClass, "com/plugin/vpnservice/TauriVpnService", "", None)
    );
    assert_eq!(
        host_call(HostRequest::ClearPending, fd),
        call(HostRequest::ClearPending, "", "", None)
    );
    assert_eq!(
        host_call(HostRequest::ContextLoader, fd),
        call(HostRequest::ContextLoader, "getClassLoader", "()Ljava/lang/ClassLoader;", None)
    );
    assert_eq!(
        host_call(HostRequest::ClassName, fd),
        call(HostRequest::ClassName, "com.plugin.vpnservice.TauriVpnService", "", None)
    );
    assert_eq!(
        host_call(HostRequest::LoadClass, fd),
        call(HostRequest::LoadClass, "loadClass", "(Ljava/lang/String;)Ljava/lang/Class;", None)
    );
}

#[test]
fn host_call_hands_the_descriptor_to_the_method_only() {
    for fd in [i32::MIN, -1, 0, 7, i32::MAX] {
        assert_eq!(
            host_call(HostRequest::CallProtect, fd),
            call(HostRequest::CallProtect, "protectFd", "(I)Z", Some(fd))
        );
        for request in SETUP {
            assert_eq!(host_call(request, fd).argument, None);
        }
    }
}

#[test]
fn host_call_signatures_hold_no_nested_signature() {
    let mut requests = SETUP.to_vec();
    requests.push(HostRequest::CallProtect);
    for request in requests {
        let signature = host_call(request, 5).signature;
        assert!(!signature.chars().skip(1).any(|c| c == '('));
    }
}
