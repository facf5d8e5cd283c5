use hopter_macros::{
    check_handler_function_signature, check_main_function_signature, handler_signature_error,
    main_signature_error, Rejection, ReturnKind, SignatureShape,
};

fn shape(input_count: usize, output: ReturnKind) -> SignatureShape {
    SignatureShape {
        input_count,
        output,
        is_async: false,
        is_unsafe: false,
        is_variadic: false,
        has_abi: false,
    }
}

#[test]
fn main_accepts_one_argument_and_unit_or_never() {
    for output in [ReturnKind::Default, ReturnKind::Tuple(0), ReturnKind::Never] {
        let s = shape(1, output);
        assert_eq!(main_signature_error(&s), None);
        check_main_function_signature(&s);
    }
}

#[test]
fn main_rejects_wrong_argument_count() {
    assert_eq!(
        main_signature_error(&shape(0, ReturnKind::Default)),
        Some(Rejection::MainArgumentCount)
    );
    assert_eq!(
        main_signature_error(&shape(2, ReturnKind::Default)),
        Some(Rejection::MainArgumentCount)
    );
}

#[test]
fn main_rejects_other_return_types() {
    assert_eq!(
        main_signature_error(&shape(1, ReturnKind::Tuple(1))),
        Some(Rejection::ReturnType)
    );
    assert_eq!(
        main_signature_error(&shape(1, ReturnKind::Other)),
        Some(Rejection::ReturnType)
    );
}

#[test]
fn main_rejects_async_unsafe_variadic_in_order() {
    let mut s = shape(1, ReturnKind::Default);
    s.is_async = true;
    s.is_unsafe = true;
    s.is_variadic = true;
    assert_eq!(main_signature_error(&s), Some(Rejection::MainAsync));
    s.is_async = false;
    assert_eq!(main_signature_error(&s), Some(Rejection::MainUnsafe));
    s.is_unsafe = false;
    assert_eq!(main_signature_error(&s), Some(Rejection::Variadic));
    s.is_variadic = false;
    s.has_abi = true;
    assert_eq!(main_signature_error(&s), None);
}

#[test]
fn main_argument_count_is_checked_first() {
    let mut s = shape(3, ReturnKind::Other);
    s.is_async = true;
    assert_eq!(main_signature_error(&s), Some(Rejection::MainArgumentCount));
}

#[test]
fn handler_accepts_no_argument_and_unit() {
    for output in [ReturnKind::Default, ReturnKind::Tuple(0)] {
        let s = shape(0, output);
        assert_eq!(handler_signature_error(&s), None);
        check_handler_function_signature(&s);
    }
}

#[test]
fn handler_rejects_never_and_other_returns() {
    for output in [ReturnKind::Never, ReturnKind::Tuple(2), ReturnKind::Other] {
        assert_eq!(
            handler_signature_error(&shape(0, output)),
            Some(Rejection::ReturnType)
        );
    }
}

#[test]
fn handler_rejects_parameters_abi_async_variadic_in_order() {
    assert_eq!(
        handler_signature_error(&shape(1, ReturnKind::Default)),
        Some(Rejection::HandlerArgumentCount)
    );
    let mut s = shape(0, ReturnKind::Default);
    s.has_abi = true;
    s.is_async = true;
    s.is_variadic = true;
    assert_eq!(handler_signature_error(&s), Some(Rejection::HandlerAbi));
    s.has_abi = false;
    assert_eq!(handler_signature_error(&s), Some(Rejection::HandlerAsync));
    s.is_async = false;
    assert_eq!(handler_signature_error(&s), Some(Rejection::Variadic));
    s.is_variadic = false;
    s.is_unsafe = true;
    assert_eq!(handler_signature_error(&s), None);
}

#[test]
fn handler_signature_is_never_a_main_signature() {
    let s = shape(0, ReturnKind::Default);
    assert_eq!(handler_signature_error(&s), None);
    assert_eq!(main_signature_error(&s), Some(Rejection::MainArgumentCount));
}

#[test]
fn rejection_messages() {
    assert_eq!(
        Rejection::MainArgumentCount.message(),
        "Main function must receive one argument of type `cortex_m::Peripherals`."
    );
    assert_eq!(Rejection::ReturnType.message(), "Handler's return type must be ().");
    assert_eq!(Rejection::MainAsync.message(), "Main function cannot be `async`.");
    assert_eq!(Rejection::MainUnsafe.message(), "Main function must be safe.");
    assert_eq!(Rejection::Variadic.message(), "Handler function cannot be variadic.");
    assert_eq!(
        Rejection::HandlerArgumentCount.message(),
        "Handler function should not have any parameter."
    );
    assert_eq!(Rejection::HandlerAbi.message(), "Handler function must have Rust ABI.");
    assert_eq!(Rejection::HandlerAsync.message(), "Handler function cannot be `async`.");
    assert_eq!(
        Rejection::UnsupportedIrq.message(),
        "Handler's argument must be one of the supported IRQs. Forgot to set the MCU model feature?"
    );
}
