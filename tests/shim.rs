use std::cell::Cell;
use std::rc::Rc;
use webview_official::callback::{
    CallbackInterface, ClosureArg, CompletedShim, ErrorCodeArg, EventShim, InterfaceArg,
    InterfaceOut, StringArg,
};
use webview_official::com::{ErrorCode, Guid, E_FAIL, E_NOINTERFACE, E_POINTER, IUNKNOWN_IID, S_OK};

const HANDLER_IID: u128 = 0x4E8A_3389_C9D8_4BD2_B6B5_124F_EE6C_C14D;

fn wide(s: &str) -> Option<Vec<u16>> {
    let mut units: Vec<u16> = s.encode_utf16().collect();
    units.push(0);
    Some(units)
}

#[test]
fn new_shim_holds_one_reference() {
    let shim = CompletedShim::new(Guid::from_u128(HANDLER_IID), |_: ErrorCode, _: String| {
        ErrorCode::new(S_OK)
    });
    let (count, rest) = shim.release();
    assert_eq!(count, 0);
    assert!(rest.is_none());
}

#[test]
fn query_interface_with_null_output_is_refused_and_keeps_the_count() {
    let mut shim = CompletedShim::new(Guid::from_u128(HANDLER_IID), |_: ErrorCode, _: String| {
        ErrorCode::new(S_OK)
    });
    let mut out = InterfaceOut::Null;
    let status = shim.query_interface(Guid::from_u128(HANDLER_IID), &mut out);
    assert_eq!(status.value, E_POINTER);
    assert_eq!(out, InterfaceOut::Null);
    let status = shim.query_interface(Guid::iunknown(), &mut out);
    assert_eq!(status.value, E_POINTER);
    let (count, rest) = shim.release();
    assert_eq!(count, 0);
    assert!(rest.is_none());
}

#[test]
fn query_interface_answers_base_and_declared_identities() {
    let mut shim = EventShim::new(Guid::from_u128(HANDLER_IID), |_: ErrorCode, _: String| {
        ErrorCode::new(S_OK)
    });
    let mut out = InterfaceOut::Unset;
    assert_eq!(shim.query_interface(Guid::from_u128(7), &mut out).value, E_NOINTERFACE);
    assert_eq!(out, InterfaceOut::Unset);
    assert_eq!(shim.query_interface(Guid::from_u128(IUNKNOWN_IID), &mut out).value, S_OK);
    assert_eq!(out, InterfaceOut::Object);
    let mut out = InterfaceOut::Unset;
    assert_eq!(shim.query_interface(Guid::from_u128(HANDLER_IID), &mut out).value, S_OK);
    assert_eq!(out, InterfaceOut::Object);
    assert_eq!(shim.add_ref(), 4);
}

#[test]
fn balanced_add_ref_and_release_free_once_at_the_end() {
    let mut shim = CompletedShim::new(Guid::from_u128(HANDLER_IID), |_: ErrorCode, _: String| {
        ErrorCode::new(S_OK)
    });
    assert_eq!(shim.add_ref(), 2);
    assert_eq!(shim.add_ref(), 3);
    let (count, rest) = shim.release();
    assert_eq!(count, 2);
    let mut shim = rest.expect("still referenced");
    assert_eq!(shim.add_ref(), 3);
    let (count, rest) = shim.release();
    assert_eq!(count, 2);
    let (count, rest) = rest.expect("still referenced").release();
    assert_eq!(count, 1);
    let (count, rest) = rest.expect("still referenced").release();
    assert_eq!(count, 0);
    assert!(rest.is_none());
}

#[test]
fn one_shot_invoke_runs_the_closure_once() {
    let calls = Rc::new(Cell::new(0u32));
    let seen = calls.clone();
    let mut shim = CompletedShim::new(Guid::from_u128(HANDLER_IID), move |code: ErrorCode, text: String| {
        seen.set(seen.get() + 1);
        assert!(code.is_ok());
        assert_eq!(text, "\"foobarbaz\"");
        ErrorCode::new(E_FAIL)
    });
    let first = shim.invoke::<ErrorCodeArg, StringArg>(0, wide("\"foobarbaz\""));
    assert_eq!(first, E_FAIL as i32);
    assert_eq!(calls.get(), 1);
    let second = shim.invoke::<ErrorCodeArg, StringArg>(0, wide("ignored"));
    assert_eq!(second, S_OK as i32);
    assert_eq!(calls.get(), 1);
}

#[test]
fn recurring_invoke_runs_the_closure_every_time() {
    let calls = Rc::new(Cell::new(0u32));
    let seen = calls.clone();
    let mut shim = EventShim::new(Guid::from_u128(HANDLER_IID), move |code: ErrorCode, text: String| {
        seen.set(seen.get() + 1);
        assert_eq!(code.value, 0x8000_4005);
        assert_eq!(text, "message received!");
        ErrorCode::new(S_OK)
    });
    for n in 1..=3u32 {
        let status = shim.invoke::<ErrorCodeArg, StringArg>(0x8000_4005u32 as i32, wide("message received!"));
        assert_eq!(status, 0);
        assert_eq!(calls.get(), n);
    }
}

#[test]
fn error_code_arg_keeps_the_bits() {
    assert_eq!(ErrorCodeArg::convert(0).value, 0);
    assert_eq!(ErrorCodeArg::convert(-2147467259).value, E_FAIL);
    assert!(ErrorCodeArg::convert(1).is_ok());
    assert!(ErrorCodeArg::convert(-1).is_err());
    assert_eq!(ErrorCode::new(E_POINTER).to_raw(), -2147467261);
}

#[test]
fn string_arg_reads_null_as_empty() {
    assert_eq!(StringArg::convert(None), "");
    assert_eq!(StringArg::convert(wide("id-1")), "id-1");
}

#[test]
fn interface_arg_acquires_a_reference() {
    type Handler = fn(ErrorCode, String) -> ErrorCode;
    fn ignore(_: ErrorCode, _: String) -> ErrorCode {
        ErrorCode::new(S_OK)
    }
    assert!(InterfaceArg::<CompletedShim<Handler>>::convert(None).is_none());
    let shim: CompletedShim<Handler> = CompletedShim::new(Guid::from_u128(HANDLER_IID), ignore);
    let mut owned = InterfaceArg::<CompletedShim<Handler>>::convert(Some(shim)).expect("acquired");
    assert_eq!(owned.add_ref(), 3);
}

struct DropCounter(Rc<Cell<u32>>);

impl Drop for DropCounter {
    fn drop(&mut self) {
        self.0.set(self.0.get() + 1);
    }
}

#[test]
fn the_payload_is_freed_exactly_when_the_count_reaches_zero() {
    let drops = Rc::new(Cell::new(0u32));
    let guard = DropCounter(drops.clone());
    let mut shim = EventShim::new(Guid::from_u128(HANDLER_IID), move |_: ErrorCode, _: String| {
        let _ = &guard;
        ErrorCode::new(S_OK)
    });
    assert_eq!(shim.add_ref(), 2);
    let (count, rest) = shim.release();
    assert_eq!(count, 1);
    assert_eq!(drops.get(), 0);
    let (count, rest) = rest.expect("still referenced").release();
    assert_eq!(count, 0);
    assert!(rest.is_none());
    assert_eq!(drops.get(), 1);
}
