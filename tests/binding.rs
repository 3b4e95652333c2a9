use std::cell::RefCell;
use std::rc::Rc;
use webview_official::binding::Bindings;
use webview_official::SizeHint;

#[test]
fn bound_names_are_called_with_id_and_params() {
    let log = Rc::new(RefCell::new(Vec::new()));
    let mut bindings: Bindings<Box<dyn Fn(&str, &str)>> = Bindings::new();
    let sink = log.clone();
    bindings.bind("add", Box::new(move |id: &str, params: &str| {
        sink.borrow_mut().push(format!("add {} {}", id, params));
    }));
    assert!(bindings.contains("add"));
    assert!(!bindings.contains("sub"));
    assert!(bindings.call("add", "1", "[1,2]"));
    assert!(!bindings.call("sub", "2", "[]"));
    assert_eq!(*log.borrow(), vec![String::from("add 1 [1,2]")]);
}

#[test]
fn binding_a_name_again_replaces_its_handler() {
    let log = Rc::new(RefCell::new(Vec::new()));
    let mut bindings: Bindings<Box<dyn Fn(&str, &str)>> = Bindings::new();
    let first = log.clone();
    bindings.bind("f", Box::new(move |_: &str, _: &str| first.borrow_mut().push("first")));
    let other = log.clone();
    bindings.bind("g", Box::new(move |_: &str, _: &str| other.borrow_mut().push("g")));
    let second = log.clone();
    bindings.bind("f", Box::new(move |_: &str, _: &str| second.borrow_mut().push("second")));
    assert!(bindings.call("f", "1", "[]"));
    assert!(bindings.call("g", "2", "[]"));
    assert_eq!(*log.borrow(), vec!["second", "g"]);
}

#[test]
fn size_hint_defaults_to_none() {
    assert_eq!(SizeHint::default(), SizeHint::NONE);
    assert_eq!(SizeHint::NONE.value(), 0);
    assert_eq!(SizeHint::MIN.value(), 1);
    assert_eq!(SizeHint::MAX.value(), 2);
    assert_eq!(SizeHint::FIXED.value(), 3);
}
