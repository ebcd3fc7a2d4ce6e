use signals::{null_handler, rust_signal_handler, set_handler, Registry, Signal};
use std::cell::RefCell;
use std::rc::Rc;

#[test]
fn a_delivered_signal_calls_its_handler_once_with_itself() {
    let mut seen = Vec::new();
    {
        let mut registry = Registry::new();
        set_handler(&mut registry, Signal::Usr1, |sig: Signal| seen.push(sig));
        rust_signal_handler(&mut registry, Signal::Usr1.to_i32());
    }
    assert_eq!(seen, vec![Signal::Usr1]);
}

#[test]
fn three_deliveries_make_three_calls() {
    let mut count = 0;
    {
        let mut registry = Registry::new();
        set_handler(&mut registry, Signal::Usr1, |_sig: Signal| count += 1);
        rust_signal_handler(&mut registry, 10);
        rust_signal_handler(&mut registry, 10);
        rust_signal_handler(&mut registry, 10);
    }
    assert_eq!(count, 3);
}

#[test]
fn a_delivery_to_an_empty_slot_does_nothing() {
    let mut count = 0;
    {
        let mut registry = Registry::new();
        rust_signal_handler(&mut registry, Signal::Usr2.to_i32());
        set_handler(&mut registry, Signal::Usr1, |_sig: Signal| count += 1);
        rust_signal_handler(&mut registry, Signal::Usr2.to_i32());
        rust_signal_handler(&mut registry, Signal::Null.to_i32());
        rust_signal_handler(&mut registry, Signal::Sys.to_i32());
    }
    assert_eq!(count, 0);
}

#[test]
fn a_delivery_to_an_empty_registry_does_nothing() {
    let mut registry: Registry<fn(Signal)> = Registry::new();
    for n in 0..=31 {
        rust_signal_handler(&mut registry, n);
    }
    for n in 0..=31 {
        assert!(registry.lookup(Signal::from_i32(n).unwrap()).is_none());
    }
}

#[test]
fn only_the_second_of_two_handlers_is_called() {
    let log = Rc::new(RefCell::new(Vec::new()));
    let mut registry: Registry<Box<dyn FnMut(Signal)>> = Registry::new();
    let first = log.clone();
    set_handler(&mut registry, Signal::Hup, Box::new(move |sig| first.borrow_mut().push(("first", sig))));
    let second = log.clone();
    set_handler(&mut registry, Signal::Hup, Box::new(move |sig| second.borrow_mut().push(("second", sig))));
    rust_signal_handler(&mut registry, 1);
    rust_signal_handler(&mut registry, 1);
    assert_eq!(*log.borrow(), vec![("second", Signal::Hup), ("second", Signal::Hup)]);
}

#[test]
fn the_first_handler_is_dropped_when_it_is_replaced() {
    let token = Rc::new(());
    let mut registry: Registry<Box<dyn FnMut(Signal)>> = Registry::new();
    let held = token.clone();
    set_handler(&mut registry, Signal::Quit, Box::new(move |_sig| { let _ = &held; }));
    assert_eq!(Rc::strong_count(&token), 2);
    set_handler(&mut registry, Signal::Quit, Box::new(|_sig| {}));
    assert_eq!(Rc::strong_count(&token), 1);
}

#[test]
fn each_signal_reaches_its_own_handler() {
    let log = Rc::new(RefCell::new(Vec::new()));
    let mut registry: Registry<Box<dyn FnMut(Signal)>> = Registry::new();
    let for_int = log.clone();
    set_handler(&mut registry, Signal::Int, Box::new(move |sig| for_int.borrow_mut().push(('i', sig))));
    let for_term = log.clone();
    set_handler(&mut registry, Signal::Term, Box::new(move |sig| for_term.borrow_mut().push(('t', sig))));
    rust_signal_handler(&mut registry, 15);
    rust_signal_handler(&mut registry, 2);
    rust_signal_handler(&mut registry, 3);
    rust_signal_handler(&mut registry, 15);
    assert_eq!(
        *log.borrow(),
        vec![('t', Signal::Term), ('i', Signal::Int), ('t', Signal::Term)]
    );
}

#[test]
fn installing_for_one_signal_does_not_change_the_delivery_of_another() {
    let log = Rc::new(RefCell::new(Vec::new()));
    let mut registry: Registry<Box<dyn FnMut(Signal)>> = Registry::new();
    let for_chld = log.clone();
    set_handler(&mut registry, Signal::Chld, Box::new(move |sig| for_chld.borrow_mut().push(sig)));
    rust_signal_handler(&mut registry, 17);
    rust_signal_handler(&mut registry, 18);
    set_handler(&mut registry, Signal::Winch, Box::new(|_sig| {}));
    rust_signal_handler(&mut registry, 17);
    rust_signal_handler(&mut registry, 18);
    assert_eq!(*log.borrow(), vec![Signal::Chld, Signal::Chld]);
}

#[test]
fn signals_above_seventeen_are_delivered() {
    let mut seen = Vec::new();
    {
        let mut registry = Registry::new();
        set_handler(&mut registry, Signal::Sys, |sig: Signal| seen.push(sig.to_i32()));
        rust_signal_handler(&mut registry, 31);
        rust_signal_handler(&mut registry, 30);
    }
    assert_eq!(seen, vec![31]);
}

#[test]
fn a_handler_keeps_its_state_between_deliveries() {
    let mut registry = Registry::new();
    let mut total = 0usize;
    let out = Rc::new(RefCell::new(0usize));
    let sink = out.clone();
    set_handler(&mut registry, Signal::Alrm, move |sig: Signal| {
        total += sig.to_i32() as usize;
        *sink.borrow_mut() = total;
    });
    rust_signal_handler(&mut registry, 14);
    assert_eq!(*out.borrow(), 14);
    rust_signal_handler(&mut registry, 14);
    assert_eq!(*out.borrow(), 28);
}

#[test]
fn the_null_handler_takes_a_delivery() {
    let mut registry = Registry::new();
    set_handler(&mut registry, Signal::Pipe, null_handler);
    rust_signal_handler(&mut registry, 13);
    assert!(registry.lookup(Signal::Pipe).is_some());
}
