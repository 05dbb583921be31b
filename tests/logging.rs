use motek_auth::logging::{log, set_log_callback, LogSink};
use std::cell::RefCell;
use std::rc::Rc;

#[test]
fn log_reaches_installed_callback() {
    let seen: Rc<RefCell<Vec<(String, String)>>> = Rc::new(RefCell::new(Vec::new()));
    let copy = seen.clone();
    let mut sink = LogSink::new();
    log(&sink, "INFO", "dropped before any callback");
    set_log_callback(&mut sink, move |level: &str, message: &str| {
        copy.borrow_mut().push((level.to_string(), message.to_string()))
    });
    log(&sink, "WARN", "disk almost full");
    assert_eq!(*seen.borrow(), vec![("WARN".to_string(), "disk almost full".to_string())]);
}

#[test]
fn later_callback_replaces_earlier() {
    let count = Rc::new(RefCell::new((0, 0)));
    let (a, b) = (count.clone(), count.clone());
    let mut sink: LogSink<Box<dyn Fn(&str, &str)>> = LogSink::new();
    set_log_callback(&mut sink, Box::new(move |_: &str, _: &str| a.borrow_mut().0 += 1));
    log(&sink, "INFO", "one");
    set_log_callback(&mut sink, Box::new(move |_: &str, _: &str| b.borrow_mut().1 += 1));
    log(&sink, "INFO", "two");
    log(&sink, "INFO", "three");
    assert_eq!(*count.borrow(), (1, 2));
}
