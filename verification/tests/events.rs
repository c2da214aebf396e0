use p1::event::event_manager::EventManager;
use p1::{EventType, WindowEventType};
use std::cell::RefCell;
use std::rc::Rc;

type Callback = Box<dyn Fn(&u32)>;

fn recorder(log: &Rc<RefCell<Vec<(u8, u32)>>>, tag: u8) -> Callback {
    let log = Rc::clone(log);
    Box::new(move |value: &u32| log.borrow_mut().push((tag, *value)))
}

#[test]
fn emit_without_callbacks_does_nothing() {
    let manager: EventManager<EventType, u32, Callback> = EventManager::new();
    manager.emit(EventType::WindowCreate, 1);
    manager.emit(EventType::WindowClose, 2);
}

#[test]
fn callbacks_run_in_the_order_of_registration() {
    let log = Rc::new(RefCell::new(Vec::new()));
    let mut manager: EventManager<EventType, u32, Callback> = EventManager::new();
    manager.on(EventType::WindowCreate, recorder(&log, 1));
    manager.on(EventType::WindowCreate, recorder(&log, 2));
    manager.on(EventType::WindowCreate, recorder(&log, 3));
    manager.emit(EventType::WindowCreate, 7);
    assert_eq!(*log.borrow(), vec![(1, 7), (2, 7), (3, 7)]);
}

#[test]
fn callbacks_of_another_key_are_not_called() {
    let log = Rc::new(RefCell::new(Vec::new()));
    let mut manager: EventManager<EventType, u32, Callback> = EventManager::new();
    manager.on(EventType::WindowCreate, recorder(&log, 1));
    manager.on(EventType::WindowClose, recorder(&log, 2));
    manager.emit(EventType::WindowClose, 5);
    assert_eq!(*log.borrow(), vec![(2, 5)]);
    manager.emit(EventType::WindowCreate, 6);
    manager.emit(EventType::WindowCreate, 8);
    assert_eq!(*log.borrow(), vec![(2, 5), (1, 6), (1, 8)]);
}

#[test]
fn plain_functions_can_be_callbacks() {
    fn ignore(_: &()) {}
    let mut manager: EventManager<WindowEventType, (), fn(&())> = EventManager::new();
    manager.on(WindowEventType::Update, ignore);
    manager.on(WindowEventType::Update, ignore);
    manager.emit(WindowEventType::Update, ());
}

#[test]
fn integer_keys_work_too() {
    let log = Rc::new(RefCell::new(Vec::new()));
    let mut manager: EventManager<u64, u32, Callback> = EventManager::new();
    manager.on(10, recorder(&log, 1));
    manager.on(20, recorder(&log, 2));
    manager.on(10, recorder(&log, 3));
    manager.emit(10, 4);
    manager.emit(30, 9);
    assert_eq!(*log.borrow(), vec![(1, 4), (3, 4)]);
}
