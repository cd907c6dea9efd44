use socket_protect::protector::{
    protect_socket, set_socket_protect_callback, set_socket_protector, CallbackProtector,
    ProtectorRegistry, SocketProtector,
};

type BoxedCallback = Box<dyn Fn(i32) -> bool + Send + Sync>;

struct Tagged(u8);

impl SocketProtector for Tagged {
    fn protect(&self, fd: i32) -> bool {
        fd == i32::from(self.0)
    }
}

fn is_even(fd: i32) -> bool {
    fd % 2 == 0
}

#[test]
fn new_registry_is_empty() {
    let registry: ProtectorRegistry<Tagged> = ProtectorRegistry::new();
    assert!(registry.get().is_none());
}

#[test]
fn register_stores_the_first_handler() {
    let mut registry = ProtectorRegistry::new();
    registry.register(Tagged(1));
    assert_eq!(registry.get().map(|handler| handler.0), Some(1));
}

#[test]
fn register_ignores_later_handlers() {
    let mut registry = ProtectorRegistry::new();
    registry.register(Tagged(1));
    registry.register(Tagged(2));
    registry.register(Tagged(3));
    assert_eq!(registry.get().map(|handler| handler.0), Some(1));
}

#[test]
fn get_does_not_change_the_registry() {
    let mut registry = ProtectorRegistry::new();
    registry.register(Tagged(9));
    assert_eq!(registry.get().map(|handler| handler.0), Some(9));
    assert_eq!(registry.get().map(|handler| handler.0), Some(9));
}

#[test]
fn set_socket_protector_registers_once() {
    let mut registry = ProtectorRegistry::new();
    set_socket_protector(&mut registry, Tagged(4));
    set_socket_protector(&mut registry, Tagged(5));
    assert_eq!(registry.get().map(|handler| handler.0), Some(4));
    assert!(protect_socket(&registry, 4));
    assert!(!protect_socket(&registry, 5));
}

#[test]
fn protect_socket_without_callback_is_false() {
    let registry: ProtectorRegistry<CallbackProtector<BoxedCallback>> = ProtectorRegistry::new();
    assert!(!protect_socket(&registry, 7));
    assert!(!protect_socket(&registry, 0));
}

#[test]
fn protect_socket_gives_the_callbacks_answer() {
    let mut registry = ProtectorRegistry::new();
    set_socket_protect_callback(&mut registry, is_even);
    assert!(protect_socket(&registry, 10));
    assert!(!protect_socket(&registry, 11));
}

#[test]
fn first_callback_wins() {
    let mut registry: ProtectorRegistry<CallbackProtector<BoxedCallback>> =
        ProtectorRegistry::new();
    set_socket_protect_callback(&mut registry, Box::new(|fd| fd == 7));
    set_socket_protect_callback(&mut registry, Box::new(|fd| fd != 7));
    assert!(protect_socket(&registry, 7));
    assert!(!protect_socket(&registry, 8));
}

#[test]
fn callback_protector_calls_its_callback() {
    let protector = CallbackProtector::new(|fd: i32| fd > 100);
    assert!(protector.protect(101));
    assert!(!protector.protect(100));
}

#[test]
fn boxed_protector_answers_as_its_content() {
    let boxed: Box<dyn SocketProtector> = Box::new(Tagged(3));
    assert!(boxed.protect(3));
    assert!(!boxed.protect(4));
}
