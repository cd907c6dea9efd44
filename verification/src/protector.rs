//! The protection handler and the registry that holds at most one of them.

use vstd::prelude::*;

verus! {

/// A capability that asks the platform to exempt one socket from the tunnel.
///
/// Implementations may be nondeterministic: the answer comes from the host
/// platform. Contracts speak of the answers a handler can give through
/// [`may_answer`].
pub trait SocketProtector: Send + Sync + 'static {
    /// `true` when the socket is protected, or needs no protection.
    fn protect(&self, fd: i32) -> bool;
}

/// `answer` is a result that `handler.protect(fd)` can give.
pub open spec fn may_answer<P: SocketProtector + ?Sized>(handler: &P, fd: i32, answer: bool) -> bool {
    call_ensures(P::protect, (handler, fd), answer)
}

/// The handler answers `answer` for every descriptor.
pub open spec fn always_answers<P: SocketProtector + ?Sized>(handler: &P, answer: bool) -> bool {
    forall|fd: i32, given: bool| may_answer(handler, fd, given) ==> given == answer
}

/// A boxed handler answers as the handler inside it does.
impl<T: SocketProtector + ?Sized> SocketProtector for Box<T> {
    fn protect(&self, fd: i32) -> (answer: bool)
        ensures
            may_answer::<T>(&**self, fd, answer),
    {
        (**self).protect(fd)
    }
}

/// Adapts a plain callback to the [`SocketProtector`] capability.
pub struct CallbackProtector<F: Fn(i32) -> bool + Send + Sync + 'static> {
    callback: F,
}

impl<F: Fn(i32) -> bool + Send + Sync + 'static> CallbackProtector<F> {
    /// The callback may be called with any descriptor.
    #[verifier::type_invariant]
    spec fn callable(self) -> bool {
        forall|fd: i32| call_requires(self.callback, (fd,))
    }

    /// The adapted callback.
    pub closed spec fn callback(self) -> F {
        self.callback
    }

    /// Wraps `callback`, which must accept every descriptor.
    pub fn new(callback: F) -> (protector: Self)
        requires
            forall|fd: i32| call_requires(callback, (fd,)),
        ensures
            protector.callback() == callback,
    {
        CallbackProtector { callback }
    }
}

impl<F: Fn(i32) -> bool + Send + Sync + 'static> SocketProtector for CallbackProtector<F> {
    fn protect(&self, fd: i32) -> (answer: bool)
        ensures
            call_ensures(self.callback(), (fd,), answer),
    {
        proof {
            use_type_invariant(self);
        }
        (self.callback)(fd)
    }
}

/// What a write-once slot holds after an attempt to store `handler` in it:
/// the first writer wins, later writes are ignored.
pub open spec fn write_once<P>(slot: Option<P>, handler: P) -> Option<P> {
    if slot is Some {
        slot
    } else {
        Some(handler)
    }
}

/// Holds at most one protection handler. Once set, the handler is never
/// replaced or removed.
pub struct ProtectorRegistry<P: SocketProtector> {
    slot: Option<P>,
}

impl<P: SocketProtector> ProtectorRegistry<P> {
    /// The registered handler, if any.
    pub closed spec fn handler(&self) -> Option<P> {
        self.slot
    }

    /// An empty registry.
    pub fn new() -> (registry: Self)
        ensures
            registry.handler() is None,
    {
        ProtectorRegistry { slot: None }
    }

    /// Stores `handler` if and only if no handler is stored yet.
    pub fn register(&mut self, handler: P)
        ensures
            final(self).handler() == write_once(old(self).handler(), handler),
    {
        if self.slot.is_none() {
            self.slot = Some(handler);
        }
    }

    /// The stored handler, if present.
    pub fn get(&self) -> (found: Option<&P>)
        ensures
            found is Some <==> self.handler() is Some,
            found matches Some(handler) ==> self.handler() == Some(*handler),
    {
        self.slot.as_ref()
    }
}

/// Registers `protector` as the process's protection handler. Only the first
/// registration takes effect.
pub fn set_socket_protector<P: SocketProtector>(registry: &mut ProtectorRegistry<P>, protector: P)
    ensures
        final(registry).handler() == write_once(old(registry).handler(), protector),
{
    registry.register(protector);
}

/// Registers a plain callback as the protection handler. Only the first
/// registration takes effect.
pub fn set_socket_protect_callback<F: Fn(i32) -> bool + Send + Sync + 'static>(
    registry: &mut ProtectorRegistry<CallbackProtector<F>>,
    cb: F,
)
    requires
        forall|fd: i32| call_requires(cb, (fd,)),
    ensures
        old(registry).handler() is Some ==> final(registry).handler() == old(registry).handler(),
        old(registry).handler() is None ==> (final(registry).handler() matches Some(protector)
            && protector.callback() == cb),
{
    registry.register(CallbackProtector::new(cb));
}

/// Asks the registered handler to protect `fd`. With no handler registered
/// the answer is `false`.
pub fn protect_socket<P: SocketProtector>(registry: &ProtectorRegistry<P>, fd: i32) -> (answer: bool)
    ensures
        registry.handler() is None ==> !answer,
        registry.handler() matches Some(handler) ==> may_answer(&handler, fd, answer),
{
    match registry.get() {
        Some(handler) => handler.protect(fd),
        None => false,
    }
}

} // verus!
