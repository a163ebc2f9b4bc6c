use vstd::prelude::*;

verus! {

/// One statically declared registration callback, referred to by the
/// identity the runtime assigned to it. The runtime owns the callback
/// itself (it is asynchronous and calls the registration primitives);
/// the bootstrap latch only tracks which callbacks exist and whether
/// they have been run.
#[derive(Debug, Clone, Copy, PartialEq, Eq, Structural)]
pub struct DiConstructor {
    /// The identity of the registration callback to run at startup.
    pub init: u64,
}

/// The once-only bootstrap latch: an explicit, ordered list of
/// registration callbacks, run exactly once before the first
/// resolution.
///
/// `initialize_once` answers `true` to exactly one caller — that
/// caller runs every declared callback, in order — and `false` to
/// every later one, which must treat the registrations as already
/// made. The runtime serialises concurrent first calls, so from the
/// engine's side the latch is a plain idempotent flag.
pub struct Bootstrap {
    callbacks: Vec<DiConstructor>,
    initialized: bool,
}

impl Bootstrap {
    /// The declared callbacks, in declaration order.
    pub closed spec fn spec_callbacks(&self) -> Seq<DiConstructor> {
        self.callbacks@
    }

    /// Whether the one initialization has happened.
    pub closed spec fn spec_initialized(&self) -> bool {
        self.initialized
    }

    /// A latch with no callbacks declared and initialization still
    /// pending.
    pub fn new() -> (b: Bootstrap)
        ensures
            b.spec_callbacks() == Seq::<DiConstructor>::empty(),
            !b.spec_initialized(),
    {
        let b = Bootstrap { callbacks: Vec::new(), initialized: false };
        b
    }

    /// Declares one registration callback. Declarations happen at
    /// process start, before the one initialization runs them.
    pub fn declare(&mut self, callback: DiConstructor)
        requires
            !old(self).spec_initialized(),
        ensures
            final(self).spec_callbacks() == old(self).spec_callbacks().push(callback),
            !final(self).spec_initialized(),
    {
        self.callbacks.push(callback);
    }

    /// Whether the one initialization has happened.
    pub fn is_initialized(&self) -> (r: bool)
        ensures
            r == self.spec_initialized(),
    {
        self.initialized
    }

    /// The number of declared callbacks.
    pub fn callback_count(&self) -> (n: usize)
        ensures
            n == self.spec_callbacks().len(),
    {
        self.callbacks.len()
    }

    /// The `i`th declared callback, in declaration order.
    pub fn callback_at(&self, i: usize) -> (c: DiConstructor)
        requires
            i < self.spec_callbacks().len(),
        ensures
            c == self.spec_callbacks()[i as int],
    {
        self.callbacks[i]
    }

    /// Claims the one initialization: answers `true` — run every
    /// declared callback now — exactly on the first call, and `false`
    /// on every call after it. The declared callbacks are untouched
    /// either way.
    pub fn initialize_once(&mut self) -> (run: bool)
        ensures
            run == !old(self).spec_initialized(),
            final(self).spec_initialized(),
            final(self).spec_callbacks() == old(self).spec_callbacks(),
    {
        if self.initialized {
            false
        } else {
            self.initialized = true;
            true
        }
    }
}

} // verus!
