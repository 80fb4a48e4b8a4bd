use vstd::prelude::*;

verus! {

/// An I/O port: a pair of functions, one that gives a byte and one that
/// takes a byte. What they do is up to whoever makes the port; both must be
/// callable at any time.
pub struct Port<I: Fn() -> u8, O: Fn(u8)> {
    in_fn: I,
    out_fn: O,
}

impl<I: Fn() -> u8, O: Fn(u8)> Port<I, O> {
    #[verifier::type_invariant]
    spec fn callable(self) -> bool {
        &&& call_requires(self.in_fn, ())
        &&& forall|value: u8| call_requires(self.out_fn, (value,))
    }

    /// Whether `byte` is a byte that reading the port can give.
    pub closed spec fn reads(self, byte: u8) -> bool {
        call_ensures(self.in_fn, (), byte)
    }

    /// What holds after `value` was written to the port: whatever the
    /// port's output function ensures of a call with `value`.
    pub closed spec fn writes(self, value: u8) -> bool {
        call_ensures(self.out_fn, (value,), ())
    }

    /// A port that reads with `in_fn` and writes with `out_fn`.
    pub fn new(in_fn: I, out_fn: O) -> (port: Self)
        requires
            call_requires(in_fn, ()),
            forall|value: u8| call_requires(out_fn, (value,)),
        ensures
            forall|byte: u8| port.reads(byte) == call_ensures(in_fn, (), byte),
            forall|value: u8| port.writes(value) == call_ensures(out_fn, (value,), ()),
    {
        Port { in_fn, out_fn }
    }

    /// Reads a byte from the port.
    pub fn input(&self) -> (byte: u8)
        ensures
            self.reads(byte),
    {
        proof {
            use_type_invariant(self);
        }
        (self.in_fn)()
    }

    /// Writes a byte to the port.
    pub fn out(&self, value: u8)
        ensures
            self.writes(value),
    {
        proof {
            use_type_invariant(self);
        }
        (self.out_fn)(value)
    }
}

} // verus!
