use vstd::prelude::*;

verus! {

/// A model of an asynchronous computation, reduced to what a timeout race
/// observes of it: whether it ever becomes ready, after how many scheduling
/// steps, and the value it then yields.
///
/// `delay` counts whole scheduling steps before the computation is ready: a
/// computation with `delay == 0` is ready the first time it is polled. The
/// computation owns whatever state it needs; nothing is shared between the
/// two sides of a race.
#[derive(Debug, PartialEq, Eq)]
pub enum Operation<T> {
    /// Never becomes ready, however long it is polled.
    Never,
    /// Becomes ready after `delay` scheduling steps and then yields `value`.
    After { delay: u64, value: T },
}

impl<T> Operation<T> {
    /// Whether the computation eventually becomes ready.
    pub open spec fn resolves(self) -> bool {
        self is After
    }

    /// The scheduling step at which the computation becomes ready;
    /// meaningful only when it resolves.
    pub open spec fn delay(self) -> u64
        recommends
            self.resolves(),
    {
        self->delay
    }

    /// The value the computation yields once ready; meaningful only when it
    /// resolves.
    pub open spec fn output(self) -> T
        recommends
            self.resolves(),
    {
        self->value
    }

    /// Whether the computation is ready at or before scheduling step `step`.
    pub open spec fn ready_by(self, step: u64) -> bool {
        self.resolves() && self.delay() <= step
    }
}

/// The runtime's suspend-for-duration capability, in the model: a
/// computation that becomes ready once `delay` scheduling steps have passed
/// and then yields nothing.
pub fn timer(delay: u64) -> (t: Operation<()>)
    ensures
        t.resolves(),
        t.delay() == delay,
{
    Operation::After { delay, value: () }
}

} // verus!
