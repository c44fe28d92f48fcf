use vstd::prelude::*;

use crate::attr::{derive_raw, raw_of, Termios};
use crate::device::{get_terminal_attr, set_terminal_attr, TtyDevice};
use crate::error::OsError;

verus! {

/// Remembers the attributes that a terminal had when the guard was made, and
/// puts them back when released. Every mode switch starts from those
/// attributes, never from what is in force on the device.
pub struct TtyModeGuard {
    ios: Termios,
    fd: i32,
}

impl TtyModeGuard {
    /// The attributes captured when the guard was made.
    pub closed spec fn original(&self) -> Termios {
        self.ios
    }

    /// The handle that the attributes were captured from.
    pub closed spec fn handle(&self) -> i32 {
        self.fd
    }

    /// Captures the attributes in force on `dev`; writes nothing.
    pub fn new<D: TtyDevice>(dev: &D) -> (r: Result<TtyModeGuard, OsError>)
        ensures
            dev.attrs() is None ==> r is Err,
            r is Ok ==> dev.attrs() == Some(r->Ok_0.original()) && r->Ok_0.handle()
                == dev.handle(),
    {
        let fd = dev.as_raw_fd();
        let ios = get_terminal_attr(dev)?;
        Ok(TtyModeGuard { ios, fd })
    }

    /// The handle that the attributes were captured from.
    pub fn fd(&self) -> (r: i32)
        ensures
            r == self.handle(),
    {
        self.fd
    }

    /// The attributes captured when the guard was made.
    pub fn original_attrs(&self) -> (r: Termios)
        ensures
            r == self.original(),
    {
        self.ios
    }

    /// Puts the raw variant of the captured attributes in force on `dev`.
    pub fn set_raw_mode<D: TtyDevice>(&mut self, dev: &mut D) -> (r: Result<(), OsError>)
        ensures
            *final(self) == *old(self),
            final(dev).handle() == old(dev).handle(),
            old(dev).attrs() is None ==> r is Err,
            r is Ok ==> final(dev).attrs() is Some && final(dev).attrs()->Some_0@ == raw_of(
                old(self).original()@,
            ),
            r is Err ==> final(dev).attrs() == old(dev).attrs(),
    {
        let ios = derive_raw(&self.ios);
        set_terminal_attr(dev, &ios)?;
        Ok(())
    }

    /// Puts `f` of the captured attributes in force on `dev`.
    pub fn modify_mode<D: TtyDevice, F: FnOnce(Termios) -> Termios>(
        &mut self,
        dev: &mut D,
        f: F,
    ) -> (r: Result<(), OsError>)
        requires
            f.requires((old(self).original(),)),
        ensures
            *final(self) == *old(self),
            final(dev).handle() == old(dev).handle(),
            old(dev).attrs() is None ==> r is Err,
            r is Ok ==> exists|t: Termios|
                f.ensures((old(self).original(),), t) && final(dev).attrs() == Some(t),
            r is Err ==> final(dev).attrs() == old(dev).attrs(),
    {
        let ios = f(self.ios);
        set_terminal_attr(dev, &ios)?;
        Ok(())
    }

    /// Puts the captured attributes back in force on `dev`. Where they cannot
    /// be applied to a terminal, the process stops.
    pub fn restore<D: TtyDevice>(&self, dev: &mut D)
        ensures
            final(dev).handle() == old(dev).handle(),
            old(dev).attrs() is Some ==> final(dev).attrs() == Some(self.original()),
            old(dev).attrs() is None ==> final(dev).attrs() is None,
    {
        dev.restore_attributes(&self.ios);
    }
}

/// Restoring after any run of mode switches gives back exactly the attributes
/// that the device had when the guard was made. `guards[0]` is the guard as
/// made over a device with attributes `before`; each later entry is the guard
/// after one more `set_raw_mode` or `modify_mode`; `after` is what
/// `restore` with the last one leaves on the device.
pub proof fn lemma_restore_fidelity(
    before: Option<Termios>,
    guards: Seq<TtyModeGuard>,
    after: Option<Termios>,
)
    requires
        guards.len() > 0,
        before == Some(guards[0].original()),
        forall|i: int| 1 <= i < guards.len() ==> #[trigger] guards[i] == guards[i - 1],
        after == Some(guards.last().original()),
    ensures
        after == before,
    decreases guards.len(),
{
    if guards.len() > 1 {
        let shorter = guards.drop_last();
        assert(shorter.last() == guards[guards.len() - 2]);
        lemma_restore_fidelity(before, shorter, Some(shorter.last().original()));
    }
}

/// Transforms do not compound: switching with `f` and then with `g` leaves
/// the device with a result of `g` on the captured attributes. `g0` is the
/// guard before both calls, `g1` after `modify_mode(f)`, and `live` the
/// attributes that the successful `modify_mode(g)` with `g1` put in force.
pub proof fn lemma_transforms_not_cumulative<F: FnOnce(Termios) -> Termios, G: FnOnce(
    Termios,
) -> Termios>(g0: TtyModeGuard, g1: TtyModeGuard, f: F, g: G, live: Option<Termios>)
    requires
        g1 == g0,
        exists|t: Termios| g.ensures((g1.original(),), t) && live == Some(t),
    ensures
        exists|t: Termios| g.ensures((g0.original(),), t) && live == Some(t),
{
}

} // verus!
