use vstd::prelude::*;

use crate::attr::{raw_of, Termios};
use crate::device::TtyDevice;
use crate::error::OsError;
use crate::guard::TtyModeGuard;

verus! {

/// A terminal resource together with a guard over its device. It is used in
/// place of the resource; when it is released, the device's attributes are
/// restored first and the resource is dropped after.
pub struct TtyWithGuard<T: TtyDevice> {
    inner: T,
    guard: TtyModeGuard,
}

impl<T: TtyDevice> TtyWithGuard<T> {
    /// The wrapped resource.
    pub closed spec fn resource(&self) -> T {
        self.inner
    }

    /// The handle that the guard captured the attributes from.
    pub closed spec fn handle(&self) -> i32 {
        self.guard.handle()
    }

    /// The attributes that the resource's device had when it was wrapped.
    pub closed spec fn original(&self) -> Termios {
        self.guard.original()
    }

    /// Takes `tty` and captures the attributes of its device, without
    /// switching any mode.
    pub fn new(tty: T) -> (r: Result<TtyWithGuard<T>, OsError>)
        ensures
            tty.attrs() is None ==> r is Err,
            r is Ok ==> r->Ok_0.resource() == tty && tty.attrs() == Some(r->Ok_0.original())
                && r->Ok_0.handle() == tty.handle(),
    {
        let guard = TtyModeGuard::new(&tty)?;
        Ok(TtyWithGuard { inner: tty, guard })
    }

    /// Puts `f` of the captured attributes in force on the device.
    pub fn modify_mode<F: FnOnce(Termios) -> Termios>(&mut self, f: F) -> (r: Result<(), OsError>)
        requires
            f.requires((old(self).original(),)),
        ensures
            final(self).original() == old(self).original(),
            final(self).handle() == old(self).handle(),
            final(self).resource().handle() == old(self).resource().handle(),
            old(self).resource().attrs() is None ==> r is Err,
            r is Ok ==> exists|t: Termios|
                f.ensures((old(self).original(),), t) && final(self).resource().attrs() == Some(
                    t,
                ),
            r is Err ==> final(self).resource().attrs() == old(self).resource().attrs(),
    {
        self.guard.modify_mode(&mut self.inner, f)
    }

    /// Puts the raw variant of the captured attributes in force on the device.
    pub fn set_raw_mode(&mut self) -> (r: Result<(), OsError>)
        ensures
            final(self).original() == old(self).original(),
            final(self).handle() == old(self).handle(),
            final(self).resource().handle() == old(self).resource().handle(),
            old(self).resource().attrs() is None ==> r is Err,
            r is Ok ==> final(self).resource().attrs() is Some
                && final(self).resource().attrs()->Some_0@ == raw_of(old(self).original()@),
            r is Err ==> final(self).resource().attrs() == old(self).resource().attrs(),
    {
        self.guard.set_raw_mode(&mut self.inner)
    }

    /// Puts the captured attributes back in force on the device. Where they
    /// cannot be applied to a terminal, the process stops.
    pub fn restore(&mut self)
        ensures
            final(self).original() == old(self).original(),
            final(self).handle() == old(self).handle(),
            final(self).resource().handle() == old(self).resource().handle(),
            old(self).resource().attrs() is Some ==> final(self).resource().attrs() == Some(
                old(self).original(),
            ),
            old(self).resource().attrs() is None ==> final(self).resource().attrs() is None,
    {
        self.guard.restore(&mut self.inner);
    }

    /// Ends the guarded use: first the captured attributes are put back on
    /// the device, then the resource is dropped.
    pub fn release(self) {
        let mut this = self;
        this.restore();
        // The resource is dropped here, once its device is restored.
        let TtyWithGuard { inner: _, guard: _ } = this;
    }

    /// The wrapped resource.
    pub fn get_ref(&self) -> (r: &T)
        ensures
            *r == self.resource(),
    {
        &self.inner
    }
}

impl<T: TtyDevice> std::ops::Deref for TtyWithGuard<T> {
    type Target = T;

    fn deref(&self) -> (r: &T)
        ensures
            *r == self.resource(),
    {
        &self.inner
    }
}

impl<T: TtyDevice> std::ops::DerefMut for TtyWithGuard<T> {
    fn deref_mut(&mut self) -> (r: &mut T)
        ensures
            *r == old(self).resource(),
            final(self).resource() == *final(r),
            final(self).original() == old(self).original(),
            final(self).handle() == old(self).handle(),
    {
        &mut self.inner
    }
}

} // verus!
