use vstd::prelude::*;

use crate::attr::raw_of;
use crate::device::TtyDevice;
use crate::error::OsError;
use crate::wrapper::TtyWithGuard;

verus! {

/// Resources whose device can be put under a guard.
pub trait GuardMode: TtyDevice + Sized {
    /// Wraps the resource with a guard over its device, without switching
    /// any mode.
    fn guard_mode(self) -> (r: Result<TtyWithGuard<Self>, OsError>)
        ensures
            self.attrs() is None ==> r is Err,
            r is Ok ==> r->Ok_0.resource() == self && self.attrs() == Some(r->Ok_0.original()),
    ;
}

impl<T: TtyDevice> GuardMode for T {
    fn guard_mode(self) -> (r: Result<TtyWithGuard<T>, OsError>) {
        TtyWithGuard::new(self)
    }
}

/// Resources that can be switched to raw mode in one step.
pub trait IntoRawMode: TtyDevice + Sized {
    /// Wraps the resource with a guard and puts the raw variant of its
    /// device's attributes in force. Where either step fails, the error is
    /// returned and the partial wrapper is discarded.
    fn into_raw_mode(self) -> (r: Result<TtyWithGuard<Self>, OsError>)
        ensures
            self.attrs() is None ==> r is Err,
            r is Ok ==> self.attrs() == Some(r->Ok_0.original()) && r->Ok_0.resource().attrs()
                is Some && r->Ok_0.resource().attrs()->Some_0@ == raw_of(r->Ok_0.original()@),
    ;
}

impl<T: TtyDevice> IntoRawMode for T {
    fn into_raw_mode(self) -> (r: Result<TtyWithGuard<T>, OsError>) {
        let mut x = TtyWithGuard::new(self)?;
        match x.set_raw_mode() {
            Ok(()) => Ok(x),
            Err(e) => {
                x.release();
                Err(e)
            },
        }
    }
}

/// A guarded resource read from in raw mode.
pub struct RawReader<T: TtyDevice>(pub TtyWithGuard<T>);

} // verus!
