use vstd::prelude::*;

use crate::attr::Termios;
use crate::error::OsError;

verus! {

/// Platform error code for a handle that does not refer to a terminal.
pub const ENOTTY: i32 = 25;

/// A resource that exposes a terminal device handle, together with access to
/// the attributes of that device.
pub trait TtyDevice {
    /// The handle of the device.
    spec fn handle(&self) -> i32;

    /// The attributes in force on the device, or `None` where the handle does
    /// not refer to an open terminal.
    spec fn attrs(&self) -> Option<Termios>;

    /// The handle of the device.
    fn as_raw_fd(&self) -> (r: i32)
        ensures
            r == self.handle(),
    ;

    /// Reads the attributes in force on the device.
    fn read_attributes(&self) -> (r: Result<Termios, OsError>)
        ensures
            self.attrs() is None ==> r is Err,
            r is Ok ==> self.attrs() == Some(r->Ok_0),
    ;

    /// Puts `t` in force on the device, replacing all of its attributes. On
    /// failure the device is left as it was.
    fn write_attributes(&mut self, t: &Termios) -> (r: Result<(), OsError>)
        ensures
            final(self).handle() == old(self).handle(),
            old(self).attrs() is None ==> r is Err,
            r is Ok ==> final(self).attrs() == Some(*t),
            r is Err ==> final(self).attrs() == old(self).attrs(),
    ;

    /// Puts `t` back in force on a terminal, on a path where no error can be
    /// handed to a caller. An implementation that cannot apply `t` to a
    /// terminal must stop the process rather than return.
    fn restore_attributes(&mut self, t: &Termios)
        ensures
            final(self).handle() == old(self).handle(),
            old(self).attrs() is Some ==> final(self).attrs() == Some(*t),
            old(self).attrs() is None ==> final(self).attrs() is None,
    ;
}

/// Reads the current attributes of `dev`.
pub fn get_terminal_attr<D: TtyDevice>(dev: &D) -> (r: Result<Termios, OsError>)
    ensures
        dev.attrs() is None ==> r is Err,
        r is Ok ==> dev.attrs() == Some(r->Ok_0),
{
    dev.read_attributes()
}

/// Puts `t` in force on `dev`; on failure `dev` is left as it was.
pub fn set_terminal_attr<D: TtyDevice>(dev: &mut D, t: &Termios) -> (r: Result<(), OsError>)
    ensures
        final(dev).handle() == old(dev).handle(),
        old(dev).attrs() is None ==> r is Err,
        r is Ok ==> final(dev).attrs() == Some(*t),
        r is Err ==> final(dev).attrs() == old(dev).attrs(),
{
    dev.write_attributes(t)
}

/// A terminal held in memory: a handle, the attributes in force (none where
/// the handle is not a terminal) and the bytes written to it.
pub struct MemoryTty {
    pub fd: i32,
    pub ios: Option<Termios>,
    pub output: Vec<u8>,
}

impl MemoryTty {
    /// A terminal on handle `fd` whose attributes are `ios`.
    pub fn new(fd: i32, ios: Termios) -> (r: MemoryTty)
        ensures
            r.fd == fd,
            r.ios == Some(ios),
            r.output@.len() == 0,
    {
        MemoryTty { fd, ios: Some(ios), output: Vec::new() }
    }

    /// A handle that does not refer to a terminal.
    pub fn not_a_terminal(fd: i32) -> (r: MemoryTty)
        ensures
            r.fd == fd,
            r.ios is None,
            r.output@.len() == 0,
    {
        MemoryTty { fd, ios: None, output: Vec::new() }
    }

    /// Appends `bytes` to what was written to the terminal.
    pub fn write_all(&mut self, bytes: &[u8])
        ensures
            final(self).output@ == old(self).output@ + bytes@,
            final(self).fd == old(self).fd,
            final(self).ios == old(self).ios,
    {
        let mut i: usize = 0;
        while i < bytes.len()
            invariant
                i <= bytes@.len(),
                self.output@ == old(self).output@ + bytes@.subrange(0, i as int),
                self.fd == old(self).fd,
                self.ios == old(self).ios,
            decreases bytes@.len() - i,
        {
            self.output.push(bytes[i]);
            i = i + 1;
            assert(bytes@.subrange(0, i as int) =~= bytes@.subrange(0, i - 1) + seq![bytes@[i - 1]]);
        }
        assert(bytes@.subrange(0, i as int) =~= bytes@);
    }
}

impl TtyDevice for MemoryTty {
    open spec fn handle(&self) -> i32 {
        self.fd
    }

    open spec fn attrs(&self) -> Option<Termios> {
        self.ios
    }

    fn as_raw_fd(&self) -> i32 {
        self.fd
    }

    fn read_attributes(&self) -> (r: Result<Termios, OsError>) {
        match self.ios {
            Some(t) => Ok(t),
            None => Err(OsError::from_raw_os_error(ENOTTY)),
        }
    }

    fn write_attributes(&mut self, t: &Termios) -> (r: Result<(), OsError>) {
        if self.ios.is_some() {
            self.ios = Some(*t);
            Ok(())
        } else {
            Err(OsError::from_raw_os_error(ENOTTY))
        }
    }

    fn restore_attributes(&mut self, t: &Termios) {
        if self.ios.is_some() {
            self.ios = Some(*t);
        }
    }
}

} // verus!
