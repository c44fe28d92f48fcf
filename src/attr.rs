use vstd::prelude::*;

verus! {

// Flag values and control-character positions as the Linux kernel defines
// them.

/// Input flag: ignore break conditions.
pub const IGNBRK: u32 = 0o1;
/// Input flag: a break flushes the queues and raises an interrupt.
pub const BRKINT: u32 = 0o2;
/// Input flag: mark bytes with parity or framing errors.
pub const PARMRK: u32 = 0o10;
/// Input flag: strip the eighth bit.
pub const ISTRIP: u32 = 0o40;
/// Input flag: translate newline to carriage return.
pub const INLCR: u32 = 0o100;
/// Input flag: ignore carriage return.
pub const IGNCR: u32 = 0o200;
/// Input flag: translate carriage return to newline.
pub const ICRNL: u32 = 0o400;
/// Input flag: start/stop flow control on output.
pub const IXON: u32 = 0o2000;

/// Output flag: post-process output.
pub const OPOST: u32 = 0o1;

/// Local flag: generate signals from control characters.
pub const ISIG: u32 = 0o1;
/// Local flag: canonical, line-buffered input.
pub const ICANON: u32 = 0o2;
/// Local flag: echo input.
pub const ECHO: u32 = 0o10;
/// Local flag: echo newline even without `ECHO`.
pub const ECHONL: u32 = 0o100;
/// Local flag: extended input processing.
pub const IEXTEN: u32 = 0o100000;

/// Control flag: mask of the character size.
pub const CSIZE: u32 = 0o60;
/// Control flag: 8-bit characters.
pub const CS8: u32 = 0o60;
/// Control flag: parity generation and checking.
pub const PARENB: u32 = 0o400;

/// Number of control characters in an attribute record.
pub const NCCS: usize = 32;
/// Position of the read timeout, in tenths of a second.
pub const VTIME: usize = 5;
/// Position of the least number of bytes a read waits for.
pub const VMIN: usize = 6;

/// Input flags that raw mode clears.
pub const RAW_IFLAG_CLEAR: u32 = IGNBRK | BRKINT | PARMRK | ISTRIP | INLCR | IGNCR | ICRNL | IXON;
/// Local flags that raw mode clears.
pub const RAW_LFLAG_CLEAR: u32 = ECHO | ECHONL | ICANON | ISIG | IEXTEN;
/// Control flags that raw mode clears before it sets `CS8`.
pub const RAW_CFLAG_CLEAR: u32 = CSIZE | PARENB;

/// The attributes of a terminal device: the line discipline's flags, its
/// control characters and its line speeds.
#[derive(Clone, Copy, Debug, PartialEq, Eq)]
pub struct Termios {
    pub c_iflag: u32,
    pub c_oflag: u32,
    pub c_cflag: u32,
    pub c_lflag: u32,
    pub c_line: u8,
    pub c_cc: [u8; NCCS],
    pub c_ispeed: u32,
    pub c_ospeed: u32,
}

/// What an attribute record holds, with its control characters as a sequence.
pub struct TermiosView {
    pub iflag: u32,
    pub oflag: u32,
    pub cflag: u32,
    pub lflag: u32,
    pub line: u8,
    pub cc: Seq<u8>,
    pub ispeed: u32,
    pub ospeed: u32,
}

impl View for Termios {
    type V = TermiosView;

    open spec fn view(&self) -> TermiosView {
        TermiosView {
            iflag: self.c_iflag,
            oflag: self.c_oflag,
            cflag: self.c_cflag,
            lflag: self.c_lflag,
            line: self.c_line,
            cc: self.c_cc@,
            ispeed: self.c_ispeed,
            ospeed: self.c_ospeed,
        }
    }
}

/// The raw variant of `t`, as the C library's `cfmakeraw` makes it: no input
/// translation, parity stripping or flow control, no output post-processing,
/// no echo, no canonical input and no signal characters, 8-bit characters,
/// and reads that return as soon as one byte is available.
pub open spec fn raw_of(t: TermiosView) -> TermiosView {
    TermiosView {
        iflag: t.iflag & !RAW_IFLAG_CLEAR,
        oflag: t.oflag & !OPOST,
        lflag: t.lflag & !RAW_LFLAG_CLEAR,
        cflag: (t.cflag & !RAW_CFLAG_CLEAR) | CS8,
        cc: t.cc.update(VMIN as int, 1u8).update(VTIME as int, 0u8),
        ..t
    }
}

/// Two records with the same view are the same record.
pub proof fn lemma_view_injective(a: Termios, b: Termios)
    requires
        a@ == b@,
    ensures
        a == b,
{
    assert(a.c_cc@ == b.c_cc@);
    assert(a.c_cc =~= b.c_cc);
}

/// Deriving the raw variant turns `t` into `raw_of(t@)`, touching nothing else.
pub fn raw_terminal_attr(t: &mut Termios)
    ensures
        final(t)@ == raw_of(old(t)@),
{
    t.c_iflag = t.c_iflag & !RAW_IFLAG_CLEAR;
    t.c_oflag = t.c_oflag & !OPOST;
    t.c_lflag = t.c_lflag & !RAW_LFLAG_CLEAR;
    t.c_cflag = (t.c_cflag & !RAW_CFLAG_CLEAR) | CS8;
    t.c_cc[VMIN] = 1;
    t.c_cc[VTIME] = 0;
    assert(t.c_cc@ =~= old(t).c_cc@.update(VMIN as int, 1u8).update(VTIME as int, 0u8));
}

/// The raw variant of `t`, as a new record.
pub fn derive_raw(t: &Termios) -> (r: Termios)
    ensures
        r@ == raw_of(t@),
{
    let mut r = *t;
    raw_terminal_attr(&mut r);
    r
}

/// Deriving the raw variant a second time changes nothing: where `r` is the
/// raw variant of `t` and `rr` the raw variant of `r`, `rr` is `r`.
pub proof fn lemma_raw_idempotent(t: Termios, r: Termios, rr: Termios)
    requires
        r@ == raw_of(t@),
        rr@ == raw_of(r@),
    ensures
        raw_of(raw_of(t@)) == raw_of(t@),
        rr == r,
{
    let v = raw_of(t@);
    let (i, o, l, c) = (t.c_iflag, t.c_oflag, t.c_lflag, t.c_cflag);
    assert((i & !RAW_IFLAG_CLEAR) & !RAW_IFLAG_CLEAR == i & !RAW_IFLAG_CLEAR) by (bit_vector);
    assert((o & !OPOST) & !OPOST == o & !OPOST) by (bit_vector);
    assert((l & !RAW_LFLAG_CLEAR) & !RAW_LFLAG_CLEAR == l & !RAW_LFLAG_CLEAR) by (bit_vector);
    assert((((c & !RAW_CFLAG_CLEAR) | CS8) & !RAW_CFLAG_CLEAR) | CS8 == (c & !RAW_CFLAG_CLEAR) | CS8)
        by (bit_vector);
    assert(raw_of(v).cc =~= v.cc);
    lemma_view_injective(rr, r);
}

} // verus!
