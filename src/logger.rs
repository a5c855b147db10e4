//! The diagnostic logger and the panic report, both written straight to a
//! PL011 serial device without allocating.
//!
//! A log line reads `[<LEVEL>] <message>[, <file>:<line>]` followed by a
//! newline; a panic line reads `[PANIC] <info>` followed by a newline.
use crate::level::{filter_rank, install_max_level, level_enabled, level_name, level_rank, Level, LevelFilter};
use crate::uart::{Pl011Uart, Register, UART0_ADDR};
use vstd::prelude::*;
use vstd::string::StringSliceAdditionalSpecFns;

verus! {

pub const OPEN_BRACKET: u8 = 91;

pub const CLOSE_BRACKET: u8 = 93;

pub const SPACE: u8 = 32;

pub const COMMA: u8 = 44;

pub const COLON: u8 = 58;

pub const NEWLINE: u8 = 10;

pub const DIGIT_ZERO: u8 = 48;

/// Written in place of a message that could only be rendered by allocating.
pub const ALLOCATION_NOTICE: &'static str = "Could not get log; allocator needed";

/// The most verbose level shown once the boot logger is installed.
pub const BOOT_MAX_LEVEL: LevelFilter = LevelFilter::Debug;

/// Written between the opening bracket and the panic information.
pub const PANIC_TAG: &'static str = "PANIC";

/// One log record. `message` is present only when the text was rendered
/// without allocating.
pub struct Record<'a> {
    pub level: Level,
    pub message: Option<&'a str>,
    pub file: Option<&'a str>,
    pub line: Option<u32>,
}

/// The ASCII decimal digits of `n`, most significant first, with no leading
/// zero.
pub open spec fn decimal(n: nat) -> Seq<u8>
    decreases n,
{
    if n < 10 {
        seq![(DIGIT_ZERO + n) as u8]
    } else {
        decimal(n / 10).push((DIGIT_ZERO + n % 10) as u8)
    }
}

/// The message text, or the allocation notice when there is none.
pub open spec fn message_part(message: Option<&str>) -> Seq<u8> {
    match message {
        Some(m) => m.spec_bytes(),
        None => ALLOCATION_NOTICE.spec_bytes(),
    }
}

/// `", <file>:<line>"` when both the file and the line are known, and
/// nothing otherwise.
pub open spec fn location_part(file: Option<&str>, line: Option<u32>) -> Seq<u8> {
    match (file, line) {
        (Some(f), Some(l)) => seq![COMMA, SPACE] + f.spec_bytes() + seq![COLON] + decimal(
            l as nat,
        ),
        _ => Seq::empty(),
    }
}

/// The level tag and the message of a record's line.
pub open spec fn log_head(record: Record) -> Seq<u8> {
    seq![OPEN_BRACKET] + level_name(record.level) + seq![CLOSE_BRACKET, SPACE] + message_part(
        record.message,
    )
}

/// The full line written for a record.
pub open spec fn log_line(record: Record) -> Seq<u8> {
    log_head(record) + location_part(record.file, record.line) + seq![NEWLINE]
}

/// A record's line carries the whole `", <file>:<line>"` suffix when both the
/// file and the line are known, and no part of it when either is missing.
pub proof fn lemma_location_suffix(record: Record)
    ensures
        record.file is Some && record.line is Some ==> log_line(record) == log_head(record) + seq![
            COMMA,
            SPACE,
        ] + record.file->Some_0.spec_bytes() + seq![COLON] + decimal(record.line->Some_0 as nat)
            + seq![NEWLINE],
        !(record.file is Some && record.line is Some) ==> log_line(record) == log_head(record)
            + seq![NEWLINE],
{
    assert(log_head(record) + Seq::<u8>::empty() =~= log_head(record));
}

/// The full line written when a panic is reported with `info`.
pub open spec fn panic_line(info: Seq<u8>) -> Seq<u8> {
    seq![OPEN_BRACKET] + PANIC_TAG.spec_bytes() + seq![CLOSE_BRACKET, SPACE] + info + seq![NEWLINE]
}

/// Stores the decimal digits of `n`.
fn write_decimal<R: Register>(uart: &mut Pl011Uart<R>, n: u32)
    ensures
        final(uart).base() == old(uart).base(),
        final(uart).stores() == old(uart).stores() + decimal(n as nat),
    decreases n,
{
    if n >= 10 {
        write_decimal(uart, n / 10);
    }
    uart.write_byte(DIGIT_ZERO + (n % 10) as u8);
    assert(old(uart).stores() + decimal(n as nat) == (if n >= 10 {
        old(uart).stores() + decimal((n / 10) as nat)
    } else {
        old(uart).stores()
    }).push((DIGIT_ZERO + n % 10) as u8));
}

/// A logger that writes each record to one PL011 serial device. Boot code
/// runs in a single execution context, so the logger owns the device outright.
pub struct UartPl011Logger<R: Register> {
    uart: Pl011Uart<R>,
    max_level: LevelFilter,
}

impl<R: Register> UartPl011Logger<R> {
    /// The address of the device the logger writes to.
    pub closed spec fn base(&self) -> usize {
        self.uart.base()
    }

    /// Everything the logger has stored into the device.
    pub closed spec fn stores(&self) -> Seq<u8> {
        self.uart.stores()
    }

    /// The most verbose level the logger shows.
    pub closed spec fn max_level(&self) -> LevelFilter {
        self.max_level
    }

    /// Takes over `uart` as the logger's output. It shows nothing until a
    /// maximum level is set.
    pub fn new(uart: Pl011Uart<R>) -> (r: Self)
        ensures
            r.base() == uart.base(),
            r.stores() == uart.stores(),
            r.max_level() == LevelFilter::Off,
    {
        UartPl011Logger { uart, max_level: LevelFilter::Off }
    }

    /// Sets the most verbose level shown, here and for the process-wide
    /// `log` macros.
    pub fn set_max_level(&mut self, filter: LevelFilter)
        ensures
            final(self).max_level() == filter,
            final(self).base() == old(self).base(),
            final(self).stores() == old(self).stores(),
    {
        install_max_level(filter);
        self.max_level = filter;
    }

    /// The device the logger writes to.
    pub fn uart(&self) -> (r: &Pl011Uart<R>)
        ensures
            r.base() == self.base(),
            r.stores() == self.stores(),
    {
        &self.uart
    }

    /// Whether records of `level` are shown: exactly when the level is no
    /// more verbose than the logger's maximum.
    pub fn enabled(&self, level: Level) -> (r: bool)
        ensures
            r == (level_rank(level) <= filter_rank(self.max_level())),
    {
        level_enabled(level, self.max_level)
    }

    /// Writes the line for `record`. Callers only pass records whose level
    /// is enabled.
    pub fn log(&mut self, record: &Record)
        ensures
            final(self).base() == old(self).base(),
            final(self).max_level() == old(self).max_level(),
            final(self).stores() == old(self).stores() + log_line(*record),
    {
        self.uart.write_byte(OPEN_BRACKET);
        self.uart.write_str(record.level.as_str());
        self.uart.write_byte(CLOSE_BRACKET);
        self.uart.write_byte(SPACE);
        match record.message {
            Some(m) => self.uart.write_str(m),
            None => self.uart.write_str(ALLOCATION_NOTICE),
        }
        match (record.file, record.line) {
            (Some(f), Some(l)) => {
                self.uart.write_byte(COMMA);
                self.uart.write_byte(SPACE);
                self.uart.write_str(f);
                self.uart.write_byte(COLON);
                write_decimal(&mut self.uart, l);
            },
            _ => {},
        }
        self.uart.write_byte(NEWLINE);
        assert(self.uart.stores() =~= old(self).stores() + log_line(*record));
    }

    /// Nothing is buffered, so there is nothing to flush.
    pub fn flush(&self) {
    }
}

/// Builds the process logger on UART0, showing levels up to
/// [`BOOT_MAX_LEVEL`].
pub fn boot_logger<R: Register>() -> (r: UartPl011Logger<R>)
    ensures
        r.base() == UART0_ADDR,
        r.stores() == Seq::<u8>::empty(),
        r.max_level() == BOOT_MAX_LEVEL,
{
    let mut logger = UartPl011Logger::new(Pl011Uart::new(UART0_ADDR));
    logger.set_max_level(BOOT_MAX_LEVEL);
    logger
}

/// A panic report under way on UART0: the tag has been written, then the
/// panic information so far.
pub struct PanicReport<R: Register> {
    uart: Pl011Uart<R>,
    info: Ghost<Seq<u8>>,
}

impl<R: Register> PanicReport<R> {
    /// The panic information written so far.
    pub closed spec fn info(&self) -> Seq<u8> {
        self.info@
    }

    /// The device holds the tag followed by the information so far.
    pub closed spec fn well_formed(&self) -> bool {
        self.uart.base() == UART0_ADDR && self.uart.stores() =~= seq![OPEN_BRACKET]
            + PANIC_TAG.spec_bytes() + seq![CLOSE_BRACKET, SPACE] + self.info@
    }

    /// Acquires UART0 again through the emergency path, whoever holds the
    /// normal handle, and writes the tag.
    pub fn begin() -> (r: Self)
        ensures
            r.well_formed(),
            r.info() == Seq::<u8>::empty(),
    {
        let mut uart = Pl011Uart::emergency(UART0_ADDR);
        uart.write_byte(OPEN_BRACKET);
        uart.write_str(PANIC_TAG);
        uart.write_byte(CLOSE_BRACKET);
        uart.write_byte(SPACE);
        PanicReport { uart, info: Ghost(Seq::empty()) }
    }

    /// Writes the next piece of the panic information.
    pub fn write_str(&mut self, piece: &str)
        requires
            old(self).well_formed(),
        ensures
            final(self).well_formed(),
            final(self).info() == old(self).info() + piece.spec_bytes(),
    {
        self.uart.write_str(piece);
        self.info = Ghost(self.info@ + piece.spec_bytes());
    }

    /// Ends the line and hands back the device.
    pub fn finish(self) -> (r: Pl011Uart<R>)
        requires
            self.well_formed(),
        ensures
            r.base() == UART0_ADDR,
            r.stores() == panic_line(self.info()),
    {
        let mut uart = self.uart;
        uart.write_byte(NEWLINE);
        assert(uart.stores() =~= panic_line(self.info()));
        uart
    }
}

/// Reports a panic with `info` on UART0. It needs nothing of the caller,
/// whoever holds the normal handle, and cannot fail.
pub fn report_panic<R: Register>(info: &str) -> (r: Pl011Uart<R>)
    ensures
        r.base() == UART0_ADDR,
        r.stores() == panic_line(info.spec_bytes()),
{
    let mut report = PanicReport::begin();
    report.write_str(info);
    assert(report.info() =~= info.spec_bytes());
    report.finish()
}

} // verus!
