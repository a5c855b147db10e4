use caliga_bootloader::level::{level_enabled, Level, LevelFilter};
use caliga_bootloader::logger::{boot_logger, report_panic, PanicReport, Record, UartPl011Logger};
use caliga_bootloader::uart::{CaptureRegister, Pl011Uart, UART0_ADDR};

fn logged(record: &Record) -> Vec<u8> {
    let mut logger = UartPl011Logger::new(Pl011Uart::<CaptureRegister>::new(UART0_ADDR));
    logger.log(record);
    logger.uart().register().captured().to_vec()
}

#[test]
fn uart_stores_each_byte_in_order() {
    let mut uart = Pl011Uart::<CaptureRegister>::new(0x1000);
    uart.write_str("hi!");
    uart.write_byte(7);
    uart.write_bytes(&[1, 2]);
    assert_eq!(uart.register().captured(), &[b'h', b'i', b'!', 7, 1, 2]);
    assert_eq!(uart.register().address(), 0x1000);
}

#[test]
fn uart_empty_string_stores_nothing() {
    let mut uart = Pl011Uart::<CaptureRegister>::new(UART0_ADDR);
    uart.write_str("");
    assert!(uart.register().captured().is_empty());
}

#[test]
fn uart_multibyte_characters_store_their_utf8_bytes() {
    let mut uart = Pl011Uart::<CaptureRegister>::new(UART0_ADDR);
    uart.write_str("é");
    assert_eq!(uart.register().captured(), "é".as_bytes());
}

#[test]
fn levels_above_the_maximum_are_disabled() {
    assert!(!level_enabled(Level::Trace, LevelFilter::Debug));
    assert!(level_enabled(Level::Debug, LevelFilter::Debug));
    assert!(level_enabled(Level::Error, LevelFilter::Debug));
    assert!(!level_enabled(Level::Error, LevelFilter::Off));
    assert!(level_enabled(Level::Trace, LevelFilter::Trace));
    assert!(!level_enabled(Level::Info, LevelFilter::Warn));
}

#[test]
fn level_names_and_filters() {
    assert_eq!(Level::Error.as_str(), "ERROR");
    assert_eq!(Level::Warn.as_str(), "WARN");
    assert_eq!(Level::Info.as_str(), "INFO");
    assert_eq!(Level::Debug.as_str(), "DEBUG");
    assert_eq!(Level::Trace.as_str(), "TRACE");
    assert_eq!(Level::Warn.to_level_filter(), LevelFilter::Warn);
    assert_eq!(LevelFilter::Off.verbosity(), 0);
    assert_eq!(LevelFilter::Trace.verbosity(), 5);
}

#[test]
fn enabled_follows_the_logger_maximum() {
    let mut logger = boot_logger::<CaptureRegister>();
    assert!(logger.enabled(Level::Debug));
    assert!(logger.enabled(Level::Info));
    assert!(!logger.enabled(Level::Trace));
    assert_eq!(log::max_level(), log::LevelFilter::Debug);
    logger.set_max_level(LevelFilter::Off);
    assert!(!logger.enabled(Level::Error));
    assert_eq!(log::max_level(), log::LevelFilter::Off);
    logger.set_max_level(LevelFilter::Warn);
    assert!(logger.enabled(Level::Warn));
    assert!(!logger.enabled(Level::Info));
}

#[test]
fn new_logger_shows_nothing() {
    let logger = UartPl011Logger::new(Pl011Uart::<CaptureRegister>::new(UART0_ADDR));
    assert!(!logger.enabled(Level::Error));
}

#[test]
fn record_with_file_and_line_has_location_suffix() {
    let record = Record {
        level: Level::Info,
        message: Some("Done with info log"),
        file: Some("bin/aarch64/qemu.rs"),
        line: Some(173),
    };
    assert_eq!(logged(&record), b"[INFO] Done with info log, bin/aarch64/qemu.rs:173\n".to_vec());
}

#[test]
fn record_missing_line_has_no_suffix() {
    let record = Record { level: Level::Warn, message: Some("low"), file: Some("a.rs"), line: None };
    assert_eq!(logged(&record), b"[WARN] low\n".to_vec());
}

#[test]
fn record_missing_file_has_no_suffix() {
    let record = Record { level: Level::Error, message: Some("bad"), file: None, line: Some(9) };
    assert_eq!(logged(&record), b"[ERROR] bad\n".to_vec());
}

#[test]
fn record_without_rendered_message_gets_notice() {
    let record = Record { level: Level::Debug, message: None, file: None, line: None };
    assert_eq!(logged(&record), b"[DEBUG] Could not get log; allocator needed\n".to_vec());
}

#[test]
fn line_numbers_render_in_decimal() {
    let zero = Record { level: Level::Trace, message: Some(""), file: Some("f"), line: Some(0) };
    assert_eq!(logged(&zero), b"[TRACE] , f:0\n".to_vec());
    let max = Record { level: Level::Trace, message: Some("m"), file: Some("f"), line: Some(u32::MAX) };
    assert_eq!(logged(&max), b"[TRACE] m, f:4294967295\n".to_vec());
    let ten = Record { level: Level::Info, message: Some("m"), file: Some("f"), line: Some(10) };
    assert_eq!(logged(&ten), b"[INFO] m, f:10\n".to_vec());
}

#[test]
fn records_accumulate_on_the_device() {
    let mut logger = boot_logger::<CaptureRegister>();
    logger.log(&Record { level: Level::Info, message: Some("one"), file: None, line: None });
    logger.log(&Record { level: Level::Warn, message: Some("two"), file: None, line: None });
    logger.flush();
    assert_eq!(logger.uart().register().captured(), b"[INFO] one\n[WARN] two\n");
    assert_eq!(logger.uart().register().address(), UART0_ADDR);
}

#[test]
fn panic_report_written_while_logger_holds_uart() {
    let mut logger = boot_logger::<CaptureRegister>();
    logger.log(&Record { level: Level::Info, message: Some("up"), file: None, line: None });
    let uart = report_panic::<CaptureRegister>("End of bootloader reached");
    assert_eq!(uart.register().address(), UART0_ADDR);
    assert_eq!(uart.register().captured(), b"[PANIC] End of bootloader reached\n");
    assert_eq!(logger.uart().register().captured(), b"[INFO] up\n");
}

#[test]
fn emergency_handle_starts_fresh() {
    let mut first = Pl011Uart::<CaptureRegister>::new(UART0_ADDR);
    first.write_str("x");
    let second = Pl011Uart::<CaptureRegister>::emergency(UART0_ADDR);
    assert!(second.register().captured().is_empty());
    assert_eq!(second.register().address(), UART0_ADDR);
}

#[test]
fn panic_report_written_in_pieces() {
    let _logger = boot_logger::<CaptureRegister>();
    let mut report = PanicReport::<CaptureRegister>::begin();
    report.write_str("panicked at ");
    report.write_str("src/x.rs:1:2");
    let uart = report.finish();
    assert_eq!(uart.register().captured(), b"[PANIC] panicked at src/x.rs:1:2\n");
    assert_eq!(uart.register().address(), UART0_ADDR);
}
