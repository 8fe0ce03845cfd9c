use rfce::bits::{parse_hex, try_parse_hex, HexError};
use rfce::dbg::{
    parse_breakpoint, Breakpoint, BreakpointError, BreakpointParseError, Breakpoints, Debugger, RunStop,
};

#[test]
fn parse_hex_prefixes() {
    assert_eq!(parse_hex("$1234"), Ok(0x1234));
    assert_eq!(parse_hex("0xbeef"), Ok(0xbeef));
    assert_eq!(parse_hex("BEEF"), Ok(0xbeef));
    assert_eq!(parse_hex("$10000"), Err(HexError::Invalid));
    assert_eq!(parse_hex("$"), Err(HexError::Invalid));
    assert_eq!(parse_hex("$12g4"), Err(HexError::Invalid));
}

#[test]
fn try_parse_hex_requires_prefix() {
    assert_eq!(try_parse_hex("$00ff"), Ok(0x00ff));
    assert_eq!(
        try_parse_hex("1234"),
        Err(String::from("Address must be prefixed with `$` or `0x`"))
    );
    assert_eq!(
        try_parse_hex("0x12345"),
        Err(String::from("Could not parse the provided address as a 16 bit hex number."))
    );
}

#[test]
fn breakpoints_add_and_remove() {
    let mut b = Breakpoints::new();
    assert!(b.is_empty());
    assert_eq!(b.try_add_breakpoint(Breakpoint::Address(0x8000)), Ok(()));
    assert_eq!(
        b.try_add_breakpoint(Breakpoint::Address(0x8000)),
        Err(BreakpointError::AlreadyExists(Breakpoint::Address(0x8000)))
    );
    assert!(b.contains(Breakpoint::Address(0x8000)));
    assert_eq!(
        b.try_remove_breakpoint(Breakpoint::Scanline(3)),
        Err(BreakpointError::DoesNotExist(Breakpoint::Scanline(3)))
    );
    assert_eq!(b.try_remove_breakpoint(Breakpoint::Address(0x8000)), Ok(()));
    assert!(b.is_empty());
}

#[test]
fn breakpoint_hit_order() {
    let mut b = Breakpoints::new();
    b.try_add_breakpoint(Breakpoint::Scanline(10)).unwrap();
    b.try_add_breakpoint(Breakpoint::Address(0x8003)).unwrap();
    assert_eq!(b.hit(0x8003, 10, 0, 0), Some(Breakpoint::Address(0x8003)));
    assert_eq!(b.hit(0x8000, 10, 0, 0), Some(Breakpoint::Scanline(10)));
    assert_eq!(b.hit(0x8000, 11, 0, 0), None);
}

#[test]
fn continue_stops_at_address() {
    let mut img = vec![0x4e, 0x45, 0x53, 0x1a, 1, 1, 0, 0, 0, 0, 0, 0, 0, 0, 0, 0];
    let mut prg = vec![0xeau8; 0x4000];
    prg[0x3ffc] = 0x00;
    prg[0x3ffd] = 0x80;
    img.extend_from_slice(&prg);
    img.extend_from_slice(&vec![0u8; 0x2000]);
    let mut d = Debugger::new();
    d.load_file(img).unwrap();
    d.breakpoints.try_add_breakpoint(Breakpoint::Address(0x8004)).unwrap();
    assert_eq!(d.continue_until_break(), Ok(RunStop::Break(Breakpoint::Address(0x8004))));
    assert_eq!(d.fc.cpu.pc(), 0x8004);
}

#[test]
fn empty_line_repeats_last_command() {
    let mut d = Debugger::new();
    assert_eq!(d.resolve_input(String::from("s\n"), false), "s\n");
    assert_eq!(d.resolve_input(String::from("\n"), true), "s\n");
}

#[test]
fn breakpoint_arguments() {
    assert_eq!(parse_breakpoint("address", "$8000"), Ok(Breakpoint::Address(0x8000)));
    assert_eq!(parse_breakpoint("a", "0x12"), Ok(Breakpoint::Address(0x12)));
    assert_eq!(parse_breakpoint("addr", "8000"), Err(BreakpointParseError::MissingPrefix));
    assert_eq!(parse_breakpoint("a", "$zz"), Err(BreakpointParseError::BadAddress));
    assert_eq!(parse_breakpoint("cpucycle", "12345678901"), Ok(Breakpoint::CPUCycle(12345678901)));
    assert_eq!(parse_breakpoint("ppu", "340"), Ok(Breakpoint::PPUCycle(340)));
    assert_eq!(parse_breakpoint("ppu", "4294967296"), Err(BreakpointParseError::BadCycle));
    assert_eq!(parse_breakpoint("line", "241"), Ok(Breakpoint::Scanline(241)));
    assert_eq!(parse_breakpoint("s", "-1"), Err(BreakpointParseError::BadScanline));
    assert_eq!(parse_breakpoint("x", "1"), Err(BreakpointParseError::UnknownKind));
}
