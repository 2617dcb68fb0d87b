use rsramfs::cstring::c_string_text;
use rsramfs::options::{
    mount_options_acceptable, parse_octal, ramfs_parse_options, RamfsFsInfo, RamfsMountOpts, RAMFS_DEFAULT_MODE,
};
use rsramfs::writer::KernelWriter;

fn defaults() -> RamfsMountOpts {
    RamfsFsInfo::new().mount_opts
}

#[test]
fn parse_octal_reads_base_ten() {
    assert_eq!(parse_octal("755"), Some(755));
    assert_eq!(parse_octal("0"), Some(0));
    assert_eq!(parse_octal("0008"), Some(8));
    assert_eq!(parse_octal("8"), Some(8));
    assert_eq!(parse_octal("65535"), Some(65535));
}

#[test]
fn parse_octal_rejects_other_characters() {
    assert_eq!(parse_octal("9"), None);
    assert_eq!(parse_octal("7a"), None);
    assert_eq!(parse_octal("=755"), None);
    assert_eq!(parse_octal("-1"), None);
    assert_eq!(parse_octal("+1"), None);
    assert_eq!(parse_octal(" 1"), None);
    // a rejected character anywhere means no value, however long
    assert_eq!(parse_octal("999999x"), None);
}

#[test]
fn default_fs_info() {
    let info = RamfsFsInfo::new();
    assert_eq!(info.mount_opts.mode, RAMFS_DEFAULT_MODE);
    assert_eq!(RAMFS_DEFAULT_MODE, 775);
    assert!(!info.mount_opts.debug);
}

#[test]
fn parse_options_debug() {
    let mut o = defaults();
    ramfs_parse_options("debug", &mut o);
    assert!(o.debug);
    assert_eq!(o.mode, 775);
}

#[test]
fn parse_options_debug_among_others() {
    let mut o = defaults();
    ramfs_parse_options("size=1M,,debug,", &mut o);
    assert!(o.debug);
    let mut o = defaults();
    ramfs_parse_options(",debug", &mut o);
    assert!(o.debug);
}

#[test]
fn parse_options_ignores_unknown() {
    for text in ["", ",", "debugx", "Debug", "xdebug", "a,,b", "mode", "mod=1", "debug ", " debug"] {
        let mut o = defaults();
        ramfs_parse_options(text, &mut o);
        assert_eq!(o, defaults(), "{text:?}");
    }
}

#[test]
fn parse_options_keeps_debug_already_on() {
    let mut o = RamfsMountOpts { mode: 1, debug: true };
    ramfs_parse_options("other", &mut o);
    assert_eq!(o, RamfsMountOpts { mode: 1, debug: true });
}

#[test]
fn c_string_text_reads_content() {
    assert_eq!(c_string_text(b"debug\0"), "debug");
    assert_eq!(c_string_text(b"\0"), "");
    assert_eq!(c_string_text("h\u{e9}\0".as_bytes()), "h\u{e9}");
}

#[test]
fn writer_flush_returns_what_was_written() {
    let mut w = KernelWriter::default();
    w.write_str("hello, ");
    w.write_str("w\u{f6}rld\n");
    assert_eq!(w.flush(), "hello, w\u{f6}rld\n".as_bytes().to_vec());
    assert!(w.flush().is_empty());
    w.write_str("again");
    assert_eq!(w.flush(), b"again".to_vec());
}

#[test]
fn mode_options_are_not_acceptable() {
    assert!(!mount_options_acceptable("mode=755"));
    assert!(!mount_options_acceptable("debug,mode=0"));
    assert!(!mount_options_acceptable("a,mode=1,"));
    assert!(!mount_options_acceptable("mode="));
}

#[test]
fn other_options_are_acceptable() {
    for text in ["", ",", "debug", "mode", "mod=1", "xmode=1", "a,,b", "debug,"] {
        assert!(mount_options_acceptable(text), "{text:?}");
    }
}
