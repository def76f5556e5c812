use ellekit::codesign::{get_codesign_status, get_codesign_status_for_pid, CodeSignStatus};
use ellekit::cpu::is_shared_region;
use ellekit::error::Error;
use ellekit::image::{find_symbol, Image};
use ellekit::ios::foundation::NSRange;
use ellekit::objc::{hook_class_pair, hook_ivar, MessageHook};
use ellekit::pac::is_pac_available;
use ellekit::sys::{CSRange, LHFunctionHook, LHFunctionHookOptions, LHOptions, CS_OPS_STATUS};
use ellekit::version;

#[test]
fn test_get_codesign_status() {
    match get_codesign_status(|pid: i32, ops: u32, size: usize| -> (i32, u32) {
        assert_eq!((pid, ops, size), (0, CS_OPS_STATUS, 4));
        (0, 0x2000_0001)
    }) {
        Ok(status) => {
            println!("Code signing status: {:?}", status);
            assert!(status.is_valid());
            assert!(status.is_signed());
        }
        Err(e) => {
            println!("Note: csops may not be available: {}", e.message());
        }
    }
}

#[test]
fn codesign_status_failure_and_flags() {
    let failed = get_codesign_status_for_pid(1234, |pid: i32, _o: u32, _s: usize| -> (i32, u32) {
        assert_eq!(pid, 1234);
        (-1, 0)
    });
    assert_eq!(failed, Err(Error::Other("csops failed")));
    let status = CodeSignStatus { raw: 0x0400_0002 };
    assert!(status.is_adhoc());
    assert!(status.is_platform_binary());
    assert!(!status.is_valid());
    assert!(!status.is_signed());
}

#[test]
fn test_shared_region() {
    let in_shared = is_shared_region(0x1_8000_0000, |addr: u64| -> i32 {
        assert_eq!(addr, 0x1_8000_0000);
        1
    });
    println!("strlen in shared region: {}", in_shared);
    assert!(in_shared);
    assert!(!is_shared_region(0x1000, |_a: u64| -> i32 { 0 }));
}

#[test]
fn test_pac_availability() {
    let _ = is_pac_available(false, false);
    assert!(is_pac_available(true, true));
    assert!(!is_pac_available(true, false));
    assert!(!is_pac_available(false, true));
}

#[test]
fn test_find_symbol_null() {
    let result = find_symbol(0, |_i: usize, _n: usize| -> usize { panic!("not called") });
    assert!(result.is_err());
    assert_eq!(result.unwrap_err(), Error::NullPointer);
}

#[test]
fn image_operations() {
    assert_eq!(Image::open(0, |_p: usize| -> usize { panic!("not called") }).err(), Some(Error::NullPointer));
    assert_eq!(
        Image::open(0x500, |_p: usize| -> usize { 0 }).err(),
        Some(Error::Other("Failed to open image"))
    );
    assert_eq!(
        Image::open_by_name(0x500, |_p: usize| -> usize { 0 }).err(),
        Some(Error::Other("Image not found"))
    );
    let image = Image::open_by_name(0x500, |_p: usize| -> usize { 0x9000 }).unwrap();
    assert_eq!(image.as_ptr(), 0x9000);
    assert_eq!(
        image.find_symbol(0x600, |h: usize, n: usize| -> usize {
            assert_eq!((h, n), (0x9000, 0x600));
            0x9100
        }),
        Ok(0x9100)
    );
    assert_eq!(image.find_symbol(0x600, |_h: usize, _n: usize| -> usize { 0 }), Err(Error::SymbolNotFound));
    assert_eq!(find_symbol(0x600, |h: usize, _n: usize| -> usize {
        assert_eq!(h, 0);
        0x9200
    }), Ok(0x9200));
}

#[test]
fn image_find_symbols() {
    let image = Image::open(0x500, |_p: usize| -> usize { 0x9000 }).unwrap();
    let names = [0x600usize, 0x700];
    let mut short = [0usize; 1];
    assert_eq!(
        image.find_symbols(&names, &mut short, |_h: usize, _n: &[usize], b: Vec<usize>| -> (bool, Vec<usize>) {
            (true, b)
        }),
        Err(Error::Other("Symbol names and output arrays must have same length"))
    );
    let mut output = [7usize, 7];
    let result = image.find_symbols(&names, &mut output, |h: usize, n: &[usize], before: Vec<usize>| -> (bool, Vec<usize>) {
        assert_eq!(h, 0x9000);
        assert_eq!(n, &[0x600, 0x700]);
        assert_eq!(before, vec![7, 7]);
        (false, vec![0x9100])
    });
    assert_eq!(result, Err(Error::SymbolNotFound));
    assert_eq!(output, [0x9100, 7]);
    let result = image.find_symbols(&names, &mut output, |_h: usize, _n: &[usize], _b: Vec<usize>| -> (bool, Vec<usize>) {
        (true, vec![0x9100, 0x9200])
    });
    assert_eq!(result, Ok(()));
    assert_eq!(output, [0x9100, 0x9200]);
}

#[test]
fn test_message_hook_null_checks() {
    let result = MessageHook::hook_message_ex(0, 0, 0, |_c: usize, _s: usize, _r: usize| -> usize { panic!("not called") });
    assert!(result.is_err());
    assert_eq!(result.unwrap_err(), Error::NullPointer);
}

#[test]
fn message_hook_outcomes() {
    let hook = MessageHook::hook_message(0x10, 0x20, 0x30, |c: usize, s: usize, r: usize| -> usize {
        assert_eq!((c, s, r), (0x10, 0x20, 0x30));
        0x40
    })
    .unwrap();
    assert_eq!(hook.original(), 0x40);
    assert_eq!(
        MessageHook::hook_message(0x10, 0x20, 0x30, |_c: usize, _s: usize, _r: usize| -> usize { 0 }).unwrap_err(),
        Error::Other("Message hook failed")
    );
    assert_eq!(
        MessageHook::hook_message_ex(0x10, 0x20, 0x30, |_c: usize, _s: usize, _r: usize| -> usize { 0x50 })
            .unwrap()
            .original(),
        0x50
    );
    assert_eq!(
        hook_class_pair(0x10, 0, 0x30, |_t: usize, _h: usize, _b: usize| panic!("not called")),
        Err(Error::NullPointer)
    );
    let pair = std::cell::Cell::new((0, 0, 0));
    assert_eq!(hook_class_pair(0x10, 0x20, 0x30, |t: usize, h: usize, b: usize| pair.set((t, h, b))), Ok(()));
    assert_eq!(pair.get(), (0x10, 0x20, 0x30));
    assert_eq!(hook_ivar(0x10, 0, |_c: usize, _n: usize| -> usize { panic!("not called") }), Err(Error::NullPointer));
    assert_eq!(
        hook_ivar(0x10, 0x20, |_c: usize, _n: usize| -> usize { 0 }),
        Err(Error::Other("Instance variable not found"))
    );
    assert_eq!(hook_ivar(0x10, 0x20, |_c: usize, _n: usize| -> usize { 0x28 }), Ok(0x28));
    assert_eq!(ellekit::objc::selector::register(0x99), 0);
    assert_eq!(ellekit::objc::class::get(0x99), 0);
}

#[test]
fn test_version() {
    assert!(!version::VERSION.is_empty());
    assert_eq!(version::NAME, "ellekit");
}

#[test]
fn plain_values() {
    let range = NSRange::new(3, 9);
    assert_eq!((range.location, range.length), (3, 9));
    assert_eq!(CSRange::default(), CSRange { location: 0, length: 0 });
    assert_eq!(LHFunctionHook::default(), LHFunctionHook { function: 0, replacement: 0, oldptr: 0, options: 0 });
    let options = LHFunctionHookOptions::default();
    assert_eq!(options.options, LHOptions::LHOptionsNone);
    assert_eq!(options.jmp_reg, 0);
}
