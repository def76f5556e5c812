use ellekit::error::Error;
use ellekit::hook::{native_hook, precision_hook, set_thread_safety, FunctionHook};
use std::cell::Cell;

const MOCK_STRLEN: usize = 0x1000_4000;
const STRLEN_ADDR: usize = 0x7ff0_1000;
const ORIGINAL_ADDR: usize = 0x7ff0_8000;

#[test]
fn test_hook_creation_requires_valid_pointer() {
    let result = FunctionHook::hook_function(0, MOCK_STRLEN, |_t: usize, _r: usize| -> usize {
        panic!("the hook call must not be made for a null target")
    });
    assert!(result.is_err(), "Hooking null pointer should fail");
    assert_eq!(result.err(), Some(Error::NullPointer));
}

#[test]
fn test_hook_symbol_not_found() {
    let result = FunctionHook::hook_symbol(
        "this_symbol_definitely_does_not_exist_123456",
        MOCK_STRLEN,
        |_image: usize, _name: &[u8]| -> usize { 0 },
        |_t: usize, _r: usize| -> usize { panic!("no hook for a missing symbol") },
    );
    assert!(result.is_err(), "Hooking non-existent symbol should fail");
    assert_eq!(result.err(), Some(Error::SymbolNotFound));
}

#[test]
fn test_hook_api_basic_validation() {
    let result = FunctionHook::hook_symbol(
        "strlen",
        MOCK_STRLEN,
        |_image: usize, _name: &[u8]| -> usize { STRLEN_ADDR },
        |_t: usize, _r: usize| -> usize { ORIGINAL_ADDR },
    );
    match result {
        Ok(hook) => {
            assert!(hook.original() != 0);
        }
        Err(_) => {
            println!("Hooking not available (expected on non-jailbroken platforms)");
        }
    }
}

#[test]
fn hook_symbol_passes_c_string_and_target() {
    let seen_name = Cell::new(Vec::new());
    let seen_target = Cell::new(0usize);
    let result = FunctionHook::hook_symbol(
        "strlen",
        MOCK_STRLEN,
        |image: usize, name: &[u8]| -> usize {
            assert_eq!(image, 0);
            seen_name.set(name.to_vec());
            STRLEN_ADDR
        },
        |t: usize, r: usize| -> usize {
            assert_eq!(r, MOCK_STRLEN);
            seen_target.set(t);
            ORIGINAL_ADDR
        },
    );
    let hook = result.expect("hook should succeed");
    assert_eq!(hook.original(), ORIGINAL_ADDR);
    assert_eq!(seen_target.get(), STRLEN_ADDR);
    let name = seen_name.take();
    assert_eq!(name.len(), 256);
    assert_eq!(&name[..6], b"strlen");
    assert!(name[6..].iter().all(|b| *b == 0));
}

#[test]
fn hook_symbol_name_length_limit() {
    let longest = "a".repeat(255);
    let result = FunctionHook::hook_symbol(
        &longest,
        MOCK_STRLEN,
        |_image: usize, name: &[u8]| -> usize {
            assert_eq!(name[254], b'a');
            assert_eq!(name[255], 0);
            STRLEN_ADDR
        },
        |_t: usize, _r: usize| -> usize { ORIGINAL_ADDR },
    );
    assert!(result.is_ok());

    let too_long = "a".repeat(256);
    let result = FunctionHook::hook_symbol(
        &too_long,
        MOCK_STRLEN,
        |_image: usize, _name: &[u8]| -> usize { panic!("no lookup for a rejected name") },
        |_t: usize, _r: usize| -> usize { panic!("no hook for a rejected name") },
    );
    assert_eq!(result.err(), Some(Error::Other("Symbol name too long")));
}

#[test]
fn hook_symbol_null_original() {
    let result = FunctionHook::hook_symbol(
        "strlen",
        MOCK_STRLEN,
        |_image: usize, _name: &[u8]| -> usize { STRLEN_ADDR },
        |_t: usize, _r: usize| -> usize { 0 },
    );
    assert_eq!(result.err(), Some(Error::Other("Hook failed - original is null")));
}

#[test]
fn hook_function_outcomes() {
    let hook = FunctionHook::hook_function(STRLEN_ADDR, MOCK_STRLEN, |t: usize, r: usize| -> usize {
        assert_eq!((t, r), (STRLEN_ADDR, MOCK_STRLEN));
        ORIGINAL_ADDR
    })
    .expect("hook should succeed");
    assert_eq!(hook.original(), ORIGINAL_ADDR);

    let failed = FunctionHook::hook_function(STRLEN_ADDR, MOCK_STRLEN, |_t: usize, _r: usize| -> usize { 0 });
    assert_eq!(failed.err(), Some(Error::Other("Hook failed - original is null")));
}

#[test]
fn test_thread_safety_toggle() {
    let flag = Cell::new(-1i32);
    set_thread_safety(true, |on: i32| flag.set(on));
    assert_eq!(flag.get(), 1);
    set_thread_safety(false, |on: i32| flag.set(on));
    assert_eq!(flag.get(), 0);
}

#[test]
fn native_hook_outcomes() {
    assert_eq!(
        native_hook(0, MOCK_STRLEN, false, |_t: usize, _r: usize, _s: i32| -> usize { panic!("not called") }),
        Err(Error::NullPointer)
    );
    assert_eq!(
        native_hook(STRLEN_ADDR, 0, false, |_t: usize, _r: usize, _s: i32| -> usize { panic!("not called") }),
        Err(Error::NullPointer)
    );
    assert_eq!(
        native_hook(STRLEN_ADDR, MOCK_STRLEN, true, |_t: usize, _r: usize, skip: i32| -> usize {
            assert_eq!(skip, 1);
            ORIGINAL_ADDR
        }),
        Ok(ORIGINAL_ADDR)
    );
    assert_eq!(
        native_hook(STRLEN_ADDR, MOCK_STRLEN, false, |_t: usize, _r: usize, skip: i32| -> usize {
            assert_eq!(skip, 0);
            0
        }),
        Err(Error::Other("Native hook failed"))
    );
}

#[test]
fn precision_hook_outcomes() {
    assert_eq!(
        precision_hook(0, MOCK_STRLEN, |_t: usize, _r: usize| -> usize { panic!("not called") }),
        Err(Error::NullPointer)
    );
    assert_eq!(
        precision_hook(STRLEN_ADDR, MOCK_STRLEN, |_t: usize, _r: usize| -> usize { ORIGINAL_ADDR }),
        Ok(ORIGINAL_ADDR)
    );
    assert_eq!(
        precision_hook(STRLEN_ADDR, MOCK_STRLEN, |_t: usize, _r: usize| -> usize { 0 }),
        Err(Error::Other("Precision hook failed"))
    );
}

#[test]
fn test_strlen_hook_integration() {
    let hook = match FunctionHook::hook_symbol(
        "strlen",
        MOCK_STRLEN,
        |_image: usize, _name: &[u8]| -> usize { STRLEN_ADDR },
        |_t: usize, _r: usize| -> usize { ORIGINAL_ADDR },
    ) {
        Ok(hook) => hook,
        Err(e) => panic!("Failed to hook strlen: {}", e.message()),
    };
    assert_eq!(hook.original(), ORIGINAL_ADDR);
}

#[test]
fn test_hook_original_pointer_validity() {
    let hook = FunctionHook::hook_symbol(
        "strlen",
        MOCK_STRLEN,
        |_image: usize, _name: &[u8]| -> usize { STRLEN_ADDR },
        |_t: usize, _r: usize| -> usize { ORIGINAL_ADDR },
    )
    .expect("Failed to hook strlen on compatible platform");
    let original = hook.original();
    assert!(original != 0, "Function pointer is null");
    assert_eq!(original % std::mem::align_of::<usize>(), 0, "Function pointer is not properly aligned");
}

#[test]
fn test_hook_function_by_pointer() {
    let hook = FunctionHook::hook_function(STRLEN_ADDR, MOCK_STRLEN, |t: usize, _r: usize| -> usize {
        assert_eq!(t, STRLEN_ADDR);
        ORIGINAL_ADDR
    })
    .expect("Failed to hook by pointer");
    assert_eq!(hook.original(), ORIGINAL_ADDR);
}
