use net_monitor::win32::{check_win32, Win32Failure, ERROR_SUCCESS};

#[test]
fn success_is_ok() {
    assert_eq!(ERROR_SUCCESS, 0);
    assert_eq!(check_win32(0), Ok(()));
}

#[test]
fn a_system_error_becomes_a_failure_code() {
    assert_eq!(check_win32(5), Err(Win32Failure { error: 5, hresult: 0x8007_0005_u32 as i32 }));
    assert_eq!(check_win32(5).unwrap_err().hresult, -2147024891);
    assert_eq!(check_win32(1168), Err(Win32Failure { error: 1168, hresult: 0x8007_0490_u32 as i32 }));
}

#[test]
fn only_the_low_sixteen_bits_of_an_error_are_kept() {
    assert_eq!(check_win32(0x0001_0005).unwrap_err().hresult, 0x8007_0005_u32 as i32);
    assert_eq!(check_win32(0x7fff_ffff).unwrap_err().hresult, 0x8007_ffff_u32 as i32);
}

#[test]
fn a_code_with_the_top_bit_set_is_taken_over() {
    assert_eq!(check_win32(0x8000_4005).unwrap_err().hresult, 0x8000_4005_u32 as i32);
    assert_eq!(check_win32(0x8000_0000).unwrap_err().hresult, i32::MIN);
    assert_eq!(check_win32(u32::MAX).unwrap_err().hresult, -1);
}

#[test]
fn failure_codes_agree_with_the_system_library() {
    for error in [1u32, 2, 5, 87, 1168, 0xffff, 0x1_0000, 0x7fff_ffff, 0x8000_0000, u32::MAX] {
        let failure = check_win32(error).unwrap_err();
        assert_eq!(failure.error, error);
        assert_eq!(failure.hresult, windows_core::HRESULT::from_win32(error).0);
        assert!(windows_core::HRESULT(failure.hresult).is_err());
    }
}
