use desktop_switcher::startup::{
    decode_reg_sz, disable_after_delete, disable_after_open, encode_reg_sz, hresult_from_win32,
    probe_after_data_query, probe_after_open, probe_after_size_query, startup_command,
    wide_as_bytes, win32_result, StartupProbe, ERROR_FILE_NOT_FOUND_CODE, ERROR_SUCCESS_CODE,
    REG_SZ_TYPE,
};

const NOT_FOUND_HRESULT: i32 = 0x8007_0002_u32 as i32;

#[test]
fn reg_sz_is_utf16_with_a_terminating_null() {
    assert_eq!(encode_reg_sz("ab"), vec![0x61, 0x62, 0]);
    let text = "C:\\程序\\𝄞.exe";
    let mut expected: Vec<u16> = text.encode_utf16().collect();
    expected.push(0);
    assert_eq!(encode_reg_sz(text), expected);
}

#[test]
fn wide_values_are_stored_little_endian() {
    assert_eq!(wide_as_bytes(&[0x1234, 0x0061]), vec![0x34, 0x12, 0x61, 0x00]);
    assert!(wide_as_bytes(&[]).is_empty());
}

#[test]
fn reg_sz_round_trips() {
    for text in ["\"C:\\Tools\\desktop-switcher.exe\"", "", "𝄞 ünïcödé 程序"] {
        let bytes = wide_as_bytes(&encode_reg_sz(text));
        assert_eq!(decode_reg_sz(&bytes), text);
    }
}

#[test]
fn reg_sz_decoding_drops_trailing_nulls_and_an_odd_byte() {
    assert_eq!(decode_reg_sz(&[0x61, 0, 0, 0, 0, 0]), "a");
    assert_eq!(decode_reg_sz(&[0x61, 0, 0x62]), "a");
    assert_eq!(decode_reg_sz(&[]), "");
}

#[test]
fn reg_sz_decoding_replaces_unpaired_surrogates() {
    let units: [u16; 6] = [0xD834, 0x0061, 0xDD1E, 0xD834, 0xDD1E, 0xD800];
    let bytes: Vec<u8> = units.iter().flat_map(|u| u.to_le_bytes()).collect();
    assert_eq!(decode_reg_sz(&bytes), String::from_utf16_lossy(&units));
    assert_eq!(decode_reg_sz(&bytes), "\u{FFFD}a\u{FFFD}\u{1D11E}\u{FFFD}");
}

#[test]
fn hresult_of_win32_codes() {
    assert_eq!(hresult_from_win32(0), 0);
    assert_eq!(hresult_from_win32(ERROR_FILE_NOT_FOUND_CODE), NOT_FOUND_HRESULT);
    assert_eq!(hresult_from_win32(5), 0x8007_0005_u32 as i32);
    assert_eq!(hresult_from_win32(0x8000_4005), 0x8000_4005_u32 as i32);
    assert_eq!(hresult_from_win32(0x0001_0002), NOT_FOUND_HRESULT);
}

#[test]
fn win32_results() {
    assert_eq!(win32_result(ERROR_SUCCESS_CODE), Ok(()));
    assert_eq!(win32_result(5), Err(0x8007_0005_u32 as i32));
}

#[test]
fn startup_command_quotes_the_path() {
    assert_eq!(startup_command("C:\\a b\\x.exe"), "\"C:\\a b\\x.exe\"");
}

#[test]
fn probe_after_open_outcomes() {
    assert!(matches!(probe_after_open(ERROR_SUCCESS_CODE), StartupProbe::QueryValueSize));
    assert!(matches!(
        probe_after_open(ERROR_FILE_NOT_FOUND_CODE),
        StartupProbe::Finished(Ok(false))
    ));
    assert!(matches!(
        probe_after_open(5),
        StartupProbe::Finished(Err(h)) if h == 0x8007_0005_u32 as i32
    ));
}

#[test]
fn probe_after_size_query_outcomes() {
    assert!(matches!(
        probe_after_size_query(ERROR_FILE_NOT_FOUND_CODE, REG_SZ_TYPE, 10),
        StartupProbe::Finished(Ok(false))
    ));
    assert!(matches!(
        probe_after_size_query(5, REG_SZ_TYPE, 10),
        StartupProbe::Finished(Err(_))
    ));
    assert!(matches!(
        probe_after_size_query(ERROR_SUCCESS_CODE, 4, 10),
        StartupProbe::Finished(Ok(false))
    ));
    assert!(matches!(
        probe_after_size_query(ERROR_SUCCESS_CODE, REG_SZ_TYPE, 0),
        StartupProbe::Finished(Ok(false))
    ));
    assert!(matches!(
        probe_after_size_query(ERROR_SUCCESS_CODE, REG_SZ_TYPE, 10),
        StartupProbe::QueryValueData { byte_len: 10 }
    ));
}

#[test]
fn written_entry_is_recognised() {
    let command = startup_command("C:\\Tools\\switcher.exe");
    let bytes = wide_as_bytes(&encode_reg_sz(&command));
    let len = bytes.len() as u32;
    assert_eq!(
        probe_after_data_query(ERROR_SUCCESS_CODE, REG_SZ_TYPE, &bytes, len, &command),
        Ok(true)
    );
    let other = startup_command("C:\\Other\\switcher.exe");
    assert_eq!(
        probe_after_data_query(ERROR_SUCCESS_CODE, REG_SZ_TYPE, &bytes, len, &other),
        Ok(false)
    );
    assert_eq!(probe_after_data_query(ERROR_SUCCESS_CODE, 4, &bytes, len, &command), Ok(false));
    assert_eq!(
        probe_after_data_query(5, REG_SZ_TYPE, &bytes, len, &command),
        Err(0x8007_0005_u32 as i32)
    );
}

#[test]
fn only_the_filled_bytes_are_read() {
    let command = startup_command("x");
    let mut bytes = wide_as_bytes(&encode_reg_sz(&command));
    let len = bytes.len() as u32;
    bytes.extend_from_slice(&[0x41, 0x00]);
    assert_eq!(
        probe_after_data_query(ERROR_SUCCESS_CODE, REG_SZ_TYPE, &bytes, len, &command),
        Ok(true)
    );
}

#[test]
fn disabling_a_missing_entry_succeeds() {
    assert_eq!(disable_after_open(ERROR_SUCCESS_CODE), None);
    assert_eq!(disable_after_open(ERROR_FILE_NOT_FOUND_CODE), Some(Ok(())));
    assert_eq!(disable_after_open(5), Some(Err(0x8007_0005_u32 as i32)));
    assert_eq!(disable_after_delete(ERROR_FILE_NOT_FOUND_CODE), Ok(()));
    assert_eq!(disable_after_delete(ERROR_SUCCESS_CODE), Ok(()));
    assert_eq!(disable_after_delete(5), Err(0x8007_0005_u32 as i32));
}
