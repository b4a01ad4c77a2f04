use vstd::prelude::*;

use crate::utf16::{
    decode_utf16_lossy, encode_utf16, lemma_decode_encode, lemma_encode_last_unit,
    string_from_chars, utf16_decode_lossy, utf16_encode,
};

verus! {

/// `ERROR_SUCCESS`.
pub const ERROR_SUCCESS_CODE: u32 = 0;

/// `ERROR_FILE_NOT_FOUND`: the key or the value does not exist.
pub const ERROR_FILE_NOT_FOUND_CODE: u32 = 2;

/// `REG_SZ`: a null-terminated string value.
pub const REG_SZ_TYPE: u32 = 1;

/// The HRESULT that stands for a Win32 error code: codes that are not
/// positive as 32-bit signed values are kept, any other keeps its low 16 bits
/// under the Win32 facility with the failure bit set.
pub open spec fn hresult_of_win32(code: u32) -> i32 {
    if (code as i32) <= 0 {
        code as i32
    } else {
        ((code & 0xFFFF) | 0x70000 | 0x8000_0000) as i32
    }
}

/// The HRESULT of a Win32 error code, as `HRESULT::from_win32` maps it.
pub fn hresult_from_win32(code: u32) -> (r: i32)
    ensures
        r == hresult_of_win32(code),
{
    let signed: i32 = #[verifier::truncate] (code as i32);
    if signed <= 0 {
        signed
    } else {
        #[verifier::truncate] (((code & 0xFFFF) | 0x70000 | 0x8000_0000) as i32)
    }
}

/// The outcome of a registry call: success for `ERROR_SUCCESS`, otherwise
/// the failure with the HRESULT of the code.
pub open spec fn win32_outcome(code: u32) -> Result<(), i32> {
    if code == ERROR_SUCCESS_CODE {
        Ok(())
    } else {
        Err(hresult_of_win32(code))
    }
}

/// Turns the code a registry call returned into a result.
pub fn win32_result(code: u32) -> (r: Result<(), i32>)
    ensures
        r == win32_outcome(code),
{
    if code == ERROR_SUCCESS_CODE {
        Ok(())
    } else {
        Err(hresult_from_win32(code))
    }
}

/// The failure that says the Run key or its value does not exist.
pub open spec fn is_not_found(hresult: i32) -> bool {
    hresult == hresult_of_win32(ERROR_FILE_NOT_FOUND_CODE)
}

/// The UTF-16 units stored for a `REG_SZ` value: the string, then a null.
pub open spec fn reg_sz_units(value: Seq<char>) -> Seq<u16> {
    utf16_encode(value).push(0)
}

/// The little-endian bytes of UTF-16 units.
pub open spec fn le_bytes(units: Seq<u16>) -> Seq<u8> {
    Seq::new(
        2 * units.len(),
        |i: int|
            if i % 2 == 0 {
                (units[i / 2] % 0x100) as u8
            } else {
                (units[i / 2] / 0x100) as u8
            },
    )
}

/// The units read from little-endian byte pairs; a last odd byte is left out.
pub open spec fn le_units(bytes: Seq<u8>) -> Seq<u16> {
    Seq::new(bytes.len() / 2, |i: int| (bytes[2 * i] + 0x100 * bytes[2 * i + 1]) as u16)
}

/// The units without the nulls at their end.
pub open spec fn trim_trailing_nulls(units: Seq<u16>) -> Seq<u16>
    decreases units.len(),
{
    if units.len() > 0 && units.last() == 0 {
        trim_trailing_nulls(units.drop_last())
    } else {
        units
    }
}

/// The string that a `REG_SZ` value holds: its bytes read as little-endian
/// UTF-16 units, trailing nulls dropped, decoded lossily.
pub open spec fn reg_sz_string(bytes: Seq<u8>) -> Seq<char> {
    utf16_decode_lossy(trim_trailing_nulls(le_units(bytes)))
}

/// The UTF-16 units of a string followed by the terminating null, as a
/// `REG_SZ` value stores it.
pub fn encode_reg_sz(value: &str) -> (r: Vec<u16>)
    ensures
        r@ == reg_sz_units(value@),
{
    let mut units = encode_utf16(value);
    units.push(0);
    units
}

/// The bytes of UTF-16 units in the little-endian order in which the
/// registry stores them.
pub fn wide_as_bytes(value: &[u16]) -> (r: Vec<u8>)
    requires
        2 * value@.len() <= usize::MAX,
    ensures
        r@ == le_bytes(value@),
{
    let mut bytes: Vec<u8> = Vec::new();
    let n = value.len();
    let mut i: usize = 0;
    while i < n
        invariant
            n == value@.len(),
            i <= n,
            bytes@ =~= le_bytes(value@.take(i as int)),
        decreases n - i,
    {
        let u = value[i];
        bytes.push((u % 0x100) as u8);
        bytes.push((u / 0x100) as u8);
        i = i + 1;
        assert(bytes@ =~= le_bytes(value@.take(i as int)));
    }
    assert(value@.take(n as int) =~= value@);
    bytes
}

/// The string a `REG_SZ` value holds, read from its bytes.
pub fn decode_reg_sz(bytes: &[u8]) -> (r: String)
    ensures
        r@ == reg_sz_string(bytes@),
{
    let mut wide: Vec<u16> = Vec::new();
    let len = bytes.len();
    let pairs = len / 2;
    let mut k: usize = 0;
    while k < pairs
        invariant
            len == bytes@.len(),
            pairs == len / 2,
            2 * pairs <= len,
            k <= pairs,
            wide@ =~= le_units(bytes@).take(k as int),
        decreases pairs - k,
    {
        let low = bytes[2 * k] as u16;
        let high = bytes[2 * k + 1] as u16;
        wide.push(low + 0x100 * high);
        k = k + 1;
        assert(wide@ =~= le_units(bytes@).take(k as int));
    }
    assert(le_units(bytes@).take(pairs as int) =~= le_units(bytes@));
    while wide.len() > 0 && wide[wide.len() - 1] == 0
        invariant
            trim_trailing_nulls(wide@) == trim_trailing_nulls(le_units(bytes@)),
        decreases wide.len(),
    {
        let ghost before = wide@;
        wide.pop();
        assert(wide@ =~= before.drop_last());
    }
    let chars = decode_utf16_lossy(wide.as_slice());
    string_from_chars(chars)
}


/// Units written as little-endian bytes are read back unchanged.
pub proof fn lemma_le_bytes_round_trip(units: Seq<u16>)
    ensures
        le_units(le_bytes(units)) == units,
{
    let bytes = le_bytes(units);
    assert forall|i: int| 0 <= i < units.len() implies #[trigger] le_units(bytes)[i] == units[i] by {
        assert(bytes[2 * i] == (units[i] % 0x100) as u8);
        assert(bytes[2 * i + 1] == (units[i] / 0x100) as u8);
    }
    assert(le_units(bytes) =~= units);
}

/// The value stored for a string that does not end in a null character is
/// read back as that string.
pub proof fn lemma_reg_sz_round_trip(value: Seq<char>)
    requires
        value.len() == 0 || value.last() != '\0',
    ensures
        reg_sz_string(le_bytes(reg_sz_units(value))) == value,
{
    let units = utf16_encode(value);
    lemma_le_bytes_round_trip(units.push(0));
    assert(units.push(0).drop_last() =~= units);
    if value.len() > 0 {
        lemma_encode_last_unit(value);
    } else {
        assert(units =~= Seq::<u16>::empty());
    }
    assert(trim_trailing_nulls(units.push(0)) == trim_trailing_nulls(units));
    assert(trim_trailing_nulls(units) == units);
    lemma_decode_encode(value);
}


/// The command line that starts the program: its path in double quotes.
pub open spec fn quoted_command(path: Seq<char>) -> Seq<char> {
    seq!['"'] + path + seq!['"']
}

/// The command line stored in the Run key: the displayed path of the
/// executable in double quotes.
pub fn startup_command(executable_path: &str) -> (r: String)
    ensures
        r@ == quoted_command(executable_path@),
{
    let quote = "\"";
    proof {
        reveal_strlit("\"");
    }
    let mut command = String::from_str(quote);
    command.append(executable_path);
    command.append(quote);
    command
}

/// What the look-up of the start-up entry does next.
#[derive(Debug)]
pub enum StartupProbe {
    /// Read the type and the size of the value.
    QueryValueSize,
    /// Read the value, `byte_len` bytes of it.
    QueryValueData { byte_len: u32 },
    /// The look-up is over: whether the entry starts this program, or the
    /// failure.
    Finished(Result<bool, i32>),
}

/// The step after opening the Run key for reading: a missing key means no
/// entry, another failure ends the look-up with that failure.
pub open spec fn probe_open_step(code: u32) -> StartupProbe {
    match win32_outcome(code) {
        Ok(()) => StartupProbe::QueryValueSize,
        Err(h) => StartupProbe::Finished(
            if is_not_found(h) {
                Ok(false)
            } else {
                Err(h)
            },
        ),
    }
}

/// The step after reading the type and size of the value: a missing value,
/// a value that is not a string or an empty one means no entry.
pub open spec fn probe_size_step(code: u32, value_type: u32, byte_len: u32) -> StartupProbe {
    if code == ERROR_FILE_NOT_FOUND_CODE {
        StartupProbe::Finished(Ok(false))
    } else if code != ERROR_SUCCESS_CODE {
        StartupProbe::Finished(Err(hresult_of_win32(code)))
    } else if value_type != REG_SZ_TYPE || byte_len == 0 {
        StartupProbe::Finished(Ok(false))
    } else {
        StartupProbe::QueryValueData { byte_len }
    }
}

/// The outcome after reading the value: the entry starts this program when
/// it is a string equal to the program's command line.
pub open spec fn probe_data_outcome(
    code: u32,
    value_type: u32,
    data: Seq<u8>,
    byte_len: u32,
    command: Seq<char>,
) -> Result<bool, i32> {
    if code != ERROR_SUCCESS_CODE {
        Err(hresult_of_win32(code))
    } else if value_type != REG_SZ_TYPE {
        Ok(false)
    } else {
        Ok(reg_sz_string(data.take(byte_len as int)) == command)
    }
}

/// Decides the next step after trying to open the Run key for reading.
pub fn probe_after_open(code: u32) -> (r: StartupProbe)
    ensures
        r == probe_open_step(code),
{
    match win32_result(code) {
        Ok(()) => StartupProbe::QueryValueSize,
        Err(h) => {
            if h == hresult_from_win32(ERROR_FILE_NOT_FOUND_CODE) {
                StartupProbe::Finished(Ok(false))
            } else {
                StartupProbe::Finished(Err(h))
            }
        },
    }
}

/// Decides the next step after reading the type and size of the value.
pub fn probe_after_size_query(code: u32, value_type: u32, byte_len: u32) -> (r: StartupProbe)
    ensures
        r == probe_size_step(code, value_type, byte_len),
{
    if code == ERROR_FILE_NOT_FOUND_CODE {
        return StartupProbe::Finished(Ok(false));
    }
    if let Err(h) = win32_result(code) {
        return StartupProbe::Finished(Err(h));
    }
    if value_type != REG_SZ_TYPE || byte_len == 0 {
        return StartupProbe::Finished(Ok(false));
    }
    StartupProbe::QueryValueData { byte_len }
}

/// Decides whether the entry starts this program, from the outcome of
/// reading the value: `data` is the buffer, of which the first `byte_len`
/// bytes were filled.
pub fn probe_after_data_query(
    code: u32,
    value_type: u32,
    data: &[u8],
    byte_len: u32,
    command: &String,
) -> (r: Result<bool, i32>)
    requires
        code == ERROR_SUCCESS_CODE && value_type == REG_SZ_TYPE ==> byte_len <= data@.len(),
    ensures
        r == probe_data_outcome(code, value_type, data@, byte_len, command@),
{
    if let Err(h) = win32_result(code) {
        return Err(h);
    }
    if value_type != REG_SZ_TYPE {
        return Ok(false);
    }
    let filled = &data[0..byte_len as usize];
    let value = decode_reg_sz(filled);
    Ok(value.eq(command))
}

/// The step of turning the entry off after trying to open the Run key for
/// writing: `None` to go on and delete the value; a missing key means there
/// is nothing to delete.
pub open spec fn disable_open_step(code: u32) -> Option<Result<(), i32>> {
    match win32_outcome(code) {
        Ok(()) => None,
        Err(h) => Some(
            if is_not_found(h) {
                Ok(())
            } else {
                Err(h)
            },
        ),
    }
}

/// Decides how turning the entry off goes on after trying to open the Run
/// key for writing.
pub fn disable_after_open(code: u32) -> (r: Option<Result<(), i32>>)
    ensures
        r == disable_open_step(code),
{
    match win32_result(code) {
        Ok(()) => None,
        Err(h) => {
            if h == hresult_from_win32(ERROR_FILE_NOT_FOUND_CODE) {
                Some(Ok(()))
            } else {
                Some(Err(h))
            }
        },
    }
}

/// The outcome of deleting the value: a value that was not there counts as
/// deleted.
pub fn disable_after_delete(code: u32) -> (r: Result<(), i32>)
    ensures
        r == (if code == ERROR_FILE_NOT_FOUND_CODE {
            Ok(())
        } else {
            win32_outcome(code)
        }),
{
    if code == ERROR_FILE_NOT_FOUND_CODE {
        return Ok(());
    }
    win32_result(code)
}

/// The entry that turning start-up on writes is recognised by the look-up:
/// the value read back after a successful write of the command line makes the
/// look-up find the entry.
pub proof fn lemma_written_entry_is_recognised(path: Seq<char>)
    requires
        2 * reg_sz_units(quoted_command(path)).len() <= u32::MAX,
    ensures
        ({
            let bytes = le_bytes(reg_sz_units(quoted_command(path)));
            &&& probe_open_step(ERROR_SUCCESS_CODE) == StartupProbe::QueryValueSize
            &&& probe_size_step(ERROR_SUCCESS_CODE, REG_SZ_TYPE, bytes.len() as u32)
                == StartupProbe::QueryValueData { byte_len: bytes.len() as u32 }
            &&& probe_data_outcome(
                ERROR_SUCCESS_CODE,
                REG_SZ_TYPE,
                bytes,
                bytes.len() as u32,
                quoted_command(path),
            ) == Ok::<bool, i32>(true)
        }),
{
    let command = quoted_command(path);
    let bytes = le_bytes(reg_sz_units(command));
    lemma_reg_sz_round_trip(command);
    assert(bytes.take(bytes.len() as int) =~= bytes);
    assert(bytes.len() > 0);
}

/// A missing key or value means no entry, never a failure.
pub proof fn lemma_missing_entry_is_not_a_failure()
    ensures
        probe_open_step(ERROR_FILE_NOT_FOUND_CODE) == StartupProbe::Finished(Ok(false)),
        probe_size_step(ERROR_FILE_NOT_FOUND_CODE, 0, 0) == StartupProbe::Finished(Ok(false)),
        disable_open_step(ERROR_FILE_NOT_FOUND_CODE) == Some(Ok::<(), i32>(())),
{
}


/// Win32 codes from 1 to 0xFFFF become failure HRESULTs under the Win32
/// facility (`0x8007xxxx`); success stays 0.
pub proof fn lemma_hresult_of_small_codes(code: u32)
    requires
        code <= 0xFFFF,
    ensures
        code == 0 ==> hresult_of_win32(code) == 0,
        code > 0 ==> hresult_of_win32(code) as int == code as int + 0x8007_0000 - 0x1_0000_0000,
{
    assert(code > 0 && code <= 0xFFFF ==> (((code & 0xFFFF) | 0x70000 | 0x8000_0000) as i32) as int
        == code as int + 0x8007_0000 - 0x1_0000_0000) by (bit_vector);
    assert(code <= 0xFFFF ==> (code as i32) as int == code as int) by (bit_vector);
}

/// After reading the value's type and size the look-up reads the value
/// exactly when the call succeeded on a non-empty string value; it finds no
/// entry for a missing value, a value of another type or an empty one, and
/// fails for any other error.
pub proof fn lemma_size_query_outcomes(code: u32, value_type: u32, byte_len: u32)
    ensures
        probe_size_step(code, value_type, byte_len) is QueryValueData <==> (code == 0
            && value_type == 1 && byte_len > 0),
        probe_size_step(code, value_type, byte_len) is QueryValueData ==> probe_size_step(
            code,
            value_type,
            byte_len,
        )->byte_len == byte_len,
        probe_size_step(code, value_type, byte_len) == StartupProbe::Finished(Ok(false)) <==> (
        code == 2 || (code == 0 && (value_type != 1 || byte_len == 0))),
        probe_size_step(code, value_type, byte_len) matches StartupProbe::Finished(Err(_)) <==> (
        code != 0 && code != 2),
{
}

/// After reading the value the look-up fails exactly when the read failed,
/// finds no entry for a value that is not a string, and otherwise finds the
/// entry exactly when the string read equals the command line.
pub proof fn lemma_data_query_outcomes(
    code: u32,
    value_type: u32,
    data: Seq<u8>,
    byte_len: u32,
    command: Seq<char>,
)
    ensures
        probe_data_outcome(code, value_type, data, byte_len, command) is Err <==> code != 0,
        code == 0 && value_type != 1 ==> probe_data_outcome(
            code,
            value_type,
            data,
            byte_len,
            command,
        ) == Ok::<bool, i32>(false),
        code == 0 && value_type == 1 ==> probe_data_outcome(
            code,
            value_type,
            data,
            byte_len,
            command,
        ) == Ok::<bool, i32>(reg_sz_string(data.take(byte_len as int)) == command),
{
}

/// The command line stored is the path with a double quote before and after
/// it.
pub proof fn lemma_quoted_command_shape(path: Seq<char>)
    ensures
        quoted_command(path).len() == path.len() + 2,
        quoted_command(path)[0] == '"',
        quoted_command(path).last() == '"',
        quoted_command(path).subrange(1, path.len() + 1 as int) == path,
{
    assert(quoted_command(path).subrange(1, path.len() + 1 as int) =~= path);
}

} // verus!
