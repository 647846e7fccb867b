//! Trusted bindings to the serial-port crate and to std functions that vstd
//! does not specify.
use vstd::prelude::*;

verus! {

#[verifier::external_type_specification]
#[verifier::external_body]
pub struct ExTtyPort(serialport::TTYPort);

/// The text that `String::from_utf8_lossy` makes of a byte sequence.
pub uninterp spec fn lossy_text(bytes: Seq<u8>) -> Seq<char>;

/// True when every byte is a 7-bit ASCII code.
pub open spec fn all_ascii(bytes: Seq<u8>) -> bool {
    forall|i: int| 0 <= i < bytes.len() ==> bytes[i] < 128
}

/// Relies on serialport::new(..).timeout(..).open_native(): opens the named
/// device, setting the given baud rate and keeping the given I/O timeout
/// (an error where the baud rate cannot be set), and hands back the port
/// with the settings it was opened with, or why the operating system refused.
#[verifier::external_body]
pub(crate) fn open_native_port(name: &str, baud: u32, timeout_ms: u64) -> (r: Result<
    (serialport::TTYPort, u32, u64),
    String,
>)
    ensures
        r matches Ok(opened) ==> opened.1 == baud && opened.2 == timeout_ms,
{
    serialport::new(name, baud)
        .timeout(std::time::Duration::from_millis(timeout_ms))
        .open_native()
        .map(|port| (port, baud, timeout_ms))
        .map_err(|e| e.description)
}

/// Relies on std::io::Read::read for serialport::TTYPort: one read of at most
/// `max` bytes, waiting no longer than the port's timeout.
#[verifier::external_body]
pub(crate) fn read_port(port: &mut serialport::TTYPort, max: usize) -> (r: Result<Vec<u8>, String>)
    ensures
        r matches Ok(v) ==> v@.len() <= max,
{
    let mut buf = vec![0u8; max];
    std::io::Read::read(port, &mut buf).map(|n| buf[..n].to_vec()).map_err(|e| e.to_string())
}

/// Relies on std::io::Write::write_all for serialport::TTYPort: writes every
/// byte, or reports the operating system's error.
#[verifier::external_body]
pub(crate) fn write_port(port: &mut serialport::TTYPort, bytes: &[u8]) -> (r: Result<(), String>) {
    std::io::Write::write_all(port, bytes).map_err(|e| e.to_string())
}

/// Relies on String::from_utf8_lossy: invalid sequences become U+FFFD, and
/// valid UTF-8 (ASCII in particular, one character per byte) is kept as is.
#[verifier::external_body]
pub(crate) fn decode_lossy(bytes: &[u8]) -> (r: String)
    ensures
        r@ == lossy_text(bytes@),
        all_ascii(bytes@) ==> r@ == bytes@.map_values(|b: u8| b as char),
{
    String::from_utf8_lossy(bytes).into_owned()
}

/// The parent directory that `std::path::Path::parent` gives for a path, or
/// `None` for a root or an empty path.
pub uninterp spec fn parent_of(path: Seq<char>) -> Option<Seq<char>>;

/// Relies on std::path::Path::parent: the path with its last component
/// removed; the result depends on the path's text alone.
#[verifier::external_body]
pub(crate) fn path_parent(path: &str) -> (r: Option<String>)
    ensures
        match r {
            Some(d) => parent_of(path@) == Some(d@),
            None => parent_of(path@) is None,
        },
{
    std::path::Path::new(path).parent().map(|d| d.to_string_lossy().into_owned())
}

} // verus!
