//! The serial session: at most one open port, opened, read, written and
//! closed through one owner.
use vstd::prelude::*;

use crate::outside::{
    all_ascii, decode_lossy, lossy_text, open_native_port, read_port, write_port,
};

verus! {

/// Baud rate of every session.
pub const BAUD_RATE: u32 = 9600;

/// I/O timeout of every session, in milliseconds.
pub const TIMEOUT_MS: u64 = 1000;

/// Largest number of bytes taken by one read.
pub const READ_CHUNK: usize = 1024;

/// Why a session operation failed.
#[derive(Debug, PartialEq, Eq)]
pub enum SessionError {
    /// Port enumeration failed, so the requested name could not be checked.
    NoPortsAvailable,
    /// The requested name is not among the enumerated ports.
    PortNotFound,
    /// The operating system refused to open the port.
    PortOpen(String),
    /// The operation needs an open port and none is open.
    NoPortOpen,
    /// Reading from the open port failed.
    Read(String),
    /// Writing to the open port failed.
    Write(String),
}

/// The state of a session as its users see it: the name of the open port,
/// or `None` when no port is open.
pub type SessionState = Option<Seq<char>>;

/// State after a successful `open` of `name`: whatever was open before is
/// replaced.
pub open spec fn open_step(s: SessionState, name: Seq<char>) -> SessionState {
    Some(name)
}

/// State after a `close`.
pub open spec fn close_step(s: SessionState) -> SessionState {
    None
}

/// Whether a `close` on state `s` succeeds.
pub open spec fn close_succeeds(s: SessionState) -> bool {
    s is Some
}

/// Whether reading and writing are possible in state `s`.
pub open spec fn io_allowed(s: SessionState) -> bool {
    s is Some
}

/// Whether `name` is one of the listed port names.
pub open spec fn is_listed(listed: Seq<String>, name: Seq<char>) -> bool {
    exists|i: int| 0 <= i < listed.len() && #[trigger] listed[i]@ == name
}

/// An open port together with the name and the settings it was opened
/// with.
struct OpenPort {
    name: String,
    port: serialport::TTYPort,
    baud: u32,
    timeout_ms: u64,
}

/// The single serial session: owns at most one open port.
pub struct SerialSession {
    link: Option<OpenPort>,
}

impl View for SerialSession {
    type V = SessionState;

    closed spec fn view(&self) -> SessionState {
        match self.link {
            Some(p) => Some(p.name@),
            None => None,
        }
    }
}

/// Whether `name` is among `listed`.
pub fn find_port(listed: &Vec<String>, name: &str) -> (r: bool)
    ensures
        r == is_listed(listed@, name@),
{
    let wanted = name.to_owned();
    let mut i: usize = 0;
    while i < listed.len()
        invariant
            i <= listed.len(),
            wanted@ == name@,
            forall|j: int| 0 <= j < i ==> listed@[j]@ != name@,
        decreases listed.len() - i,
    {
        let candidate: &String = &listed[i];
        assert(candidate@ == listed@[i as int]@);
        if candidate.eq(&wanted) {
            assert(listed@[i as int]@ == name@);
            return true;
        }
        i = i + 1;
    }
    false
}

impl SerialSession {
    /// The baud rate and the timeout in milliseconds of the open port, or
    /// `None` when no port is open.
    pub closed spec fn settings(&self) -> Option<(u32, u64)> {
        match self.link {
            Some(p) => Some((p.baud, p.timeout_ms)),
            None => None,
        }
    }

    /// A session with no open port.
    pub fn new() -> (r: SerialSession)
        ensures
            r@ is None,
            r.settings() is None,
    {
        SerialSession { link: None }
    }

    /// Whether a port is open.
    pub fn is_open(&self) -> (r: bool)
        ensures
            r == io_allowed(self@),
    {
        self.link.is_some()
    }

    /// The name of the open port, if any.
    pub fn port_name(&self) -> (r: Option<String>)
        ensures
            r matches Some(n) ==> self@ == Some(n@),
            r is None <==> self@ is None,
    {
        match &self.link {
            Some(p) => Some(p.name.clone()),
            None => None,
        }
    }

    /// Opens `name`, which must be among the `listed` port names. On success
    /// the new port replaces any open one; on failure the session is
    /// unchanged.
    pub fn open_listed(&mut self, name: &str, listed: &Vec<String>) -> (r: Result<(), SessionError>)
        ensures
            !is_listed(listed@, name@) ==> r == Err::<(), SessionError>(SessionError::PortNotFound),
            is_listed(listed@, name@) ==> (r is Ok || r matches Err(SessionError::PortOpen(_))),
            r is Ok ==> final(self)@ == open_step(old(self)@, name@),
            r is Ok ==> final(self).settings() == Some((BAUD_RATE, TIMEOUT_MS)),
            r is Err ==> final(self)@ == old(self)@ && final(self).settings() == old(self).settings(),
    {
        if !find_port(listed, name) {
            assert(!is_listed(listed@, name@));
            return Err(SessionError::PortNotFound);
        }
        match open_native_port(name, BAUD_RATE, TIMEOUT_MS) {
            Ok((port, baud, timeout_ms)) => {
                // a port that was open before is dropped here, which closes it
                self.link = Some(OpenPort { name: name.to_owned(), port, baud, timeout_ms });
                Ok(())
            },
            Err(cause) => Err(SessionError::PortOpen(cause)),
        }
    }

    /// Opens the port `name` after checking it against the outcome of a
    /// fresh enumeration: a failed enumeration is an error of its own.
    pub fn open(&mut self, name: &str, enumerated: &Result<Vec<String>, String>) -> (r: Result<
        (),
        SessionError,
    >)
        ensures
            enumerated is Err ==> r == Err::<(), SessionError>(SessionError::NoPortsAvailable),
            *enumerated matches Ok(listed) ==> (!is_listed(listed@, name@) ==> r == Err::<
                (),
                SessionError,
            >(SessionError::PortNotFound)),
            *enumerated matches Ok(listed) ==> (is_listed(listed@, name@) ==> (r is Ok
                || r matches Err(SessionError::PortOpen(_)))),
            r is Ok ==> final(self)@ == open_step(old(self)@, name@),
            r is Ok ==> final(self).settings() == Some((BAUD_RATE, TIMEOUT_MS)),
            r is Err ==> final(self)@ == old(self)@ && final(self).settings() == old(self).settings(),
    {
        match enumerated {
            Ok(listed) => self.open_listed(name, listed),
            Err(_) => Err(SessionError::NoPortsAvailable),
        }
    }

    /// Reads what the open port has received, up to `READ_CHUNK` bytes, as
    /// text.
    pub fn read(&mut self) -> (r: Result<String, SessionError>)
        ensures
            final(self)@ == old(self)@,
            final(self).settings() == old(self).settings(),
            !io_allowed(old(self)@) ==> r == Err::<String, SessionError>(SessionError::NoPortOpen),
            io_allowed(old(self)@) ==> (r is Ok || r matches Err(SessionError::Read(_))),
            r matches Ok(t) ==> exists|bytes: Seq<u8>|
                bytes.len() <= READ_CHUNK && t@ == #[trigger] lossy_text(bytes),
    {
        match &mut self.link {
            Some(open) => {
                match read_port(&mut open.port, READ_CHUNK) {
                    Ok(bytes) => Ok(decode_received(&bytes)),
                    Err(cause) => Err(SessionError::Read(cause)),
                }
            },
            None => Err(SessionError::NoPortOpen),
        }
    }

    /// Writes every byte of `data` to the open port.
    pub fn write(&mut self, data: &str) -> (r: Result<(), SessionError>)
        ensures
            final(self)@ == old(self)@,
            final(self).settings() == old(self).settings(),
            !io_allowed(old(self)@) ==> r == Err::<(), SessionError>(SessionError::NoPortOpen),
            io_allowed(old(self)@) ==> (r is Ok || r matches Err(SessionError::Write(_))),
    {
        match &mut self.link {
            Some(open) => {
                match write_port(&mut open.port, data.as_bytes()) {
                    Ok(()) => Ok(()),
                    Err(cause) => Err(SessionError::Write(cause)),
                }
            },
            None => Err(SessionError::NoPortOpen),
        }
    }

    /// Closes the open port. Closing a closed session is an error.
    pub fn close(&mut self) -> (r: Result<(), SessionError>)
        ensures
            final(self)@ == close_step(old(self)@),
            final(self).settings() is None,
            r is Ok <==> close_succeeds(old(self)@),
            r is Err ==> r == Err::<(), SessionError>(SessionError::NoPortOpen),
    {
        match self.link.take() {
            // the taken port goes out of scope here, which closes it
            Some(_released) => Ok(()),
            None => Err(SessionError::NoPortOpen),
        }
    }
}

/// The text of bytes received from a port; invalid UTF-8 is replaced, never
/// rejected.
pub fn decode_received(bytes: &Vec<u8>) -> (r: String)
    ensures
        r@ == lossy_text(bytes@),
        all_ascii(bytes@) ==> r@ == bytes@.map_values(|b: u8| b as char),
{
    decode_lossy(bytes.as_slice())
}

/// Opening twice without a close leaves exactly the second port open.
pub proof fn lemma_open_replaces(s: SessionState, a: Seq<char>, b: Seq<char>)
    ensures
        open_step(open_step(s, a), b) == Some(b),
{
}

/// A closed session allows no reading, writing or closing.
pub proof fn lemma_closed_rejects(s: SessionState)
    requires
        s is None,
    ensures
        !io_allowed(s),
        !close_succeeds(s),
{
}

/// A second `close` right after a `close` fails.
pub proof fn lemma_close_twice_fails(s: SessionState)
    ensures
        !close_succeeds(close_step(s)),
{
}

} // verus!
