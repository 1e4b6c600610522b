//! Transport backends and their selection by name.

use vstd::prelude::*;

verus! {

/// Helper enum denoting available backends.
#[derive(Clone, Copy, Debug, PartialEq, Eq, Structural)]
pub enum Proto {
    /// TCP as implemented by OS.
    Tcp,
    /// Low-level QUIC library designed by Cloudflare.
    Quiche,
    /// Higher level QUIC library.
    Quinn,
}

/// Why a backend cannot be used for a session.
#[derive(Clone, Copy, Debug, PartialEq, Eq, Structural)]
pub enum BackendError {
    /// The name given on the command line is not one of the known backends.
    UnknownName,
    /// The backend is known but its session support is not finished.
    Unavailable,
}

/// The backend that a name on the command line stands for, if any.
/// No name at all selects TCP.
pub open spec fn spec_proto_of_name(name: Option<Seq<char>>) -> Option<Proto> {
    match name {
        None => Some(Proto::Tcp),
        Some(s) => if s == "TCP"@ {
            Some(Proto::Tcp)
        } else if s == "Quiche"@ {
            Some(Proto::Quiche)
        } else if s == "Quinn"@ {
            Some(Proto::Quinn)
        } else {
            None
        },
    }
}

impl Proto {
    /// Whether a measurement session can run over this backend.
    pub open spec fn spec_is_available(self) -> bool {
        self != Proto::Quiche
    }

    /// Whether a measurement session can run over this backend.
    #[verifier::when_used_as_spec(spec_is_available)]
    pub fn is_available(self) -> (r: bool)
        ensures
            r == self.spec_is_available(),
    {
        match self {
            Proto::Tcp => true,
            Proto::Quiche => false,
            Proto::Quinn => true,
        }
    }
}

/// Whether two byte strings are the same, byte for byte.
fn same_bytes(a: &[u8], b: &[u8]) -> (r: bool)
    ensures
        r == (a@ == b@),
{
    if a.len() != b.len() {
        return false;
    }
    let mut i: usize = 0;
    while i < a.len()
        invariant
            a.len() == b.len(),
            i <= a.len(),
            forall|j: int| 0 <= j < i ==> a@[j] == b@[j],
        decreases a.len() - i,
    {
        if a[i] != b[i] {
            return false;
        }
        i += 1;
    }
    assert(a@ =~= b@);
    true
}

fn same_text(a: &str, b: &str) -> (r: bool)
    ensures
        r == (a@ == b@),
{
    let r = same_bytes(a.as_bytes(), b.as_bytes());
    proof {
        vstd::utf8::encode_utf8_decode_utf8(a@);
        vstd::utf8::encode_utf8_decode_utf8(b@);
    }
    r
}

/// Maps a backend name to its backend. An absent name means TCP; a name
/// that is none of `TCP`, `Quiche`, `Quinn` is refused.
pub fn parse_backend(name: Option<&str>) -> (r: Result<Proto, BackendError>)
    ensures
        match spec_proto_of_name(
            match name {
                Some(s) => Some(s@),
                None => None,
            },
        ) {
            Some(p) => r == Ok::<Proto, BackendError>(p),
            None => r == Err::<Proto, BackendError>(BackendError::UnknownName),
        },
{
    match name {
        None => Ok(Proto::Tcp),
        Some(s) => {
            if same_text(s, "TCP") {
                Ok(Proto::Tcp)
            } else if same_text(s, "Quiche") {
                Ok(Proto::Quiche)
            } else if same_text(s, "Quinn") {
                Ok(Proto::Quinn)
            } else {
                Err(BackendError::UnknownName)
            }
        },
    }
}

/// Selects the backend for a run. The choice is made once, before any
/// connection: an unknown name is refused, and so is a backend whose
/// session support is unfinished, which is never replaced by another one.
pub fn select_backend(name: Option<&str>) -> (r: Result<Proto, BackendError>)
    ensures
        match spec_proto_of_name(
            match name {
                Some(s) => Some(s@),
                None => None,
            },
        ) {
            Some(p) => if p.spec_is_available() {
                r == Ok::<Proto, BackendError>(p)
            } else {
                r == Err::<Proto, BackendError>(BackendError::Unavailable)
            },
            None => r == Err::<Proto, BackendError>(BackendError::UnknownName),
        },
{
    match parse_backend(name) {
        Err(e) => Err(e),
        Ok(p) => {
            if p.is_available() {
                Ok(p)
            } else {
                Err(BackendError::Unavailable)
            }
        },
    }
}

} // verus!
