//! The envelope record and its error taxonomy.

use vstd::prelude::*;

verus! {

/// Tag identifying how the receiver should parse the carried bytes.
///
/// The wire ordinals are part of the format and never renumbered:
/// `HttpRequest` is 1 and `HttpResponse` is 2; ordinal 0 is reserved, and a
/// future variant must take 3. The ordinals are pinned by value in
/// [`crate::codec::tag_byte`], not by declaration order.
#[derive(Clone, Copy, Debug, PartialEq, Eq, Hash, Structural)]
pub enum MessageType {
    /// The carried bytes are an HTTP request.
    HttpRequest,
    /// The carried bytes are an HTTP response.
    HttpResponse,
}

impl Default for MessageType {
    /// A payload constructed without an explicit tag carries a request.
    fn default() -> (t: MessageType)
        ensures
            t == MessageType::HttpRequest,
    {
        MessageType::HttpRequest
    }
}

/// The envelope: a version byte, a message tag, and the raw bytes it
/// carries. Immutable once constructed; the codec only reads it.
#[derive(Clone, Debug, Eq, Hash)]
pub struct Payload {
    /// Schema revision of the envelope itself, opaque to the codec: it is
    /// round-tripped and never interpreted.
    pub version: u8,
    /// How the receiver should parse `data`.
    pub request_type: MessageType,
    /// The application bytes the envelope carries, of arbitrary length and
    /// with no interpretation imposed by the codec.
    pub data: Vec<u8>,
}

impl PartialEq for Payload {
    fn eq(&self, other: &Payload) -> (r: bool) {
        self.version == other.version && self.request_type == other.request_type
            && bytes_eq(&self.data, &other.data)
    }
}

impl vstd::std_specs::cmp::PartialEqSpecImpl for Payload {
    open spec fn obeys_eq_spec() -> bool {
        true
    }

    open spec fn eq_spec(&self, other: &Payload) -> bool {
        self.version == other.version && self.request_type == other.request_type
            && self.data@ == other.data@
    }
}

/// Byte-wise equality of two buffers.
fn bytes_eq(a: &Vec<u8>, b: &Vec<u8>) -> (r: bool)
    ensures
        r == (a@ == b@),
{
    if a.len() != b.len() {
        return false;
    }
    let mut i: usize = 0;
    while i < a.len()
        invariant
            i <= a@.len(),
            a@.len() == b@.len(),
            forall|j: int| 0 <= j < i ==> a@[j] == b@[j],
        decreases a@.len() - i,
    {
        if a[i] != b[i] {
            return false;
        }
        i = i + 1;
    }
    proof {
        assert(a@ =~= b@);
    }
    true
}

/// Errors from envelope (de)serialization.
///
/// Decoding never actually reports `Deserialize`: malformed input degrades
/// to a sentinel payload instead. The variant exists for API symmetry with
/// encoding and for forward compatibility.
#[derive(Clone, Debug, PartialEq, Eq)]
pub enum ConversionError {
    /// Failure to deserialize; carries a human-readable description.
    Deserialize(String),
    /// Failure to serialize; carries a human-readable description.
    Serialize(String),
}

} // verus!
