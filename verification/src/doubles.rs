//! In-memory doubles of the capability traits, for exercising the
//! connection-handling core without sockets, files or clocks.
//!
//! Unlike a real transport, each double's model is not assumed: the impls
//! below are verified, so every contract a double promises is proved.

use crate::stream::Delay;
use crate::stream::IoErrorKind;
use crate::stream::PayloadSource;
use crate::stream::StreamAdapter;
use vstd::prelude::*;
use vstd::slice::slice_to_vec;

verus! {

/// A stream double that follows a script: one fixed read outcome, one
/// fixed outcome for every write, and a log of the bytes written.
pub struct ScriptedStream {
    /// What `read_request` yields.
    pub request: Result<String, IoErrorKind>,
    /// The outcome given to every write.
    pub write_outcome: Result<(), IoErrorKind>,
    /// Every byte sequence successfully written, oldest first.
    pub written: Vec<Vec<u8>>,
}

impl StreamAdapter for ScriptedStream {
    open spec fn read_spec(&self) -> Result<Seq<char>, IoErrorKind> {
        match self.request {
            Ok(line) => Ok(line@),
            Err(kind) => Err(kind),
        }
    }

    open spec fn write_spec(&self, bytes: Seq<u8>) -> Result<(), IoErrorKind> {
        self.write_outcome
    }

    open spec fn writes(&self) -> Seq<Seq<u8>> {
        Seq::new(self.written@.len(), |i: int| self.written@[i]@)
    }

    fn read_request(&mut self) -> (r: Result<String, IoErrorKind>) {
        match &self.request {
            Ok(line) => Ok(line.clone()),
            Err(kind) => Err(*kind),
        }
    }

    fn write_response(&mut self, response: &[u8]) -> (r: Result<(), IoErrorKind>) {
        let outcome = self.write_outcome;
        match outcome {
            Ok(unit) => {
                self.written.push(slice_to_vec(response));
                proof {
                    assert(self.writes() =~= old(self).writes().push(response@));
                }
                Ok(unit)
            },
            Err(kind) => Err(kind),
        }
    }
}

/// A payload store holding the two fixed pages in memory.
pub struct MemoryStore {
    /// The contents served for `hello.html`.
    pub hello: Vec<u8>,
    /// The contents served for `404.html`.
    pub not_found: Vec<u8>,
}

impl PayloadSource for MemoryStore {
    open spec fn load_spec(&self, name: Seq<char>) -> Result<Seq<u8>, IoErrorKind> {
        if name == "hello.html"@ {
            Ok(self.hello@)
        } else if name == "404.html"@ {
            Ok(self.not_found@)
        } else {
            Err(IoErrorKind::NotFound)
        }
    }

    fn load(&self, name: &str) -> (r: Result<Vec<u8>, IoErrorKind>) {
        let wanted: String = name.to_owned();
        if wanted == "hello.html".to_owned() {
            Ok(slice_to_vec(self.hello.as_slice()))
        } else if wanted == "404.html".to_owned() {
            Ok(slice_to_vec(self.not_found.as_slice()))
        } else {
            Err(IoErrorKind::NotFound)
        }
    }
}

/// A payload store that raises the same error for every load.
pub struct FailingStore {
    /// The error kind every load raises.
    pub kind: IoErrorKind,
}

impl PayloadSource for FailingStore {
    open spec fn load_spec(&self, name: Seq<char>) -> Result<Seq<u8>, IoErrorKind> {
        Err(self.kind)
    }

    fn load(&self, name: &str) -> (r: Result<Vec<u8>, IoErrorKind>) {
        Err(self.kind)
    }
}

/// A clock double that only records the delays requested of it.
pub struct RecordingDelay {
    /// Every delay requested, in seconds, oldest first.
    pub requested: Vec<u64>,
}

impl Delay for RecordingDelay {
    open spec fn waited(&self) -> Seq<u64> {
        self.requested@
    }

    fn wait_secs(&mut self, secs: u64) {
        self.requested.push(secs);
    }
}

} // verus!
