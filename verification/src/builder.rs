//! Construction and validation of a [`StatsdRecorder`].
//!
//! The builder collects the remote host and port, sizing for the delivery
//! layer, the default histogram representation, an optional name prefix and
//! default tags. `build` validates the host and port and assembles the
//! recorder; creating the actual transport from the returned parameters is
//! the caller's concern and happens only after validation has passed.

use vstd::prelude::*;

use crate::recorder::StatsdRecorder;
use crate::types::{HistogramType, Label};

verus! {

/// The delivery parameters a transport needs. They are opaque to the mapping
/// engine and are handed through unchanged.
pub struct TransportConfig {
    /// The remote host to deliver to.
    pub host: String,
    /// The remote port; never zero once validated.
    pub port: u16,
    /// How many submissions the delivery queue may hold before it reports
    /// an error instead of growing.
    pub queue_size: usize,
    /// How many bytes are buffered before a flush to the socket.
    pub buffer_size: usize,
    /// The local address the socket binds to.
    pub client_udp_host: String,
}

/// The configuration errors that construction can report. Construction is
/// the only fallible step: recording events never errors.
#[derive(Clone, Copy, Debug, PartialEq, Eq, Structural)]
pub enum StatsdError {
    /// The caller supplied an empty (or all-whitespace) host name.
    InvalidHost,
    /// The caller asked for port zero. Elsewhere that means "pick a port for
    /// me"; here it is not supported.
    InvalidPortZero,
}

impl StatsdError {
    /// A human-readable description of the error.
    pub fn message(&self) -> (r: &'static str)
        ensures
            *self == StatsdError::InvalidHost ==> r@ == "Empty hostname is not allowed"@,
            *self == StatsdError::InvalidPortZero ==> r@ == "Port number must be nonzero"@,
    {
        match self {
            StatsdError::InvalidHost => "Empty hostname is not allowed",
            StatsdError::InvalidPortZero => "Port number must be nonzero",
        }
    }
}

/// Whether a character counts as white space (the Unicode white-space set,
/// as host names are trimmed before the emptiness check).
pub open spec fn is_space_char(c: char) -> bool {
    ||| c == ' '
    ||| c == '\t'
    ||| c == '\n'
    ||| c == '\r'
    ||| c == '\u{0b}'
    ||| c == '\u{0c}'
    ||| c == '\u{85}'
    ||| c == '\u{a0}'
    ||| c == '\u{1680}'
    ||| c == '\u{2000}'
    ||| c == '\u{2001}'
    ||| c == '\u{2002}'
    ||| c == '\u{2003}'
    ||| c == '\u{2004}'
    ||| c == '\u{2005}'
    ||| c == '\u{2006}'
    ||| c == '\u{2007}'
    ||| c == '\u{2008}'
    ||| c == '\u{2009}'
    ||| c == '\u{200a}'
    ||| c == '\u{2028}'
    ||| c == '\u{2029}'
    ||| c == '\u{202f}'
    ||| c == '\u{205f}'
    ||| c == '\u{3000}'
}

/// Whether a host string is blank: empty, or white space only.
pub open spec fn host_blank(s: Seq<char>) -> bool {
    forall|i: int| 0 <= i < s.len() ==> is_space_char(#[trigger] s[i])
}

/// Whether one character is white space.
fn is_space(c: char) -> (r: bool)
    ensures
        r == is_space_char(c),
{
    c == ' ' || c == '\t' || c == '\n' || c == '\r' || c == '\u{0b}' || c == '\u{0c}' || c
        == '\u{85}' || c == '\u{a0}' || c == '\u{1680}' || c == '\u{2000}' || c == '\u{2001}' || c
        == '\u{2002}' || c == '\u{2003}' || c == '\u{2004}' || c == '\u{2005}' || c == '\u{2006}'
        || c == '\u{2007}' || c == '\u{2008}' || c == '\u{2009}' || c == '\u{200a}' || c
        == '\u{2028}' || c == '\u{2029}' || c == '\u{202f}' || c == '\u{205f}' || c == '\u{3000}'
}

/// Whether the string is empty or white space only.
fn str_is_blank(s: &str) -> (r: bool)
    ensures
        r == host_blank(s@),
{
    let n = s.unicode_len();
    let mut i: usize = 0;
    while i < n
        invariant
            i <= n,
            n == s@.len(),
            forall|j: int| 0 <= j < i ==> is_space_char(#[trigger] s@[j]),
        decreases n - i,
    {
        if !is_space(s.get_char(i)) {
            return false;
        }
        i = i + 1;
    }
    true
}

/// Collects the configuration for a [`StatsdRecorder`] and validates it on
/// `build`.
pub struct StatsdBuilder {
    /// The remote host; validated non-blank by `build`.
    pub host: String,
    /// The remote port; validated nonzero by `build`.
    pub port: u16,
    /// The delivery queue capacity; 5000 when not set.
    pub queue_size: Option<usize>,
    /// The socket buffer size in bytes; 256 when not set.
    pub buffer_size: Option<usize>,
    /// The representation for histogram events without a hint label.
    pub default_histogram: HistogramType,
    /// The local address the socket binds to.
    pub client_udp_host: String,
    /// Tags attached to every submission.
    pub default_tags: Vec<Label>,
}

impl StatsdBuilder {
    /// Starts a builder for the given remote host and port. Host and port
    /// are checked by `build`, not here.
    pub fn from(host: &str, port: u16) -> (r: StatsdBuilder)
        ensures
            r.host@ == host@,
            r.port == port,
            r.queue_size is None,
            r.buffer_size is None,
            r.default_histogram == HistogramType::Histogram,
            r.client_udp_host@ == "0.0.0.0"@,
            r.default_tags@.len() == 0,
    {
        StatsdBuilder {
            host: String::from_str(host),
            port,
            queue_size: None,
            buffer_size: None,
            default_histogram: HistogramType::Histogram,
            client_udp_host: String::from_str("0.0.0.0"),
            default_tags: Vec::new(),
        }
    }

    /// Sets how many submissions the delivery queue may hold; once full, the
    /// transport reports an error rather than growing without bound.
    pub fn with_queue_size(self, queue_size: usize) -> (r: Self)
        ensures
            r == (StatsdBuilder { queue_size: Some(queue_size), ..self }),
    {
        let mut b = self;
        b.queue_size = Some(queue_size);
        b
    }

    /// Sets how many bytes the transport buffers before flushing to the
    /// socket.
    pub fn with_buffer_size(self, buffer_size: usize) -> (r: Self)
        ensures
            r == (StatsdBuilder { buffer_size: Some(buffer_size), ..self }),
    {
        let mut b = self;
        b.buffer_size = Some(buffer_size);
        b
    }

    /// Sets the local address the socket binds to. The default is `0.0.0.0`;
    /// binding to `127.0.0.1` can be a trap in containerized environments
    /// that blackhole loopback traffic.
    pub fn with_client_udp_host(self, client_udp_host: &str) -> (r: Self)
        ensures
            r.client_udp_host@ == client_udp_host@,
            r.host == self.host,
            r.port == self.port,
            r.queue_size == self.queue_size,
            r.buffer_size == self.buffer_size,
            r.default_histogram == self.default_histogram,
            r.default_tags == self.default_tags,
    {
        let mut b = self;
        b.client_udp_host = String::from_str(client_udp_host);
        b
    }

    /// Emits histogram events as distributions unless a per-event hint says
    /// otherwise.
    pub fn histogram_is_distribution(self) -> (r: Self)
        ensures
            r == (StatsdBuilder { default_histogram: HistogramType::Distribution, ..self }),
    {
        let mut b = self;
        b.default_histogram = HistogramType::Distribution;
        b
    }

    /// Emits histogram events as timers unless a per-event hint says
    /// otherwise.
    pub fn histogram_is_timer(self) -> (r: Self)
        ensures
            r == (StatsdBuilder { default_histogram: HistogramType::Timer, ..self }),
    {
        let mut b = self;
        b.default_histogram = HistogramType::Timer;
        b
    }

    /// Appends a tag that every submission of the built recorder will carry.
    pub fn with_default_tag(self, key: &str, value: &str) -> (r: Self)
        ensures
            r.default_tags@.len() == self.default_tags@.len() + 1,
            r.default_tags@.drop_last() == self.default_tags@,
            r.default_tags@.last().key@ == key@,
            r.default_tags@.last().value@ == value@,
            r.host == self.host,
            r.port == self.port,
            r.queue_size == self.queue_size,
            r.buffer_size == self.buffer_size,
            r.default_histogram == self.default_histogram,
            r.client_udp_host == self.client_udp_host,
    {
        let mut b = self;
        b.default_tags.push(Label::new(key, value));
        proof {
            assert(b.default_tags@.drop_last() =~= self.default_tags@);
        }
        b
    }

    /// Checks the configuration: the host must not be blank and the port
    /// must be nonzero. Exactly the checks `build` makes.
    pub fn is_valid(&self) -> (r: Result<(), StatsdError>)
        ensures
            host_blank(self.host@) ==> r == Result::<(), StatsdError>::Err(
                StatsdError::InvalidHost,
            ),
            !host_blank(self.host@) && self.port == 0 ==> r == Result::<(), StatsdError>::Err(
                StatsdError::InvalidPortZero,
            ),
            !host_blank(self.host@) && self.port != 0 ==> r is Ok,
    {
        if str_is_blank(self.host.as_str()) {
            return Err(StatsdError::InvalidHost);
        }
        if self.port == 0 {
            return Err(StatsdError::InvalidPortZero);
        }
        Ok(())
    }

    /// Validates the configuration and assembles the recorder, applying the
    /// optional metric name prefix and the documented defaults (queue 5000,
    /// buffer 256 bytes). No transport exists until the caller creates one
    /// from the returned parameters, so a rejected configuration creates
    /// nothing.
    pub fn build(self, prefix: Option<&str>) -> (r: Result<StatsdRecorder, StatsdError>)
        ensures
            host_blank(self.host@) ==> r == Result::<StatsdRecorder, StatsdError>::Err(
                StatsdError::InvalidHost,
            ),
            !host_blank(self.host@) && self.port == 0 ==> r == Result::<
                StatsdRecorder,
                StatsdError,
            >::Err(StatsdError::InvalidPortZero),
            !host_blank(self.host@) && self.port != 0 ==> (r matches Ok(rec) && {
                &&& rec.prefix@ == (match prefix {
                    Some(p) => p@,
                    None => Seq::<char>::empty(),
                })
                &&& rec.default_histogram == self.default_histogram
                &&& rec.default_tags@ == self.default_tags@
                &&& rec.transport.host@ == self.host@
                &&& rec.transport.port == self.port
                &&& rec.transport.queue_size == (match self.queue_size {
                    Some(q) => q,
                    None => 5000usize,
                })
                &&& rec.transport.buffer_size == (match self.buffer_size {
                    Some(b) => b,
                    None => 256usize,
                })
                &&& rec.transport.client_udp_host@ == self.client_udp_host@
            }),
    {
        match self.is_valid() {
            Err(e) => {
                return Err(e);
            },
            Ok(()) => {},
        }
        let prefix_string = match prefix {
            Some(p) => String::from_str(p),
            None => String::new(),
        };
        let queue_size = match self.queue_size {
            Some(q) => q,
            None => 5000,
        };
        let buffer_size = match self.buffer_size {
            Some(b) => b,
            None => 256,
        };
        let transport = TransportConfig {
            host: self.host,
            port: self.port,
            queue_size,
            buffer_size,
            client_udp_host: self.client_udp_host,
        };
        Ok(StatsdRecorder::new(prefix_string, self.default_histogram, self.default_tags, transport))
    }
}

impl Default for StatsdBuilder {
    /// The documented defaults: the local statsd agent on port 8125, a queue
    /// of 5000 submissions, a 256-byte buffer, plain histograms, no tags.
    fn default() -> (r: Self)
        ensures
            r.host@ == "127.0.0.1"@,
            r.port == 8125,
            r.queue_size == Some(5000usize),
            r.buffer_size == Some(256usize),
            r.default_histogram == HistogramType::Histogram,
            r.client_udp_host@ == "0.0.0.0"@,
            r.default_tags@.len() == 0,
    {
        StatsdBuilder {
            host: String::from_str("127.0.0.1"),
            port: 8125,
            queue_size: Some(5000),
            buffer_size: Some(256),
            default_histogram: HistogramType::Histogram,
            client_udp_host: String::from_str("0.0.0.0"),
            default_tags: Vec::new(),
        }
    }
}

} // verus!
