//! Structured logging filter policy for the reference daemon.
//!
//! Filter precedence is deterministic:
//!
//! ```text
//! PORTUNUS_LOG ──present/non-empty──> selected filter
//!      │ absent
//!      ▼
//!   RUST_LOG ────present/non-empty──> selected filter
//!      │ absent
//!      ▼
//!     info
//! ```
//!
//! Filters use `tracing_subscriber::EnvFilter` directive syntax and are validated
//! when configured, so startup never silently disables diagnostics because of an
//! operator typo. Reading the environment and installing the global subscriber
//! belong to the daemon's composition root.

use crate::daemon::text::{trim, trimmed};
use tracing_subscriber::EnvFilter;
use vstd::prelude::*;
use vstd::string::StringSliceAdditionalSpecFns;

verus! {

/// What `EnvFilter::try_new` reports for `directives`: `None` when it accepts
/// them, otherwise the text of its parse error.
pub uninterp spec fn env_filter_rejection(directives: Seq<char>) -> Option<Seq<char>>;

/// Where the comma-separated directive holding byte `j` begins.
pub open spec fn directive_start(bytes: Seq<u8>, j: int) -> int
    decreases j,
{
    if j <= 0 || bytes[j - 1] == 44 {
        j
    } else {
        directive_start(bytes, j - 1)
    }
}

/// Whether a directive starting with `byte` may start with whitespace: ASCII
/// whitespace, or the first byte of every other Unicode whitespace character
/// (`0xC2`, `0xE1`, `0xE2`, `0xE3` in UTF-8).
pub open spec fn may_open_whitespace(byte: u8) -> bool {
    (9 <= byte <= 13) || byte == 32 || byte == 0xC2 || byte == 0xE1 || byte == 0xE2 || byte
        == 0xE3
}

/// Whether a byte is one at which the directive parser cuts its input:
/// `=`, `[`, `]`, `{` or `}`.
pub open spec fn is_cut_byte(byte: u8) -> bool {
    byte == 61 || byte == 91 || byte == 93 || byte == 123 || byte == 125
}

/// Whether bytes `j` and `k` make their directive one the parser cannot take
/// apart safely: the directive may start with whitespace, byte `j` belongs to
/// a multi-byte character and byte `k` is a cut byte.
pub open spec fn unsafe_pair(bytes: Seq<u8>, j: int, k: int) -> bool {
    &&& 0 <= j < bytes.len()
    &&& 0 <= k < bytes.len()
    &&& bytes[j] >= 128
    &&& is_cut_byte(bytes[k])
    &&& directive_start(bytes, j) == directive_start(bytes, k)
    &&& may_open_whitespace(bytes[directive_start(bytes, j)])
}

/// Whether directive text is one the parser cannot take apart safely: some
/// directive may start with whitespace and holds both a non-ASCII byte and a
/// byte it is cut at. The parser walks the positions of each trimmed directive
/// but cuts the untrimmed one there, which can fall inside a multi-byte
/// character; without leading whitespace, non-ASCII text or a cut, no cut
/// falls inside a character.
pub open spec fn unsafe_directives(bytes: Seq<u8>) -> bool {
    exists|j: int, k: int| #[trigger] unsafe_pair(bytes, j, k)
}

/// The reason given for directives refused by [`unsafe_directives`].
pub open spec fn unsafe_directives_reason() -> Seq<char> {
    "a directive that starts with whitespace must be ASCII"@
}

/// A directive starts at or before each of its bytes.
proof fn lemma_directive_start_bounds(bytes: Seq<u8>, j: int)
    requires
        0 <= j,
    ensures
        0 <= directive_start(bytes, j) <= j,
    decreases j,
{
    if j > 0 && bytes[j - 1] != 44 {
        lemma_directive_start_bounds(bytes, j - 1);
    }
}

/// Decides [`unsafe_directives`] for a string's bytes.
fn has_unsafe_directives(text: &str) -> (found: bool)
    ensures
        found == unsafe_directives(text.spec_bytes()),
{
    let bytes = text.as_bytes();
    let ghost b = bytes@;
    let mut start: usize = 0;
    let mut non_ascii = false;
    let mut cut = false;
    let mut found = false;
    let ghost mut non_ascii_at: int = 0;
    let ghost mut cut_at: int = 0;
    let ghost mut found_at: (int, int) = (0, 0);
    let mut i: usize = 0;
    while i < bytes.len()
        invariant
            i <= b.len(),
            b == bytes@,
            b == text.spec_bytes(),
            start <= i,
            i > 0 ==> start < i,
            forall|j: int| start <= j < i ==> #[trigger] directive_start(b, j) == start,
            forall|j: int| 0 <= j < start ==> #[trigger] directive_start(b, j) < start,
            non_ascii ==> start <= non_ascii_at < i && b[non_ascii_at] >= 128,
            !non_ascii ==> forall|j: int| start <= j < i ==> #[trigger] b[j] < 128,
            cut ==> start <= cut_at < i && is_cut_byte(b[cut_at]),
            !cut ==> forall|k: int| start <= k < i ==> !is_cut_byte(#[trigger] b[k]),
            found ==> unsafe_pair(b, found_at.0, found_at.1),
            !found ==> forall|j: int, k: int|
                0 <= j < i && 0 <= k < i ==> !#[trigger] unsafe_pair(b, j, k),
        decreases b.len() - i,
    {
        if i > 0 && bytes[i - 1] == 44 {
            proof {
                assert forall|j: int| 0 <= j < i implies #[trigger] directive_start(b, j) < i by {
                    lemma_directive_start_bounds(b, j);
                }
            }
            start = i;
            non_ascii = false;
            cut = false;
        }
        proof {
            if i > 0 && b[i - 1] != 44 {
                assert(directive_start(b, i - 1) == start);
            }
            assert(directive_start(b, i as int) == start);
        }
        let byte = bytes[i];
        if byte >= 128 {
            non_ascii = true;
            proof {
                non_ascii_at = i as int;
            }
        }
        if byte == 61 || byte == 91 || byte == 93 || byte == 123 || byte == 125 {
            cut = true;
            proof {
                cut_at = i as int;
            }
        }
        let opening = bytes[start];
        if !found && non_ascii && cut && ((9 <= opening && opening <= 13) || opening == 32
            || opening == 0xC2 || opening == 0xE1 || opening == 0xE2 || opening == 0xE3) {
            found = true;
            proof {
                found_at = (non_ascii_at, cut_at);
                assert(unsafe_pair(b, non_ascii_at, cut_at));
            }
        }
        proof {
            if !found {
                assert forall|j: int, k: int| 0 <= j < i + 1 && 0 <= k < i + 1 implies !#[trigger] unsafe_pair(b, j, k) by {
                    if unsafe_pair(b, j, k) && (j == i || k == i) {
                        assert(directive_start(b, j) == start);
                        assert(directive_start(b, k) == start);
                        if j < start {
                            assert(directive_start(b, j) < start);
                        }
                        if k < start {
                            assert(directive_start(b, k) < start);
                        }
                        assert(b[j] >= 128);
                        assert(is_cut_byte(b[k]));
                    }
                }
            }
        }
        i = i + 1;
    }
    found
}

/// Calls `tracing_subscriber::EnvFilter::try_new` and reports `None` when the
/// directives parse, otherwise the parse error's display text. The empty string
/// parses; which other directives parse is left to the named result. The call
/// can panic on [`unsafe_directives`], which are therefore excluded.
#[verifier::external_body]
fn filter_rejection(directives: &str) -> (rejection: Option<String>)
    requires
        !unsafe_directives(directives.spec_bytes()),
    ensures
        rejection matches Some(reason) ==> env_filter_rejection(directives@) == Some(reason@),
        rejection is None ==> env_filter_rejection(directives@) is None,
        directives@.len() == 0 ==> rejection is None,
{
    match EnvFilter::try_new(directives) {
        Ok(_) => None,
        Err(error) => Some(error.to_string()),
    }
}

/// Validated process-wide logging configuration.
#[derive(Debug, Clone, PartialEq, Eq)]
pub struct LoggingConfig {
    filter: String,
}

/// Startup failures produced by logging configuration or global installation.
#[derive(Debug, Clone, PartialEq, Eq)]
pub enum LoggingError {
    InvalidFilter { filter: String, reason: String },
    AlreadyInitialized { reason: String },
}

/// The filter source that wins: the first present source whose trimmed text is
/// non-empty, trimmed, or `info` when there is none.
pub open spec fn selected_filter(portunus_log: Option<Seq<char>>, rust_log: Option<Seq<char>>) -> Seq<
    char,
> {
    if portunus_log is Some && trimmed(portunus_log->0).len() > 0 {
        trimmed(portunus_log->0)
    } else if rust_log is Some && trimmed(rust_log->0).len() > 0 {
        trimmed(rust_log->0)
    } else {
        "info"@
    }
}

/// The text of an optional source.
pub open spec fn source_text(source: Option<&str>) -> Option<Seq<char>> {
    match source {
        Some(text) => Some(text@),
        None => None,
    }
}

/// Whether `config` is what validating `filter` yields.
pub open spec fn validated(config: Result<LoggingConfig, LoggingError>, filter: Seq<char>) -> bool {
    if unsafe_directives(vstd::utf8::encode_utf8(filter)) {
        config matches Err(LoggingError::InvalidFilter { filter: f, reason: r }) && f@ == filter
            && r@ == unsafe_directives_reason()
    } else {
        match env_filter_rejection(filter) {
        None => config matches Ok(c) && c.spec_filter() == filter,
        Some(reason) => config matches Err(LoggingError::InvalidFilter { filter: f, reason: r })
            && f@ == filter && r@ == reason,
        }
    }
}

impl LoggingConfig {
    /// The exact effective filter directive.
    pub closed spec fn spec_filter(self) -> Seq<char> {
        self.filter@
    }

    /// Validates one complete filter directive, keeping it verbatim; a rejected
    /// directive is reported with the parser's reason. Directives the parser
    /// cannot take apart safely are rejected before it sees them.
    pub fn new(filter: &str) -> (config: Result<Self, LoggingError>)
        ensures
            validated(config, filter@),
    {
        if has_unsafe_directives(filter) {
            let reason = "a directive that starts with whitespace must be ASCII";
            proof {
                reveal_strlit("a directive that starts with whitespace must be ASCII");
            }
            return Err(LoggingError::InvalidFilter { filter: filter.to_owned(), reason: reason.to_owned() });
        }
        match filter_rejection(filter) {
            None => Ok(LoggingConfig { filter: filter.to_owned() }),
            Some(reason) => Err(LoggingError::InvalidFilter { filter: filter.to_owned(), reason }),
        }
    }

    /// Resolves filter sources without reading ambient process state: the
    /// first non-empty trimmed source of `PORTUNUS_LOG` then `RUST_LOG`, else
    /// `info`, validated as by [`LoggingConfig::new`].
    pub fn from_sources(portunus_log: Option<&str>, rust_log: Option<&str>) -> (config: Result<
        Self,
        LoggingError,
    >)
        ensures
            validated(config, selected_filter(source_text(portunus_log), source_text(rust_log))),
    {
        if let Some(text) = portunus_log {
            let value = trim(text);
            if !value.is_empty() {
                return Self::new(value);
            }
        }
        if let Some(text) = rust_log {
            let value = trim(text);
            if !value.is_empty() {
                return Self::new(value);
            }
        }
        let info = "info";
        proof {
            reveal_strlit("info");
        }
        Self::new(info)
    }

    /// Returns the exact effective filter directive.
    pub fn filter(&self) -> (filter: &str)
        ensures
            filter@ == self.spec_filter(),
    {
        self.filter.as_str()
    }
}

} // verus!

verus! {

/// Filter precedence: a `PORTUNUS_LOG` with text (once trimmed) wins; an
/// absent or blank `PORTUNUS_LOG` counts as unset, and then a `RUST_LOG` with
/// text is used, trimmed; with neither the filter is `info`. Either source
/// alone is used the same way, whichever of the two it is.
pub proof fn lemma_filter_precedence(portunus_log: Option<Seq<char>>, rust_log: Option<Seq<char>>)
    ensures
        portunus_log matches Some(p) ==> (trimmed(p).len() > 0 ==> selected_filter(
            portunus_log,
            rust_log,
        ) == trimmed(p)),
        portunus_log matches Some(p) ==> (trimmed(p).len() == 0 ==> selected_filter(
            portunus_log,
            rust_log,
        ) == selected_filter(None, rust_log)),
        rust_log matches Some(r) ==> (trimmed(r).len() > 0 ==> selected_filter(None, rust_log)
            == trimmed(r)),
        rust_log matches Some(r) ==> (trimmed(r).len() == 0 ==> selected_filter(None, rust_log)
            == "info"@),
        selected_filter(None, None) == "info"@,
        selected_filter(None, rust_log) == selected_filter(rust_log, None),
{
}

} // verus!
