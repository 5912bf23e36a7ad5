//! Messages that flow between supervisor and workers.

use vstd::prelude::*;

use crate::hex_text::{hex_is_digits, hex_lower, is_hex_digit, write_hex};
use crate::telemetry::config::{ProcessConfig, SystemConfig};
use crate::text::{chars_of, decimal, decimal_text, split, split_on, views};

verus! {

/// Whether a character is a letter or a number in the sense of `char::is_alphanumeric`.
pub uninterp spec fn alphanumeric(c: char) -> bool;

/// An ASCII digit.
pub open spec fn ascii_digit(c: char) -> bool {
    '0' <= c && c <= '9'
}

/// An ASCII letter.
pub open spec fn ascii_letter(c: char) -> bool {
    ('a' <= c && c <= 'z') || ('A' <= c && c <= 'Z')
}

/// `char::is_alphanumeric` depends on the character alone. Within ASCII it holds of the letters
/// and the digits; beyond ASCII it follows the Unicode tables and only has a name here.
pub assume_specification[ char::is_alphanumeric ](c: char) -> (out: bool)
    ensures
        out == alphanumeric(c),
        (c as u32) < 128 ==> out == (ascii_digit(c) || ascii_letter(c)),
;

/// Whether a character is a letter in the sense of `char::is_alphabetic`.
pub uninterp spec fn alphabetic(c: char) -> bool;

/// `char::is_alphabetic` depends on the character alone. Within ASCII it holds of the letters;
/// beyond ASCII it follows the Unicode tables and only has a name here.
pub assume_specification[ char::is_alphabetic ](c: char) -> (out: bool)
    ensures
        out == alphabetic(c),
        (c as u32) < 128 ==> out == ascii_letter(c),
;

/// The event loop policy used when none is given.
pub fn default_loop_policy() -> (out: String)
    ensures
        out@ == "uvloop"@,
{
    String::from_str("uvloop")
}

/// The drain limit in seconds used when none is given.
pub fn default_drain_timeout_secs() -> (out: u64)
    ensures
        out == 5,
{
    5
}

/// What is wrong with a Python dotted path.
#[derive(Debug)]
pub enum DottedPathError {
    /// The path was empty.
    Empty {
        /// What kind of path it was.
        context: &'static str,
    },
    /// A segment between dots was empty.
    EmptySegment {
        /// What kind of path it was.
        context: &'static str,
        /// The whole path.
        value: String,
    },
    /// A segment is not a Python identifier.
    InvalidSegment {
        /// What kind of path it was.
        context: &'static str,
        /// The segment.
        segment: String,
    },
}

impl DottedPathError {
    /// The text shown to the user.
    pub open spec fn shown(self) -> Seq<char> {
        match self {
            DottedPathError::Empty { context } => context@ + " must not be empty"@,
            DottedPathError::EmptySegment { context, value } => context@ + " has empty segment: "@
                + value@,
            DottedPathError::InvalidSegment { context, segment } => "invalid "@ + context@
                + " segment: "@ + segment@,
        }
    }

    /// Writes the text shown to the user.
    pub fn message(&self) -> (out: String)
        ensures
            out@ == self.shown(),
    {
        match self {
            DottedPathError::Empty { context } => {
                let mut s = String::from_str(context);
                s.append(" must not be empty");
                s
            },
            DottedPathError::EmptySegment { context, value } => {
                let mut s = String::from_str(context);
                s.append(" has empty segment: ");
                s.append(value);
                s
            },
            DottedPathError::InvalidSegment { context, segment } => {
                let mut s = String::from_str("invalid ");
                s.append(context);
                s.append(" segment: ");
                s.append(segment);
                s
            },
        }
    }
}

/// A segment of a dotted path: a letter or an underscore in front, and made of letters, numbers
/// and underscores. `letter` says whether the first character is a letter, and `word` which
/// characters are letters or numbers.
pub open spec fn segment_shape(s: Seq<char>, letter: bool, word: Seq<bool>) -> bool {
    &&& s.len() > 0
    &&& letter || s[0] == '_'
    &&& forall|i: int| 0 <= i < s.len() ==> word[i] || #[trigger] s[i] == '_'
}

/// The characters of `s` that are letters or numbers.
pub open spec fn word_flags(s: Seq<char>) -> Seq<bool> {
    Seq::new(s.len(), |i: int| alphanumeric(s[i]))
}

/// A valid segment of a dotted path, shaped like a Python identifier. Beyond ASCII, letters and
/// numbers are those of the Unicode tables behind `char`.
pub open spec fn valid_segment(s: Seq<char>) -> bool {
    segment_shape(s, alphabetic(s[0]), word_flags(s))
}

/// Decides the shape of a segment, given whether it begins with a letter and which of its
/// characters are letters or numbers.
pub fn has_segment_shape(s: &[char], letter: bool, word: &[bool]) -> (out: bool)
    requires
        s@.len() == word@.len(),
    ensures
        out == segment_shape(s@, letter, word@),
{
    if s.len() == 0 {
        return false;
    }
    if !(letter || s[0] == '_') {
        return false;
    }
    for i in 0..s.len()
        invariant
            s@.len() == word@.len(),
            s@.len() > 0,
            letter || s@[0] == '_',
            forall|j: int| 0 <= j < i ==> word@[j] || #[trigger] s@[j] == '_',
    {
        if !(word[i] || s[i] == '_') {
            assert(s@[i as int] != '_');
            return false;
        }
    }
    true
}

/// Decides whether `segment` is a valid segment of a dotted path.
pub fn is_valid_segment(segment: &str) -> (out: bool)
    ensures
        out == valid_segment(segment@),
{
    let s = chars_of(segment);
    let mut word: Vec<bool> = Vec::new();
    for i in 0..s.len()
        invariant
            s@ == segment@,
            word@ == word_flags(segment@).take(i as int),
    {
        word.push(s[i].is_alphanumeric());
        assert(word_flags(segment@).take(i + 1) =~= word_flags(segment@).take(i as int).push(
            alphanumeric(s@[i as int]),
        ));
    }
    assert(word@ =~= word_flags(segment@));
    let letter = s.len() > 0 && s[0].is_alphabetic();
    has_segment_shape(&s, letter, &word)
}

/// The segment at `i` is the first that is not valid.
pub open spec fn first_invalid(segments: Seq<Seq<char>>, i: int) -> bool {
    &&& 0 <= i < segments.len()
    &&& !valid_segment(segments[i])
    &&& forall|j: int| 0 <= j < i ==> valid_segment(#[trigger] segments[j])
}

/// A path of valid segments, with a dot between neighbours.
pub open spec fn valid_dotted_path(path: Seq<char>) -> bool {
    let segments = split_on(path, '.');
    &&& path.len() > 0
    &&& forall|i: int| 0 <= i < segments.len() ==> valid_segment(#[trigger] segments[i])
}

/// The error says what is wrong with a path: it is empty, or its first segment that is not valid is
/// empty or has the wrong characters.
pub open spec fn explains(e: DottedPathError, path: Seq<char>, what: Seq<char>) -> bool {
    let segments = split_on(path, '.');
    match e {
        DottedPathError::Empty { context } => path.len() == 0 && context@ == what,
        DottedPathError::EmptySegment { context, value } => {
            &&& path.len() > 0
            &&& context@ == what
            &&& value@ == path
            &&& exists|i: int| #[trigger] first_invalid(segments, i) && segments[i].len() == 0
        },
        DottedPathError::InvalidSegment { context, segment } => {
            &&& path.len() > 0
            &&& context@ == what
            &&& segment@.len() > 0
            &&& exists|i: int| #[trigger] first_invalid(segments, i) && segments[i] == segment@
        },
    }
}

/// Validates a Python dotted path. The first segment that is not valid decides the error.
pub fn validate_dotted_path(path: &str, context: &'static str) -> (out: Result<
    (),
    DottedPathError,
>)
    ensures
        match out {
            Ok(_) => valid_dotted_path(path@),
            Err(e) => explains(e, path@, context@),
        },
{
    if path.is_empty() {
        return Err(DottedPathError::Empty { context });
    }
    let segments = split(path, '.');
    for k in 0..segments.len()
        invariant
            path@.len() > 0,
            views(segments@) == split_on(path@, '.'),
            forall|j: int| 0 <= j < k ==> valid_segment(#[trigger] split_on(path@, '.')[j]),
    {
        assert(views(segments@)[k as int] == segments@[k as int]@);
        if segments[k].as_str().is_empty() {
            assert(first_invalid(split_on(path@, '.'), k as int));
            return Err(DottedPathError::EmptySegment { context, value: path.to_owned() });
        }
        if !is_valid_segment(&segments[k]) {
            assert(first_invalid(split_on(path@, '.'), k as int));
            return Err(
                DottedPathError::InvalidSegment { context, segment: segments[k].clone() },
            );
        }
    }
    Ok(())
}

/// Python module path such as `backend.app`; always a valid dotted path.
#[derive(Debug)]
pub struct AppModule(String);

impl View for AppModule {
    type V = Seq<char>;

    closed spec fn view(&self) -> Seq<char> {
        self.0@
    }
}

impl AppModule {
    #[verifier::type_invariant]
    spec fn is_dotted_path(self) -> bool {
        valid_dotted_path(self.0@)
    }

    /// Creates a module path if every segment of `module` is valid.
    pub fn new(module: &str) -> (out: Result<AppModule, DottedPathError>)
        ensures
            out is Ok <==> valid_dotted_path(module@),
            match out {
                Ok(m) => m@ == module@,
                Err(e) => explains(e, module@, "app module"@),
            },
    {
        match validate_dotted_path(module, "app module") {
            Ok(_) => Ok(AppModule(module.to_owned())),
            Err(e) => Err(e),
        }
    }

    /// The path as text.
    pub fn as_str(&self) -> (out: &str)
        ensures
            out@ == self@,
            valid_dotted_path(out@),
    {
        proof {
            use_type_invariant(self);
        }
        self.0.as_str()
    }
}

impl Clone for AppModule {
    fn clone(&self) -> (out: Self)
        ensures
            out@ == self@,
    {
        proof {
            use_type_invariant(self);
        }
        AppModule(self.0.clone())
    }
}

/// One-time secret that a worker shows to its supervisor.
pub struct Nonce(String);

impl View for Nonce {
    type V = Seq<char>;

    closed spec fn view(&self) -> Seq<char> {
        self.0@
    }
}

/// `rand::thread_rng().gen::<[u8; 32]>()`: thirty-two bytes from the thread's random
/// generator. Nothing is claimed of their values.
#[verifier::external_body]
fn random_bytes() -> [u8; 32] {
    rand::Rng::gen(&mut rand::thread_rng())
}

/// Whether differences collected so far, with those of `x` and `y`, are still none.
proof fn no_difference(acc: u8, x: u8, y: u8)
    ensures
        (acc | (x ^ y)) == 0 <==> (acc == 0 && x == y),
{
    assert((acc | (x ^ y)) == 0 <==> (acc == 0 && x == y)) by (bit_vector);
}

impl Nonce {
    /// A nonce of thirty-two random bytes in hexadecimal.
    pub fn generate() -> (out: Nonce)
        ensures
            exists|bytes: Seq<u8>| bytes.len() == 32 && out@ == #[trigger] hex_lower(bytes),
            out@.len() == 64,
            forall|i: int| 0 <= i < 64 ==> is_hex_digit(#[trigger] out@[i]),
    {
        let bytes = random_bytes();
        let out = Nonce::of_bytes(&bytes);
        proof {
            hex_is_digits(bytes@);
        }
        out
    }

    /// The nonce that `bytes` make.
    pub fn of_bytes(bytes: &[u8; 32]) -> (out: Nonce)
        ensures
            out@ == hex_lower(bytes@),
    {
        Nonce(write_hex(bytes.as_slice()))
    }

    /// A nonce received as text.
    pub fn from_string(s: String) -> (out: Nonce)
        ensures
            out@ == s@,
    {
        Nonce(s)
    }

    /// The nonce as text.
    pub fn as_str(&self) -> (out: &str)
        ensures
            out@ == self@,
    {
        self.0.as_str()
    }

    /// Whether two nonces are equal. Every pair of bytes is looked at, whatever the bytes
    /// before it were, so that the time taken does not tell where two nonces differ.
    pub fn verify(&self, other: &Nonce) -> (out: bool)
        ensures
            out == (self@ == other@),
    {
        broadcast use vstd::utf8::encode_utf8_decode_utf8;

        let a = self.0.as_str().as_bytes();
        let b = other.0.as_str().as_bytes();
        assert(vstd::utf8::decode_utf8(a@) == self@);
        assert(vstd::utf8::decode_utf8(b@) == other@);
        if a.len() != b.len() {
            return false;
        }
        let mut acc: u8 = 0;
        assert(a@.take(0) =~= b@.take(0));
        for i in 0..a.len()
            invariant
                a@.len() == b@.len(),
                acc == 0 <==> a@.take(i as int) == b@.take(i as int),
        {
            proof {
                no_difference(acc, a@[i as int], b@[i as int]);
                let x = a@.take(i + 1);
                let y = b@.take(i + 1);
                assert(x =~= a@.take(i as int).push(a@[i as int]));
                assert(y =~= b@.take(i as int).push(b@[i as int]));
                if x == y {
                    assert(x.drop_last() =~= a@.take(i as int));
                    assert(y.drop_last() =~= b@.take(i as int));
                    assert(x.last() == y.last());
                }
            }
            acc = acc | (a[i] ^ b[i]);
        }
        assert(a@.take(a@.len() as int) =~= a@);
        assert(b@.take(b@.len() as int) =~= b@);
        acc == 0
    }

    /// The text that stands for a nonce in logs; it does not depend on the nonce.
    pub fn debug_text(&self) -> (out: String)
        ensures
            out@ == "Nonce(\"[REDACTED]\")"@,
    {
        String::from_str("Nonce(\"[REDACTED]\")")
    }
}

impl Clone for Nonce {
    fn clone(&self) -> (out: Self)
        ensures
            out@ == self@,
    {
        Nonce(self.0.clone())
    }
}

/// Errors on the channel; causes outside the library are kept as text.
#[derive(Debug)]
pub enum IpcError {
    /// The transport failed.
    Io(String),
    /// A message could not be written as bytes.
    Encode(String),
    /// Bytes received are no message.
    Decode(String),
    /// A message has too many bytes.
    MessageTooLarge(usize),
}

impl IpcError {
    /// The text shown to the user.
    pub open spec fn shown(self) -> Seq<char> {
        match self {
            IpcError::Io(e) => "ipc io: "@ + e@,
            IpcError::Encode(e) => "ipc encode: "@ + e@,
            IpcError::Decode(e) => "ipc decode: "@ + e@,
            IpcError::MessageTooLarge(n) => "ipc message too large: "@ + decimal(n as nat)
                + " bytes"@,
        }
    }

    /// Writes the text shown to the user.
    pub fn message(&self) -> (out: String)
        ensures
            out@ == self.shown(),
    {
        match self {
            IpcError::Io(e) => String::from_str("ipc io: ").concat(e),
            IpcError::Encode(e) => String::from_str("ipc encode: ").concat(e),
            IpcError::Decode(e) => String::from_str("ipc decode: ").concat(e),
            IpcError::MessageTooLarge(n) => {
                let mut s = String::from_str("ipc message too large: ");
                s.append(&decimal_text(*n as u64));
                s.append(" bytes");
                s
            },
        }
    }
}

/// Errors while a worker is set up.
#[derive(Debug)]
pub enum BootstrapError {
    /// The socket could not be reached.
    Connect {
        /// Socket path.
        path: String,
        /// Why.
        source: String,
    },
    /// The first message could not be received.
    Receive(IpcError),
    /// The first message was something else; its text is kept.
    UnexpectedMessage(String),
    /// The environment holds no nonce.
    MissingNonce,
    /// The nonce of the environment differs from that of the message.
    NonceMismatch,
}

impl BootstrapError {
    /// The text shown to the user.
    pub open spec fn shown(self) -> Seq<char> {
        match self {
            BootstrapError::Connect { path, source } => "failed to connect to IPC socket at '"@
                + path@ + "': "@ + source@,
            BootstrapError::Receive(e) => "failed to receive bootstrap message: "@ + e.shown(),
            BootstrapError::UnexpectedMessage(m) =>
                "first IPC message was not Bootstrap, got: "@ + m@,
            BootstrapError::MissingNonce =>
                "APX_WORKER_NONCE env var not set — not spawned by supervisor?"@,
            BootstrapError::NonceMismatch =>
                "nonce mismatch — rejecting bootstrap (possible rogue process)"@,
        }
    }

    /// Writes the text shown to the user.
    pub fn message(&self) -> (out: String)
        ensures
            out@ == self.shown(),
    {
        match self {
            BootstrapError::Connect { path, source } => {
                let mut s = String::from_str("failed to connect to IPC socket at '");
                s.append(path);
                s.append("': ");
                s.append(source);
                s
            },
            BootstrapError::Receive(e) => String::from_str(
                "failed to receive bootstrap message: ",
            ).concat(&e.message()),
            BootstrapError::UnexpectedMessage(m) => String::from_str(
                "first IPC message was not Bootstrap, got: ",
            ).concat(m),
            BootstrapError::MissingNonce => String::from_str(
                "APX_WORKER_NONCE env var not set — not spawned by supervisor?",
            ),
            BootstrapError::NonceMismatch => String::from_str(
                "nonce mismatch — rejecting bootstrap (possible rogue process)",
            ),
        }
    }
}

/// Telemetry configuration that a worker passes on to its supervisor.
#[derive(Clone, Copy, PartialEq, Eq, Structural, Debug)]
pub struct TelemetryRelay {
    /// Metrics of the machine.
    pub system: SystemConfig,
    /// Metrics of the supervisor's own process.
    pub process: ProcessConfig,
}

/// What a worker is told before it starts.
pub struct WorkerBootstrap {
    /// Host to bind to.
    pub host: String,
    /// Port to bind to.
    pub port: u16,
    /// Application module.
    pub app_module: AppModule,
    /// Time limit of a request in seconds.
    pub request_timeout_secs: u64,
    /// Most requests served at once, if limited.
    pub max_concurrent: Option<usize>,
    /// Nonce that must equal the one in the worker's environment.
    pub nonce: Nonce,
    /// Event loop policy.
    pub loop_policy: String,
    /// Whether the worker passes its telemetry configuration on.
    pub relay_telemetry: bool,
    /// Most seconds spent on requests in flight after serving ended.
    pub drain_timeout_secs: u64,
    /// Whether error responses show tracebacks.
    pub dev_mode: bool,
}

/// The messages between supervisor and worker.
pub enum IpcMessage {
    /// To a worker: its configuration, the first message.
    Bootstrap(WorkerBootstrap),
    /// To the supervisor: the worker accepts requests.
    Ready,
    /// To the supervisor: telemetry configuration.
    TelemetryConfig(TelemetryRelay),
    /// To the supervisor: the worker could not start.
    StartupFailed {
        /// What went wrong.
        error: String,
    },
    /// To a worker: accept nothing more, finish what is in flight.
    Drain,
    /// To the supervisor: nothing is in flight any more.
    Drained,
}

/// A segment of letters, digits and underscores is valid unless a digit stands in front; a segment
/// with any other ASCII character is not, and neither is an empty one.
pub proof fn ascii_segments_are_judged(s: Seq<char>, letter: bool, word: Seq<bool>)
    requires
        word.len() == s.len(),
        forall|i: int|
            0 <= i < s.len() ==> (#[trigger] word[i] <==> ('a' <= s[i] && s[i] <= 'z') || ('A'
                <= s[i] && s[i] <= 'Z') || ('0' <= s[i] && s[i] <= '9')),
        s.len() > 0 ==> (letter <==> ('a' <= s[0] && s[0] <= 'z') || ('A' <= s[0] && s[0] <= 'Z')),
    ensures
        segment_shape(s, letter, word) <==> s.len() > 0 && !('0' <= s[0] && s[0] <= '9') && (forall|
            i: int,
        |
            0 <= i < s.len() ==> #[trigger] s[i] == '_' || ('a' <= s[i] && s[i] <= 'z') || ('A'
                <= s[i] && s[i] <= 'Z') || ('0' <= s[i] && s[i] <= '9')),
{
    if segment_shape(s, letter, word) {
        assert forall|i: int| 0 <= i < s.len() implies #[trigger] s[i] == '_' || ('a' <= s[i] && s[i]
            <= 'z') || ('A' <= s[i] && s[i] <= 'Z') || ('0' <= s[i] && s[i] <= '9') by {
            assert(word[i] || s[i] == '_');
        }
    }
    if s.len() > 0 && !('0' <= s[0] && s[0] <= '9') && (forall|i: int|
        0 <= i < s.len() ==> #[trigger] s[i] == '_' || ('a' <= s[i] && s[i] <= 'z') || ('A' <= s[i]
            && s[i] <= 'Z') || ('0' <= s[i] && s[i] <= '9')) {
        assert(s[0] == '_' || letter);
        assert forall|i: int| 0 <= i < s.len() implies word[i] || #[trigger] s[i] == '_' by {}
    }
}

/// The first character of a segment decides by itself whether it can stand there, and each
/// character by itself whether it can stand anywhere.
pub proof fn segments_begin_like_names(s: Seq<char>)
    ensures
        valid_segment(s) ==> s.len() > 0 && (alphabetic(s[0]) || s[0] == '_'),
        valid_segment(s) ==> forall|i: int|
            0 <= i < s.len() ==> alphanumeric(#[trigger] s[i]) || s[i] == '_',
        s.len() > 0 && (alphabetic(s[0]) || s[0] == '_') && (forall|i: int|
            0 <= i < s.len() ==> alphanumeric(#[trigger] s[i]) || s[i] == '_') ==> valid_segment(s),
{
    if valid_segment(s) {
        assert forall|i: int| 0 <= i < s.len() implies alphanumeric(#[trigger] s[i]) || s[i] == '_' by {
            assert(word_flags(s)[i] || s[i] == '_');
        }
    }
}

/// A path is valid exactly if it is made of valid segments with dots between them.
pub proof fn valid_paths_are_made_of_segments(path: Seq<char>)
    ensures
        valid_dotted_path(path) ==> path.len() > 0 && forall|i: int|
            0 <= i < split_on(path, '.').len() ==> valid_segment(#[trigger] split_on(path, '.')[i]),
        (exists|i: int|
            0 <= i < split_on(path, '.').len() && !valid_segment(#[trigger] split_on(path, '.')[i]))
            ==> !valid_dotted_path(path),
        path.len() == 0 ==> !valid_dotted_path(path),
{
}

/// Errors of the channel say what failed and why.
pub proof fn channel_errors_are_told(why: String, n: usize)
    ensures
        IpcError::Io(why).shown() == "ipc io: "@ + why@,
        IpcError::Encode(why).shown() == "ipc encode: "@ + why@,
        IpcError::Decode(why).shown() == "ipc decode: "@ + why@,
        IpcError::MessageTooLarge(n).shown() == "ipc message too large: "@ + decimal(n as nat)
            + " bytes"@,
{
}

/// Errors of a worker that is set up say what failed and why.
pub proof fn setup_errors_are_told(path: String, why: String, e: IpcError)
    ensures
        (BootstrapError::Connect { path, source: why }).shown()
            == "failed to connect to IPC socket at '"@ + path@ + "': "@ + why@,
        BootstrapError::Receive(e).shown() == "failed to receive bootstrap message: "@ + e.shown(),
        BootstrapError::UnexpectedMessage(why).shown()
            == "first IPC message was not Bootstrap, got: "@ + why@,
        BootstrapError::MissingNonce.shown()
            == "APX_WORKER_NONCE env var not set — not spawned by supervisor?"@,
        BootstrapError::NonceMismatch.shown()
            == "nonce mismatch — rejecting bootstrap (possible rogue process)"@,
{
}

/// What is wrong with a path is said with the path or the segment that is wrong.
pub proof fn path_errors_are_told(what: &'static str, text: String)
    ensures
        (DottedPathError::Empty { context: what }).shown() == what@ + " must not be empty"@,
        (DottedPathError::EmptySegment { context: what, value: text }).shown() == what@
            + " has empty segment: "@ + text@,
        (DottedPathError::InvalidSegment { context: what, segment: text }).shown() == "invalid "@ + what@
            + " segment: "@ + text@,
{
}

/// An error names the context, and the first segment that is not valid: as empty with the whole
/// path, or as it stands.
pub proof fn the_first_bad_segment_is_told(path: Seq<char>, what: Seq<char>, e: DottedPathError)
    requires
        explains(e, path, what),
    ensures
        !valid_dotted_path(path),
        e is Empty <==> path.len() == 0,
        e matches DottedPathError::Empty { context } ==> context@ == what,
        e matches DottedPathError::EmptySegment { context, value } ==> context@ == what && value@
            == path && split_on(path, '.').contains(Seq::empty()),
        e matches DottedPathError::InvalidSegment { context, segment } ==> context@ == what
            && !valid_segment(segment@) && segment@.len() > 0 && split_on(path, '.').contains(
            segment@,
        ),
{
    let segments = split_on(path, '.');
    if e is EmptySegment {
        let i = choose|i: int| #[trigger] first_invalid(segments, i) && segments[i].len() == 0;
        assert(segments[i] =~= Seq::empty());
    }
    if e is InvalidSegment {
        let i = choose|i: int| #[trigger]
            first_invalid(segments, i) && segments[i] == e->segment@;
        assert(segments.contains(segments[i]));
    }
}

/// Only the first bad segment is told: all in front of it are valid.
pub proof fn segments_before_the_told_one_are_valid(
    path: Seq<char>,
    what: Seq<char>,
    e: DottedPathError,
    k: int,
)
    requires
        explains(e, path, what),
        0 <= k < split_on(path, '.').len(),
        !valid_segment(split_on(path, '.')[k]),
        forall|j: int| 0 <= j < k ==> valid_segment(#[trigger] split_on(path, '.')[j]),
        path.len() > 0,
    ensures
        split_on(path, '.')[k].len() == 0 ==> e is EmptySegment,
        split_on(path, '.')[k].len() > 0 ==> (e matches DottedPathError::InvalidSegment {
            context: _,
            segment,
        } && segment@ == split_on(path, '.')[k]),
{
    let segments = split_on(path, '.');
    if e is EmptySegment {
        let i = choose|i: int| #[trigger] first_invalid(segments, i) && segments[i].len() == 0;
        assert(i == k);
    }
    if e is InvalidSegment {
        let i = choose|i: int| #[trigger]
            first_invalid(segments, i) && segments[i] == e->segment@;
        assert(i == k);
    }
}

} // verus!
