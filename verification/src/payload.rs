//! From a resource's name and raw bytes to a payload that is ready to be
//! decoded: the naming conventions, decompression, and the failures that a
//! load can end in.

use vstd::prelude::*;

verus! {

/// How the bytes of a payload are to be decoded.
#[derive(Clone, Copy, PartialEq, Eq, Structural, Debug)]
pub enum Format {
    /// A structured binary encoding.
    Binary,
    /// Text, or structured text.
    Text,
}

/// What has to be done to a resource's bytes, read off its name.
#[derive(Clone, Copy, PartialEq, Eq, Structural, Debug)]
pub struct Decoding {
    /// Whether the bytes are gzip-compressed.
    pub compressed: bool,
    pub format: Format,
}

/// The convention by suffix: `.bin` is binary, `.bin.gz` compressed binary,
/// any other `.gz` compressed text, and everything else text.
pub open spec fn decoding_of(name: Seq<char>) -> Decoding {
    if ".gz"@.is_suffix_of(name) {
        Decoding {
            compressed: true,
            format: if ".bin.gz"@.is_suffix_of(name) {
                Format::Binary
            } else {
                Format::Text
            },
        }
    } else {
        Decoding {
            compressed: false,
            format: if ".bin"@.is_suffix_of(name) {
                Format::Binary
            } else {
                Format::Text
            },
        }
    }
}

/// The table read the other way: a body is decompressed exactly when its
/// name ends in `.gz`, and decoded as binary exactly when its name ends in
/// `.bin` or in `.bin.gz`.
pub proof fn lemma_decoding_by_suffix(name: Seq<char>)
    ensures
        decoding_of(name).compressed <==> ".gz"@.is_suffix_of(name),
        decoding_of(name).format == Format::Binary <==> (".bin"@.is_suffix_of(name)
            || ".bin.gz"@.is_suffix_of(name)),
{
    reveal_strlit(".gz");
    reveal_strlit(".bin");
    reveal_strlit(".bin.gz");
    let n = name.len() as int;
    if ".bin.gz"@.is_suffix_of(name) {
        let long = name.subrange(n - 7, n);
        let short = name.subrange(n - 3, n);
        assert(short[0] == long[4] && short[1] == long[5] && short[2] == long[6]);
        assert(short =~= ".gz"@);
    }
    if ".bin"@.is_suffix_of(name) && ".gz"@.is_suffix_of(name) {
        assert(name.subrange(n - 4, n)[3] == name[n - 1]);
        assert(name.subrange(n - 3, n)[2] == name[n - 1]);
    }
}

/// Whether a name ends in `suffix` is read off its end alone: what stands in
/// front does not matter, once the name is as long as the suffix.
pub proof fn lemma_suffix_reads_the_end(suffix: Seq<char>, front: Seq<char>, name: Seq<char>)
    requires
        suffix.len() <= name.len(),
    ensures
        suffix.is_suffix_of(front + name) == suffix.is_suffix_of(name),
{
    let whole = front + name;
    assert(whole.subrange(whole.len() - suffix.len(), whole.len() as int) =~= name.subrange(
        name.len() - suffix.len(),
        name.len() as int,
    ));
}

/// The decoding of a name of seven characters or more is that of the same
/// name with anything in front: an address and a path that end alike are
/// decoded alike.
pub proof fn lemma_decoding_reads_the_end(front: Seq<char>, name: Seq<char>)
    requires
        name.len() >= 7,
    ensures
        decoding_of(front + name) == decoding_of(name),
{
    reveal_strlit(".gz");
    reveal_strlit(".bin");
    reveal_strlit(".bin.gz");
    lemma_suffix_reads_the_end(".gz"@, front, name);
    lemma_suffix_reads_the_end(".bin"@, front, name);
    lemma_suffix_reads_the_end(".bin.gz"@, front, name);
}

/// `str::ends_with` with a string pattern: whether `suffix` ends `s`.
#[verifier::external_body]
fn ends_with(s: &str, suffix: &str) -> (yes: bool)
    ensures
        yes == suffix@.is_suffix_of(s@),
{
    s.ends_with(suffix)
}

/// `str::strip_prefix` with a string pattern: the rest of `s` behind
/// `prefix`, or `None` when `s` does not start with it.
#[verifier::external_body]
fn strip_prefix<'a>(s: &'a str, prefix: &str) -> (rest: Option<&'a str>)
    ensures
        match rest {
            Some(r) => prefix@.is_prefix_of(s@) && r@ == s@.skip(prefix@.len() as int),
            None => !prefix@.is_prefix_of(s@),
        },
{
    s.strip_prefix(prefix)
}

/// What decompressing `bytes` as one gzip member gives: the content, or the
/// decoder's complaint.
pub uninterp spec fn gunzipped(bytes: Seq<u8>) -> Result<Seq<u8>, Seq<char>>;

/// Reads `bytes` to the end through `flate2::read::GzDecoder`. The result is
/// a function of the bytes alone, named [`gunzipped`]; nothing else is
/// claimed of it.
#[verifier::external_body]
fn gunzip(bytes: &[u8]) -> (inflated: Result<Vec<u8>, String>)
    ensures
        match inflated {
            Ok(content) => gunzipped(bytes@) == Ok::<Seq<u8>, Seq<char>>(content@),
            Err(complaint) => gunzipped(bytes@) == Err::<Seq<u8>, Seq<char>>(complaint@),
        },
{
    let mut content = Vec::new();
    let mut decoder = flate2::read::GzDecoder::new(bytes);
    match std::io::Read::read_to_end(&mut decoder, &mut content) {
        Ok(_) => Ok(content),
        Err(e) => Err(e.to_string()),
    }
}

/// Reads the decoding off a resource's name.
pub fn decoding_for(name: &str) -> (decoding: Decoding)
    ensures
        decoding == decoding_of(name@),
{
    if ends_with(name, ".gz") {
        Decoding {
            compressed: true,
            format: if ends_with(name, ".bin.gz") {
                Format::Binary
            } else {
                Format::Text
            },
        }
    } else {
        Decoding {
            compressed: false,
            format: if ends_with(name, ".bin") {
                Format::Binary
            } else {
                Format::Text
            },
        }
    }
}

/// The part of `path` behind the data root `root`, or `None` when `path`
/// does not lie under it.
pub fn relative_path<'a>(path: &'a str, root: &str) -> (rest: Option<&'a str>)
    ensures
        match rest {
            Some(r) => root@.is_prefix_of(path@) && r@ == path@.skip(root@.len() as int),
            None => !root@.is_prefix_of(path@),
        },
{
    strip_prefix(path, root)
}

/// Where resources are served from.
#[derive(Clone, Copy, PartialEq, Eq, Structural, Debug)]
pub enum Deployment {
    /// A remote origin that serves every file gzip-compressed.
    RemoteBundle,
    /// A local development server that serves the files as they are.
    LocalDev,
}

/// The address of the resource at `relative` under the data root.
pub open spec fn url_of(deployment: Deployment, relative: Seq<char>) -> Seq<char> {
    match deployment {
        Deployment::RemoteBundle => "http://abstreet.s3-website.us-east-2.amazonaws.com/dev/data/"@
            + relative + ".gz"@,
        Deployment::LocalDev => "http://0.0.0.0:8000/"@ + relative,
    }
}

/// Builds the address of the resource at `relative` under the data root.
pub fn resource_url(deployment: Deployment, relative: &str) -> (url: String)
    ensures
        url@ == url_of(deployment, relative@),
{
    match deployment {
        Deployment::RemoteBundle => {
            let mut url = String::from_str(
                "http://abstreet.s3-website.us-east-2.amazonaws.com/dev/data/",
            );
            url.append(relative);
            url.append(".gz");
            url
        },
        Deployment::LocalDev => {
            let mut url = String::from_str("http://0.0.0.0:8000/");
            url.append(relative);
            url
        },
    }
}

/// The ways in which a load fails.
#[derive(Clone, Copy, PartialEq, Eq, Structural, Debug)]
pub enum ErrorKind {
    /// The bytes could not be had: a non-success status, or the source
    /// itself failed.
    Transport,
    /// The bytes were had but are malformed.
    Decode,
    /// The producer went away without sending a result.
    Canceled,
    /// The background computation ended in an error of its own.
    Task,
}

/// A failed load, as data for the continuation.
#[derive(Debug)]
pub struct LoadError {
    pub kind: ErrorKind,
    pub message: String,
}

/// The mathematical content of a [`LoadError`].
pub struct Failure {
    pub kind: ErrorKind,
    pub message: Seq<char>,
}

impl View for LoadError {
    type V = Failure;

    open spec fn view(&self) -> Failure {
        Failure { kind: self.kind, message: self.message@ }
    }
}

/// The decimal digit for `d`, where `d` is below ten.
pub open spec fn digit(d: nat) -> char {
    if d == 0 {
        '0'
    } else if d == 1 {
        '1'
    } else if d == 2 {
        '2'
    } else if d == 3 {
        '3'
    } else if d == 4 {
        '4'
    } else if d == 5 {
        '5'
    } else if d == 6 {
        '6'
    } else if d == 7 {
        '7'
    } else if d == 8 {
        '8'
    } else {
        '9'
    }
}

/// `n` written in decimal, without leading zeros.
pub open spec fn decimal(n: nat) -> Seq<char>
    decreases n,
{
    if n < 10 {
        seq![digit(n)]
    } else {
        decimal(n / 10).push(digit(n % 10))
    }
}

/// The message of a non-success status: `HTTP`, the status, a colon, and the
/// status text.
pub open spec fn http_message(status: u16, text: Seq<char>) -> Seq<char> {
    "HTTP "@ + decimal(status as nat) + ": "@ + text
}

/// The message of a closed channel.
pub open spec fn canceled_message() -> Seq<char> {
    "channel canceled"@
}

/// Whether `run` occurs in `s` as one piece.
pub open spec fn has_run(s: Seq<char>, run: Seq<char>) -> bool {
    exists|i: int| 0 <= i && i + run.len() <= s.len() && #[trigger] s.subrange(i, i + run.len()) == run
}

fn digit_str(d: u16) -> (s: &'static str)
    requires
        d < 10,
    ensures
        s@ == seq![digit(d as nat)],
{
    proof {
        reveal_strlit("0");
        reveal_strlit("1");
        reveal_strlit("2");
        reveal_strlit("3");
        reveal_strlit("4");
        reveal_strlit("5");
        reveal_strlit("6");
        reveal_strlit("7");
        reveal_strlit("8");
        reveal_strlit("9");
    }
    let s = if d == 0 {
        "0"
    } else if d == 1 {
        "1"
    } else if d == 2 {
        "2"
    } else if d == 3 {
        "3"
    } else if d == 4 {
        "4"
    } else if d == 5 {
        "5"
    } else if d == 6 {
        "6"
    } else if d == 7 {
        "7"
    } else if d == 8 {
        "8"
    } else {
        "9"
    };
    assert(s@ =~= seq![digit(d as nat)]);
    s
}

/// Writes `n` in decimal.
pub fn decimal_string(n: u16) -> (s: String)
    ensures
        s@ == decimal(n as nat),
    decreases n,
{
    if n < 10 {
        String::from_str(digit_str(n))
    } else {
        let mut s = decimal_string(n / 10);
        s.append(digit_str(n % 10));
        assert(s@ =~= decimal(n as nat));
        s
    }
}

impl LoadError {
    /// A non-success status with its text.
    pub fn http(status: u16, text: &str) -> (e: LoadError)
        ensures
            e@ == (Failure { kind: ErrorKind::Transport, message: http_message(status, text@) }),
    {
        let mut message = String::from_str("HTTP ");
        let number = decimal_string(status);
        message.append(number.as_str());
        message.append(": ");
        message.append(text);
        LoadError { kind: ErrorKind::Transport, message }
    }

    /// A failure of the byte source itself, in its own words.
    pub fn transport(message: String) -> (e: LoadError)
        ensures
            e@ == (Failure { kind: ErrorKind::Transport, message: message@ }),
    {
        LoadError { kind: ErrorKind::Transport, message }
    }

    /// A malformed payload, in the decoder's words.
    pub fn decode(message: String) -> (e: LoadError)
        ensures
            e@ == (Failure { kind: ErrorKind::Decode, message: message@ }),
    {
        LoadError { kind: ErrorKind::Decode, message }
    }

    /// A background computation that failed, in its own words.
    pub fn task(message: String) -> (e: LoadError)
        ensures
            e@ == (Failure { kind: ErrorKind::Task, message: message@ }),
    {
        LoadError { kind: ErrorKind::Task, message }
    }

    /// A producer that went away without sending.
    pub fn canceled() -> (e: LoadError)
        ensures
            e@ == (Failure { kind: ErrorKind::Canceled, message: canceled_message() }),
    {
        LoadError { kind: ErrorKind::Canceled, message: String::from_str("channel canceled") }
    }

    /// The message, for a continuation that shows it to the user.
    pub fn to_message(self) -> (message: String)
        ensures
            message@ == self@.message,
    {
        self.message
    }
}

/// A failed status is named in full by its message: the number and the
/// status text both occur in it.
pub proof fn lemma_http_message_names_status_and_text(status: u16, text: Seq<char>)
    ensures
        has_run(http_message(status, text), decimal(status as nat)),
        has_run(http_message(status, text), text),
{
    let m = http_message(status, text);
    let d = decimal(status as nat);
    let i = "HTTP "@.len() as int;
    assert(m.subrange(i, i + d.len()) =~= d);
    let j = i + d.len() + ": "@.len();
    assert(m.subrange(j, j + text.len()) =~= text);
}

/// Bytes that are ready to be decoded.
#[derive(Debug)]
pub struct Payload {
    pub format: Format,
    pub bytes: Vec<u8>,
}

/// The mathematical content of a [`Payload`].
pub struct PayloadContent {
    pub format: Format,
    pub bytes: Seq<u8>,
}

impl View for Payload {
    type V = PayloadContent;

    open spec fn view(&self) -> PayloadContent {
        PayloadContent { format: self.format, bytes: self.bytes@ }
    }
}

/// The content of an unpacking's outcome.
pub open spec fn unpack_view(outcome: Result<Payload, LoadError>) -> Result<
    PayloadContent,
    Failure,
> {
    match outcome {
        Ok(payload) => Ok(payload@),
        Err(e) => Err(e@),
    }
}

/// What decompression's answer `inflated` means for a payload of `format`:
/// the content, or a decode failure with the decoder's complaint.
pub open spec fn framed(format: Format, inflated: Result<Seq<u8>, Seq<char>>) -> Result<
    PayloadContent,
    Failure,
> {
    match inflated {
        Ok(bytes) => Ok(PayloadContent { format, bytes }),
        Err(complaint) => Err(Failure { kind: ErrorKind::Decode, message: complaint }),
    }
}

/// What the body `body` of the resource called `name` unpacks to.
pub open spec fn unpacked(name: Seq<char>, body: Seq<u8>) -> Result<PayloadContent, Failure> {
    let decoding = decoding_of(name);
    if decoding.compressed {
        framed(decoding.format, gunzipped(body))
    } else {
        Ok(PayloadContent { format: decoding.format, bytes: body })
    }
}

/// Turns decompression's answer into a payload of `format` or a decode
/// failure.
pub fn frame(format: Format, inflated: Result<Vec<u8>, String>) -> (outcome: Result<
    Payload,
    LoadError,
>)
    ensures
        unpack_view(outcome) == framed(
            format,
            match inflated {
                Ok(bytes) => Ok(bytes@),
                Err(complaint) => Err(complaint@),
            },
        ),
{
    match inflated {
        Ok(bytes) => Ok(Payload { format, bytes }),
        Err(complaint) => Err(LoadError::decode(complaint)),
    }
}

/// Unpacks the body of the resource called `name`: decompresses it where the
/// name says so, and tags it with the format that the name gives.
pub fn unpack(name: &str, body: Vec<u8>) -> (outcome: Result<Payload, LoadError>)
    ensures
        unpack_view(outcome) == unpacked(name@, body@),
{
    let decoding = decoding_for(name);
    if decoding.compressed {
        let inflated = gunzip(body.as_slice());
        frame(decoding.format, inflated)
    } else {
        Ok(Payload { format: decoding.format, bytes: body })
    }
}

/// What the fetch task makes of a finished request for `url`: on a success
/// status the body unpacked by the convention of the address, else a
/// transport failure that names the status.
pub open spec fn fetched_content(
    url: Seq<char>,
    ok: bool,
    status: u16,
    status_text: Seq<char>,
    body: Seq<u8>,
) -> Result<PayloadContent, Failure> {
    if ok {
        unpacked(url, body)
    } else {
        Err(Failure { kind: ErrorKind::Transport, message: http_message(status, status_text) })
    }
}

/// Turns a finished request into what is sent to the loader. This runs in
/// the fetch task's own context: the loader's tick only passes the result
/// on. A body that does not unpack is sent as a decode failure.
pub fn fetched_payload(url: &str, ok: bool, status: u16, status_text: &str, body: Vec<u8>) -> (outcome:
    Result<Payload, LoadError>)
    ensures
        unpack_view(outcome) == fetched_content(url@, ok, status, status_text@, body@),
{
    if ok {
        unpack(url, body)
    } else {
        Err(LoadError::http(status, status_text))
    }
}

/// The two failures of a fetch can be told apart by their kind: a failed
/// status is a transport failure, and a body that does not unpack is a
/// decode failure.
pub proof fn lemma_fetch_failures_tell_apart(
    url: Seq<char>,
    ok: bool,
    status: u16,
    status_text: Seq<char>,
    body: Seq<u8>,
)
    ensures
        fetched_content(url, ok, status, status_text, body) matches Err(failure) ==> {
            &&& failure.kind == ErrorKind::Transport <==> !ok
            &&& failure.kind == ErrorKind::Decode <==> ok
            &&& !ok ==> failure.message == http_message(status, status_text)
        },
{
}

/// What the host's decoder's answer means for a load: the value, or a
/// decode failure with the decoder's complaint.
pub open spec fn decoded_as<V>(answer: Result<V, String>, outcome: Result<V, LoadError>) -> bool {
    match answer {
        Ok(value) => outcome == Ok::<V, LoadError>(value),
        Err(complaint) => outcome is Err && outcome->Err_0@ == (Failure {
            kind: ErrorKind::Decode,
            message: complaint@,
        }),
    }
}

/// Decodes an unpacked payload with the host's decoder. A failure from
/// before is passed on. A payload that the decoder refuses is a decode
/// failure, whatever its format, and so never a transport failure.
pub fn decode_with<V, D: FnOnce(Payload) -> Result<V, String>>(
    unpacked: Result<Payload, LoadError>,
    decoder: D,
) -> (outcome: Result<V, LoadError>)
    requires
        unpacked matches Ok(payload) ==> call_requires(decoder, (payload,)),
    ensures
        match unpacked {
            Ok(payload) => exists|answer: Result<V, String>| #[trigger]
                call_ensures(decoder, (payload,), answer) && decoded_as(answer, outcome),
            Err(e) => outcome is Err && outcome->Err_0 == e,
        },
{
    match unpacked {
        Ok(payload) => {
            let answer = decoder(payload);
            let outcome = match answer {
                Ok(value) => Ok(value),
                Err(complaint) => Err(LoadError::decode(complaint)),
            };
            assert(call_ensures(decoder, (payload,), answer) && decoded_as(answer, outcome));
            outcome
        },
        Err(e) => Err(e),
    }
}

} // verus!
