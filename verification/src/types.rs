//! The gateway's data model: configuration, the request/response envelopes of
//! the buffered protocol, and the gateway-level error taxonomy, together with
//! the envelope codec rules and their round-trip laws.

use vstd::prelude::*;

use crate::codec::{b64_decode, b64_encode, b64_of, json_norm, json_reserialize};

verus! {

/// Reserved TLS/ACME material; configured but not exercised by the core.
pub struct AcmeConfig {}

/// Startup configuration: the sandboxed script root, the listen specification,
/// optional TLS material and an optional (reserved) auth-script hook.
pub struct Config {
    pub script_root: String,
    pub auth_script: Option<String>,
    pub cert: Option<String>,
    pub priv_key: Option<String>,
    pub bind_address: Option<String>,
    pub bind_port: Option<u16>,
    pub debug: Option<bool>,
}

/// How an envelope body field is encoded: the serialized text of a JSON value
/// (`Raw`) or base64 of the raw bytes (`Base64`).
#[derive(Clone, Copy, Debug, PartialEq, Eq, Structural)]
pub enum EncType {
    Raw,
    Base64,
}

/// What the library keeps of a filesystem error: the one distinction the
/// gateway's rules read (a missing target versus any other failure).
#[derive(Clone, Copy, Debug, PartialEq, Eq, Structural)]
pub enum FsErrorKind {
    NotFound,
    PermissionDenied,
    Other,
}

/// The whole-request envelope handed to a script in buffered mode.
pub struct ProcessRequest {
    pub method: String,
    pub url: String,
    pub headers: Vec<(String, String)>,
    pub encoding: EncType,
    pub body: Option<Vec<u8>>,
}

/// The whole-response envelope a script hands back in buffered mode.
pub struct ProcessResponse {
    pub code: u16,
    pub headers: Vec<(String, String)>,
    pub encoding: EncType,
    pub body: Option<Vec<u8>>,
}

/// A decoded script response, ready to become an HTTP response.
pub struct HttpResponseParts {
    pub code: u16,
    pub headers: Vec<(String, String)>,
    pub body: Option<Vec<u8>>,
}

/// The gateway-level error taxonomy for the buffered protocol.
#[derive(Clone, Copy, Debug, PartialEq, Eq, Structural)]
pub enum CgidError {
    NonExistantScript,
    InvalidPath,
    ScriptNoExec,
    IoError(FsErrorKind),
    JsonError,
    NoChildStdout,
    NoChildStdin,
    ExecError(u8),
    Base64,
    InvalidHeader,
    Spawn(FsErrorKind),
}

/// A byte an HTTP header value may hold: horizontal tab, or anything from
/// space upward except delete.
pub open spec fn valid_header_byte(b: u8) -> bool {
    b == 9 || (32 <= b && b != 127)
}

/// Whether the HTTP layer accepts a header value: every byte of its UTF-8
/// form is a valid header-value octet.
pub open spec fn valid_header_value(v: Seq<char>) -> bool {
    forall|i: int|
        0 <= i < vstd::utf8::encode_utf8(v).len() ==> valid_header_byte(
            #[trigger] vstd::utf8::encode_utf8(v)[i],
        )
}

/// Whether every header's value is acceptable to the HTTP layer.
pub open spec fn headers_valid(hs: Seq<(Seq<char>, Seq<char>)>) -> bool {
    forall|i: int| 0 <= i < hs.len() ==> valid_header_value((#[trigger] hs[i]).1)
}

/// Decide whether one header value is acceptable to the HTTP layer.
fn header_value_ok(v: &String) -> (r: bool)
    ensures
        r == valid_header_value(v@),
{
    let bytes = v.as_str().as_bytes();
    let mut i: usize = 0;
    while i < bytes.len()
        invariant
            bytes@ == vstd::utf8::encode_utf8(v@),
            i <= bytes@.len(),
            forall|j: int| 0 <= j < i ==> valid_header_byte(bytes@[j]),
        decreases bytes@.len() - i,
    {
        let b = bytes[i];
        if !(b == 9 || (32 <= b && b != 127)) {
            return false;
        }
        i = i + 1;
    }
    true
}

/// Decide whether every header value in a list is acceptable to the HTTP
/// layer.
fn headers_ok(hs: &Vec<(String, String)>) -> (r: bool)
    ensures
        r == headers_valid(hs.deep_view()),
{
    let mut i: usize = 0;
    while i < hs.len()
        invariant
            i <= hs@.len(),
            hs.deep_view().len() == hs@.len(),
            forall|j: int| 0 <= j < hs@.len() ==> (#[trigger] hs.deep_view()[j]).1 == hs@[j].1@,
            forall|j: int| 0 <= j < i ==> valid_header_value((#[trigger] hs.deep_view()[j]).1),
        decreases hs@.len() - i,
    {
        if !header_value_ok(&hs[i].1) {
            proof {
                assert(!valid_header_value((hs.deep_view()[i as int]).1));
            }
            return false;
        }
        i = i + 1;
    }
    true
}

/// The content-type essence whose bodies ride as re-serialized JSON text:
/// the bytes of `application/json`.
pub open spec fn json_content_type() -> Seq<u8> {
    seq![
        97u8,
        112u8,
        112u8,
        108u8,
        105u8,
        99u8,
        97u8,
        116u8,
        105u8,
        111u8,
        110u8,
        47u8,
        106u8,
        115u8,
        111u8,
        110u8,
    ]
}

/// The bytes of the JSON content-type essence, as a value to compare against.
fn json_content_type_bytes() -> (r: Vec<u8>)
    ensures
        r@ == json_content_type(),
{
    let mut v: Vec<u8> = Vec::new();
    v.push(97);
    v.push(112);
    v.push(112);
    v.push(108);
    v.push(105);
    v.push(99);
    v.push(97);
    v.push(116);
    v.push(105);
    v.push(111);
    v.push(110);
    v.push(47);
    v.push(106);
    v.push(115);
    v.push(111);
    v.push(110);
    proof {
        assert(v@ =~= json_content_type());
    }
    v
}

/// Decide whether a request's content-type essence selects `Raw` (JSON)
/// encoding: exactly the bytes `application/json`, nothing else.
pub fn is_json_content_type(essence: &Vec<u8>) -> (r: bool)
    ensures
        r == (essence@ == json_content_type()),
{
    let expected = json_content_type_bytes();
    if essence.len() != expected.len() {
        return false;
    }
    let mut i: usize = 0;
    while i < expected.len()
        invariant
            i <= expected.len(),
            essence@.len() == expected@.len(),
            expected@ == json_content_type(),
            forall|j: int| 0 <= j < i ==> essence@[j] == expected@[j],
        decreases expected.len() - i,
    {
        if essence[i] != expected[i] {
            return false;
        }
        i = i + 1;
    }
    assert(essence@ =~= expected@);
    true
}

/// The encoding selected for a request: `Raw` exactly when the inbound content
/// type is `application/json`.
pub open spec fn encoding_for(is_json: bool) -> EncType {
    if is_json {
        EncType::Raw
    } else {
        EncType::Base64
    }
}

/// The mathematical value of an optional byte string.
pub open spec fn opt_bytes_view(ob: Option<Vec<u8>>) -> Option<Seq<u8>> {
    match ob {
        None => None,
        Some(v) => Some(v@),
    }
}

/// Whether a request's content type selects JSON handling: an absent content
/// type never does.
pub open spec fn essence_is_json(essence: Option<Seq<u8>>) -> bool {
    essence matches Some(e) && e == json_content_type()
}

/// What encoding a body must produce: nothing stays nothing, a non-JSON body
/// becomes its base64 text, and a JSON body becomes the serialized text of its
/// value (which re-serializes to itself); a body that claims to be JSON but is
/// not is rejected.
pub open spec fn encode_body_rel(
    is_json: bool,
    body: Option<Seq<u8>>,
    r: Result<Option<Vec<u8>>, CgidError>,
) -> bool {
    match body {
        None => r matches Ok(ob) && ob is None,
        Some(b) => if !is_json {
            r matches Ok(ob) && ob matches Some(v) && v@ == b64_of(b)
        } else {
            match json_norm(b) {
                Some(t) => r matches Ok(ob) && ob matches Some(v) && v@ == t && json_norm(t)
                    == Some(t),
                None => r matches Err(e) && e == CgidError::JsonError,
            }
        },
    }
}

/// What decoding a body must produce: a `Raw` body is used verbatim, no body
/// stays no body, and a `Base64` body that is the canonical encoding of some
/// bytes yields exactly those bytes; only a malformed `Base64` body fails.
pub open spec fn decode_body_rel(
    enc: EncType,
    body: Option<Seq<u8>>,
    r: Result<Option<Vec<u8>>, CgidError>,
) -> bool {
    match enc {
        EncType::Raw => r matches Ok(ob) && opt_bytes_view(ob) == body,
        EncType::Base64 => match body {
            None => r matches Ok(ob) && ob is None,
            Some(s) => {
                &&& forall|b: Seq<u8>|
                    s == #[trigger] b64_of(b) ==> (r matches Ok(ob) && ob matches Some(v) && v@
                        == b)
                &&& (r matches Err(e) ==> e == CgidError::Base64)
                &&& (r matches Ok(ob) ==> ob is Some)
            },
        },
    }
}

/// What building a request envelope must produce: on success the method, URL
/// and headers are carried unchanged, the encoding follows the content type,
/// and the body obeys the encoding rule; the one failure is a body that claims
/// to be JSON but is not.
pub open spec fn build_request_rel(
    method: Seq<char>,
    url: Seq<char>,
    headers: Seq<(Seq<char>, Seq<char>)>,
    is_json: bool,
    body: Option<Seq<u8>>,
    r: Result<ProcessRequest, CgidError>,
) -> bool {
    match r {
        Ok(pr) => {
            &&& pr.method@ == method
            &&& pr.url@ == url
            &&& pr.headers.deep_view() == headers
            &&& pr.encoding == encoding_for(is_json)
            &&& encode_body_rel(is_json, body, Result::<Option<Vec<u8>>, CgidError>::Ok(pr.body))
        },
        Err(e) => {
            &&& e == CgidError::JsonError
            &&& is_json
            &&& body matches Some(b) && json_norm(b) is None
        },
    }
}

/// Encode an optional request body for the envelope, per the encoding rule.
pub fn encode_body(is_json: bool, body: Option<Vec<u8>>) -> (r: Result<Option<Vec<u8>>, CgidError>)
    ensures
        encode_body_rel(is_json, opt_bytes_view(body), r),
{
    match body {
        None => Ok(None),
        Some(b) => {
            if is_json {
                match json_reserialize(&b) {
                    Ok(t) => Ok(Some(t)),
                    Err(_) => Err(CgidError::JsonError),
                }
            } else {
                Ok(Some(b64_encode(&b)))
            }
        },
    }
}

impl ProcessRequest {
    /// Build the whole-request envelope from the parts of an HTTP request:
    /// method, URL and headers are carried as given, and the body is encoded
    /// per the encoding rule (`Raw` re-serialized JSON text for a JSON content
    /// type, base64 otherwise). `content_type` is the essence of the inbound
    /// content-type header, if the request had one.
    pub fn from(
        method: String,
        url: String,
        headers: Vec<(String, String)>,
        content_type: Option<Vec<u8>>,
        body: Option<Vec<u8>>,
    ) -> (r: Result<ProcessRequest, CgidError>)
        ensures
            build_request_rel(
                method@,
                url@,
                headers.deep_view(),
                essence_is_json(opt_bytes_view(content_type)),
                opt_bytes_view(body),
                r,
            ),
    {
        let is_json = match &content_type {
            Some(e) => is_json_content_type(e),
            None => false,
        };
        let encoding = if is_json {
            EncType::Raw
        } else {
            EncType::Base64
        };
        let enc_body = match encode_body(is_json, body) {
            Ok(ob) => ob,
            Err(e) => {
                return Err(e);
            },
        };
        Ok(ProcessRequest { method, url, headers, encoding, body: enc_body })
    }
}

/// Decode an envelope body per its encoding field: verbatim for `Raw`, base64
/// for `Base64`.
pub fn decode_body(enc: &EncType, body: Option<Vec<u8>>) -> (r: Result<Option<Vec<u8>>, CgidError>)
    ensures
        decode_body_rel(*enc, opt_bytes_view(body), r),
{
    match body {
        None => Ok(None),
        Some(s) => match enc {
            EncType::Raw => Ok(Some(s)),
            EncType::Base64 => match b64_decode(&s) {
                Ok(v) => Ok(Some(v)),
                Err(_) => Err(CgidError::Base64),
            },
        },
    }
}

/// Turn a script's response envelope into HTTP response parts: the script's
/// status code and headers are carried unchanged and the body is decoded per
/// its encoding field. The two failures are a header value the HTTP layer
/// would refuse, and a malformed base64 body.
pub fn to_http_response(p: ProcessResponse) -> (r: Result<HttpResponseParts, CgidError>)
    ensures
        r matches Ok(h) ==> h.code == p.code && h.headers.deep_view() == p.headers.deep_view()
            && headers_valid(p.headers.deep_view()) && decode_body_rel(
            p.encoding,
            opt_bytes_view(p.body),
            Result::<Option<Vec<u8>>, CgidError>::Ok(h.body),
        ),
        r matches Err(e) ==> (e == CgidError::InvalidHeader && !headers_valid(
            p.headers.deep_view(),
        )) || (headers_valid(p.headers.deep_view()) && decode_body_rel(
            p.encoding,
            opt_bytes_view(p.body),
            Result::<Option<Vec<u8>>, CgidError>::Err(e),
        )),
{
    let ProcessResponse { code, headers, encoding, body } = p;
    if !headers_ok(&headers) {
        return Err(CgidError::InvalidHeader);
    }
    match decode_body(&encoding, body) {
        Ok(decoded) => Ok(HttpResponseParts { code, headers, body: decoded }),
        Err(e) => Err(e),
    }
}

/// Law: in envelope mode a non-JSON body round-trips byte-for-byte. Encoding
/// any bytes `b` yields a base64 envelope body, and decoding that envelope
/// body yields exactly `b` again.
pub proof fn lemma_non_json_body_round_trip(
    b: Seq<u8>,
    encoded: Result<Option<Vec<u8>>, CgidError>,
    decoded: Result<Option<Vec<u8>>, CgidError>,
)
    requires
        encode_body_rel(false, Some(b), encoded),
        decode_body_rel(EncType::Base64, opt_bytes_view(encoded->Ok_0), decoded),
    ensures
        decoded matches Ok(ob) && ob matches Some(v) && v@ == b,
{
    assert(opt_bytes_view(encoded->Ok_0) == Some(b64_of(b)));
}

/// Law: in envelope mode a request with a JSON body round-trips. The envelope
/// carries method, URL and headers unchanged; its body is delivered verbatim
/// in `Raw` mode and denotes the same JSON value as the original body (the two
/// have the same normal form).
pub proof fn lemma_json_request_round_trip(
    method: Seq<char>,
    url: Seq<char>,
    headers: Seq<(Seq<char>, Seq<char>)>,
    b: Seq<u8>,
    built: Result<ProcessRequest, CgidError>,
    delivered: Result<Option<Vec<u8>>, CgidError>,
)
    requires
        json_norm(b) is Some,
        build_request_rel(method, url, headers, true, Some(b), built),
        decode_body_rel(EncType::Raw, opt_bytes_view(built->Ok_0.body), delivered),
    ensures
        built matches Ok(pr) && pr.method@ == method && pr.url@ == url && pr.headers.deep_view()
            == headers && pr.encoding is Raw,
        delivered matches Ok(ob) && ob matches Some(v) && json_norm(v@) == json_norm(b),
{
}

} // verus!
