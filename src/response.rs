//! HTTP responses, test results of response scripts, and the human-readable
//! formatting of durations and sizes.

use vstd::prelude::*;
use vstd::string::*;
use vstd::utf8::encode_utf8;

use crate::base::{is_json_text, now, parse_json, Timestamp};

verus! {

/// The character of a decimal digit.
pub open spec fn digit_char(d: nat) -> char {
    if d == 0 {
        '0'
    } else if d == 1 {
        '1'
    } else if d == 2 {
        '2'
    } else if d == 3 {
        '3'
    } else if d == 4 {
        '4'
    } else if d == 5 {
        '5'
    } else if d == 6 {
        '6'
    } else if d == 7 {
        '7'
    } else if d == 8 {
        '8'
    } else {
        '9'
    }
}

/// The decimal digits of `n`, without leading zeros.
pub open spec fn decimal(n: nat) -> Seq<char>
    decreases n,
{
    if n < 10 {
        seq![digit_char(n)]
    } else {
        decimal(n / 10) + seq![digit_char(n % 10)]
    }
}

/// `n / d` rounded to the nearest integer, ties to the even one.
pub open spec fn round_half_even(n: nat, d: nat) -> nat
    recommends
        d > 0,
{
    let q = n / d;
    let r = n % d;
    if 2 * r > d || (2 * r == d && q % 2 == 1) {
        q + 1
    } else {
        q
    }
}

/// `2^(49 - e) mod 125`, for the binary exponent `e` of a quotient in `[1, 60)`.
pub open spec fn pow2_mod125(ms: nat) -> nat {
    if ms < 2000 {
        62
    } else if ms < 4000 {
        31
    } else if ms < 8000 {
        78
    } else if ms < 16000 {
        39
    } else if ms < 32000 {
        82
    } else {
        41
    }
}

/// For `1000 <= ms < 60000`: whether the binary64 value nearest to
/// `ms / 1000` lies above it. Its 53-bit significand is
/// `ms * 2^(49 - e) / 125` rounded, which rounds up exactly when that
/// quotient's remainder exceeds half of 125.
pub open spec fn quotient_rounds_up(ms: nat) -> bool {
    ((ms % 125) * pow2_mod125(ms)) % 125 >= 63
}

/// `ms / 1000` in tenths, rounded as the one-decimal formatting of the
/// binary64 quotient rounds it: the nearest tenth, ties to even when the
/// quotient is exact, and by the side the binary64 value lies on otherwise.
pub open spec fn duration_tenths(ms: nat) -> nat {
    if ms % 100 == 50 && ms % 500 != 250 {
        ms / 100 + if quotient_rounds_up(ms) {
            1nat
        } else {
            0nat
        }
    } else {
        round_half_even(ms, 100)
    }
}

/// The text of a duration in milliseconds: "100ms", "1.5s", "1m 5s".
pub open spec fn duration_text(ms: nat) -> Seq<char> {
    if ms < 1000 {
        decimal(ms) + "ms"@
    } else if ms < 60000 {
        let t = duration_tenths(ms);
        decimal(t / 10) + "."@ + decimal(t % 10) + "s"@
    } else {
        decimal(ms / 60000) + "m "@ + decimal((ms % 60000) / 1000) + "s"@
    }
}

/// The smallest power of two `u`, from `u` up, with `b < 2^53 * u`: the
/// spacing of binary64 values around `b`.
pub open spec fn f64_spacing(b: nat, u: nat) -> nat
    decreases b + 1 - u,
{
    if u == 0 || b < 0x20_0000_0000_0000 * u || u > b {
        u
    } else {
        f64_spacing(b, 2 * u)
    }
}

/// The binary64 value nearest to `b` (ties to even), for `b < 2^64`.
pub open spec fn as_f64(b: nat) -> nat {
    let u = f64_spacing(b, 1);
    round_half_even(b, u) * u
}

/// A number of hundredths as text with two decimals: 200 gives "2.00".
pub open spec fn two_decimals(h: nat) -> Seq<char> {
    decimal(h / 100) + "."@ + seq![digit_char((h / 10) % 10), digit_char(h % 10)]
}

/// The text of a size in bytes: "100B", "2.00KB", "3.00MB", "1.00GB".
pub open spec fn bytes_text(b: nat) -> Seq<char> {
    if b < 1024 {
        decimal(b) + "B"@
    } else if b < 0x10_0000 {
        two_decimals(round_half_even(b * 100, 1024)) + "KB"@
    } else if b < 0x4000_0000 {
        two_decimals(round_half_even(b * 100, 0x10_0000)) + "MB"@
    } else {
        two_decimals(round_half_even(as_f64(b) * 100, 0x4000_0000)) + "GB"@
    }
}

fn digit_text(d: u128) -> (r: String)
    requires
        d < 10,
    ensures
        r@ == seq![digit_char(d as nat)],
{
    let s = if d == 0 {
        proof { reveal_strlit("0"); }
        "0"
    } else if d == 1 {
        proof { reveal_strlit("1"); }
        "1"
    } else if d == 2 {
        proof { reveal_strlit("2"); }
        "2"
    } else if d == 3 {
        proof { reveal_strlit("3"); }
        "3"
    } else if d == 4 {
        proof { reveal_strlit("4"); }
        "4"
    } else if d == 5 {
        proof { reveal_strlit("5"); }
        "5"
    } else if d == 6 {
        proof { reveal_strlit("6"); }
        "6"
    } else if d == 7 {
        proof { reveal_strlit("7"); }
        "7"
    } else if d == 8 {
        proof { reveal_strlit("8"); }
        "8"
    } else {
        proof { reveal_strlit("9"); }
        "9"
    };
    let r = String::from_str(s);
    assert(r@ =~= seq![digit_char(d as nat)]);
    r
}

fn decimal_text(n: u128) -> (r: String)
    ensures
        r@ == decimal(n as nat),
    decreases n,
{
    if n < 10 {
        digit_text(n)
    } else {
        let head = decimal_text(n / 10);
        let tail = digit_text(n % 10);
        head.concat(tail.as_str())
    }
}

fn round_half_even_exec(n: u128, d: u128) -> (r: u128)
    requires
        d > 0,
        n / d < u128::MAX,
        d < 0x8000_0000_0000_0000_0000_0000_0000_0000,
    ensures
        r == round_half_even(n as nat, d as nat),
{
    let q = n / d;
    let rem = n % d;
    if 2 * rem > d || (2 * rem == d && q % 2 == 1) {
        q + 1
    } else {
        q
    }
}

fn two_decimals_text(h: u128) -> (r: String)
    ensures
        r@ == two_decimals(h as nat),
{
    let whole = decimal_text(h / 100);
    let tens = digit_text((h / 10) % 10);
    let ones = digit_text(h % 10);
    let r = whole.concat(".").concat(tens.as_str()).concat(ones.as_str());
    assert(r@ =~= two_decimals(h as nat));
    r
}

/// A duration in milliseconds as text: below a second in milliseconds
/// ("100ms"), below a minute in seconds with one decimal ("1.5s"), else in
/// minutes and whole seconds ("1m 5s").
pub fn format_duration(ms: u64) -> (r: String)
    ensures
        r@ == duration_text(ms as nat),
{
    if ms < 1000 {
        decimal_text(ms as u128).concat("ms")
    } else if ms < 60000 {
        let m = ms as u128;
        let tenths: u128 = if m % 100 == 50 && m % 500 != 250 {
            let c: u128 = if m < 2000 {
                62
            } else if m < 4000 {
                31
            } else if m < 8000 {
                78
            } else if m < 16000 {
                39
            } else if m < 32000 {
                82
            } else {
                41
            };
            if ((m % 125) * c) % 125 >= 63 {
                m / 100 + 1
            } else {
                m / 100
            }
        } else {
            round_half_even_exec(m, 100)
        };
        decimal_text(tenths / 10).concat(".").concat(decimal_text(tenths % 10).as_str()).concat(
            "s",
        )
    } else {
        decimal_text((ms / 60000) as u128).concat("m ").concat(
            decimal_text(((ms % 60000) / 1000) as u128).as_str(),
        ).concat("s")
    }
}

/// The binary64 value nearest to `b`, as an integer.
fn to_f64_value(b: u64) -> (r: u128)
    ensures
        r == as_f64(b as nat),
        r <= 0x4_0000_0000_0000_0000,
{
    let mut u: u128 = 1;
    let bb = b as u128;
    while !(bb < 0x20_0000_0000_0000 * u || u > bb)
        invariant
            u >= 1,
            u <= bb + 1,
            bb == b,
            bb < 0x1_0000_0000_0000_0000,
            f64_spacing(b as nat, 1) == f64_spacing(b as nat, u as nat),
        decreases bb + 1 - u,
    {
        u = 2 * u;
    }
    let k = round_half_even_exec(bb, u);
    assert(k <= bb / u + 1);
    assert(k * u <= bb + u) by (nonlinear_arith)
        requires
            k <= bb / u + 1,
            u >= 1,
    {
        assert((bb / u) * u <= bb);
    }
    k * u
}

/// A size in bytes as text: below 1024 in bytes ("100B"), otherwise in KB,
/// MB or GB (powers of 1024) with two decimals ("2.00KB").
pub fn format_bytes(bytes: u64) -> (r: String)
    ensures
        r@ == bytes_text(bytes as nat),
{
    let b = bytes as u128;
    if b < 1024 {
        decimal_text(b).concat("B")
    } else if b < 0x10_0000 {
        two_decimals_text(round_half_even_exec(b * 100, 1024)).concat("KB")
    } else if b < 0x4000_0000 {
        two_decimals_text(round_half_even_exec(b * 100, 0x10_0000)).concat("MB")
    } else {
        let v = to_f64_value(bytes);
        two_decimals_text(round_half_even_exec(v * 100, 0x4000_0000)).concat("GB")
    }
}

/// A response header.
#[derive(Debug, PartialEq, Eq)]
pub struct ResponseHeader {
    pub name: String,
    pub value: String,
}

impl Clone for ResponseHeader {
    fn clone(&self) -> (r: Self)
        ensures
            r == *self,
    {
        ResponseHeader { name: self.name.clone(), value: self.value.clone() }
    }
}

impl ResponseHeader {
    pub fn new(name: String, value: String) -> (r: Self)
        ensures
            r == (ResponseHeader { name, value }),
    {
        ResponseHeader { name, value }
    }
}

/// The body of a response.
#[derive(Clone, Debug, PartialEq)]
pub enum ResponseBody {
    Empty,
    Text(String),
    Json(serde_json::Value),
    Binary(Vec<u8>),
}

/// The text of bytes read as UTF-8, each invalid sequence replaced by U+FFFD.
pub uninterp spec fn utf8_lossy_of(b: Seq<u8>) -> Seq<char>;

/// Relies on the `Display` of `serde_json::Value`: compact JSON text.
#[verifier::external_body]
fn json_text(v: &serde_json::Value) -> (r: String) {
    v.to_string()
}

/// Relies on `String::from_utf8_lossy`: the bytes read as UTF-8, invalid
/// sequences replaced.
#[verifier::external_body]
fn utf8_lossy(b: &Vec<u8>) -> (r: String)
    ensures
        r@ == utf8_lossy_of(b@),
{
    String::from_utf8_lossy(b).to_string()
}

impl ResponseBody {
    pub fn is_empty(&self) -> (r: bool)
        ensures
            r == (*self is Empty),
    {
        match self {
            ResponseBody::Empty => true,
            _ => false,
        }
    }

    /// The length of the body in bytes (of its compact text, for JSON).
    pub fn len(&self) -> (r: usize)
        ensures
            match self {
                ResponseBody::Empty => r == 0,
                ResponseBody::Text(s) => r == encode_utf8(s@).len() as usize,
                ResponseBody::Binary(b) => r == b@.len(),
                ResponseBody::Json(_) => true,
            },
    {
        match self {
            ResponseBody::Empty => 0,
            ResponseBody::Text(s) => s.as_str().len(),
            ResponseBody::Json(v) => json_text(v).as_str().len(),
            ResponseBody::Binary(b) => b.len(),
        }
    }
}

/// SameSite attribute of a cookie.
#[derive(Clone, Copy, Debug, PartialEq, Eq, Structural)]
pub enum SameSite {
    Strict,
    Lax,
    /// Sent with cross-site requests too (`SameSite=None`).
    Unrestricted,
}

/// A cookie set by a response.
#[derive(Clone, Debug, PartialEq, Eq)]
pub struct Cookie {
    pub name: String,
    pub value: String,
    pub domain: Option<String>,
    pub path: Option<String>,
    pub expires: Option<Timestamp>,
    pub http_only: bool,
    pub secure: bool,
    pub same_site: Option<SameSite>,
}

/// Outcome of one test of a response script.
#[derive(Debug, PartialEq)]
pub struct TestResult {
    pub name: String,
    pub passed: bool,
    pub error_message: Option<String>,
    pub duration_ms: Option<u64>,
}

impl Clone for TestResult {
    fn clone(&self) -> (r: Self)
        ensures
            r == *self,
    {
        TestResult {
            name: self.name.clone(),
            passed: self.passed,
            error_message: match &self.error_message {
                Some(m) => Some(m.clone()),
                None => None,
            },
            duration_ms: self.duration_ms,
        }
    }
}

impl TestResult {
    pub fn passed(name: String) -> (r: Self)
        ensures
            r == (TestResult { name, passed: true, error_message: None, duration_ms: None }),
    {
        TestResult { name, passed: true, error_message: None, duration_ms: None }
    }

    pub fn failed(name: String, error_message: String) -> (r: Self)
        ensures
            r == (TestResult {
                name,
                passed: false,
                error_message: Some(error_message),
                duration_ms: None,
            }),
    {
        TestResult { name, passed: false, error_message: Some(error_message), duration_ms: None }
    }
}

/// An error met while making a request.
#[derive(Clone, Debug, PartialEq)]
pub struct ResponseError {
    pub code: String,
    pub message: String,
    pub stack: Option<String>,
}

/// Why a body could not be read as JSON.
#[derive(Clone, Debug, PartialEq, Eq)]
pub enum JsonError {
    Empty,
    NotJson,
    Parse(String),
}

impl JsonError {
    /// The text that describes this error.
    pub fn message(&self) -> (r: String)
        ensures
            r@ == match *self {
                JsonError::Empty => "Response body is empty"@,
                JsonError::NotJson => "Response is not JSON"@,
                JsonError::Parse(m) => "Failed to parse JSON: "@ + m@,
            },
    {
        match self {
            JsonError::Empty => String::from_str("Response body is empty"),
            JsonError::NotJson => String::from_str("Response is not JSON"),
            JsonError::Parse(m) => String::from_str("Failed to parse JSON: ").concat(m.as_str()),
        }
    }
}

/// A character with ASCII letters folded to lowercase.
pub open spec fn fold_ascii(c: char) -> int {
    if 'A' <= c && c <= 'Z' {
        (c as u32) + 32
    } else {
        (c as u32) as int
    }
}

/// Equality of texts up to the case of ASCII letters.
pub open spec fn eq_ignore_ascii_case(a: Seq<char>, b: Seq<char>) -> bool {
    a.len() == b.len() && forall|i: int| 0 <= i < a.len() ==> fold_ascii(a[i]) == fold_ascii(b[i])
}

fn same_ignoring_ascii_case(a: &str, b: &str) -> (r: bool)
    ensures
        r == eq_ignore_ascii_case(a@, b@),
{
    let n = a.unicode_len();
    if n != b.unicode_len() {
        return false;
    }
    let mut i: usize = 0;
    while i < n
        invariant
            n == a@.len(),
            n == b@.len(),
            i <= n,
            forall|j: int| 0 <= j < i ==> fold_ascii(a@[j]) == fold_ascii(b@[j]),
        decreases n - i,
    {
        let x = a.get_char(i);
        let y = b.get_char(i);
        let fx: u32 = if 'A' <= x && x <= 'Z' {
            (x as u32) + 32
        } else {
            x as u32
        };
        let fy: u32 = if 'A' <= y && y <= 'Z' {
            (y as u32) + 32
        } else {
            y as u32
        };
        if fx != fy {
            return false;
        }
        i = i + 1;
    }
    true
}

/// The position of the first `;` of `s`, or its length.
pub open spec fn semicolon_index(s: Seq<char>) -> int
    decreases s.len(),
{
    if s.len() == 0 {
        0
    } else if s[0] == ';' {
        0
    } else {
        1 + semicolon_index(s.drop_first())
    }
}

fn before_semicolon(s: &str) -> (r: String)
    ensures
        r@ == s@.take(semicolon_index(s@)),
{
    let n = s.unicode_len();
    let mut i: usize = 0;
    assert(s@.skip(0) =~= s@);
    while i < n && s.get_char(i) != ';'
        invariant
            n == s@.len(),
            i <= n,
            semicolon_index(s@) == i + semicolon_index(s@.skip(i as int)),
        decreases n - i,
    {
        assert(s@.skip(i as int).drop_first() =~= s@.skip(i + 1));
        i = i + 1;
    }
    proof {
        if i < n {
            assert(s@.skip(i as int)[0] == s@[i as int]);
        } else {
            assert(s@.skip(i as int).len() == 0);
        }
    }
    String::from_str(s.substring_char(0, i))
}

/// The first header of `h` named `name`, ignoring ASCII case.
pub open spec fn header_index(h: Seq<ResponseHeader>, name: Seq<char>) -> int
    decreases h.len(),
{
    if h.len() == 0 {
        -1
    } else if eq_ignore_ascii_case(h[0].name@, name) {
        0
    } else {
        let i = header_index(h.drop_first(), name);
        if i < 0 {
            -1
        } else {
            i + 1
        }
    }
}

/// The tests of `t` that passed (`passed` true) or failed, in order.
pub open spec fn tests_with(t: Seq<TestResult>, passed: bool) -> Seq<TestResult>
    decreases t.len(),
{
    if t.len() == 0 {
        t
    } else if t.last().passed == passed {
        tests_with(t.drop_last(), passed).push(t.last())
    } else {
        tests_with(t.drop_last(), passed)
    }
}

/// An HTTP response.
#[derive(Clone, Debug, PartialEq)]
pub struct Response {
    pub status_code: u16,
    pub status_text: String,
    pub headers: Vec<ResponseHeader>,
    pub body: ResponseBody,
    pub duration_ms: u64,
    pub size: u64,
    pub cookies: Vec<Cookie>,
    pub received_at: Timestamp,
    pub test_results: Vec<TestResult>,
    pub errors: Vec<ResponseError>,
}

impl Response {
    pub fn new(status_code: u16, status_text: String) -> (r: Self)
        ensures
            r.status_code == status_code,
            r.status_text == status_text,
            r.headers@.len() == 0,
            r.body is Empty,
            r.duration_ms == 0,
            r.size == 0,
            r.cookies@.len() == 0,
            r.test_results@.len() == 0,
            r.errors@.len() == 0,
    {
        Response {
            status_code,
            status_text,
            headers: Vec::new(),
            body: ResponseBody::Empty,
            duration_ms: 0,
            size: 0,
            cookies: Vec::new(),
            received_at: now(),
            test_results: Vec::new(),
            errors: Vec::new(),
        }
    }

    /// The response that stands for a failed request: status 0, the message
    /// as its text body and one `REQUEST_ERROR`.
    pub fn error(message: String) -> (r: Self)
        ensures
            r.status_code == 0,
            r.status_text@ == "Error"@,
            r.body == ResponseBody::Text(message),
            r.errors@.len() == 1,
            r.errors@[0].code@ == "REQUEST_ERROR"@,
            r.errors@[0].message == message,
            r.errors@[0].stack is None,
    {
        let body_text = message.clone();
        let mut errors: Vec<ResponseError> = Vec::new();
        errors.push(
            ResponseError { code: String::from_str("REQUEST_ERROR"), message, stack: None },
        );
        Response {
            status_code: 0,
            status_text: String::from_str("Error"),
            headers: Vec::new(),
            body: ResponseBody::Text(body_text),
            duration_ms: 0,
            size: 0,
            cookies: Vec::new(),
            received_at: now(),
            test_results: Vec::new(),
            errors,
        }
    }

    /// 2xx.
    pub fn is_success(&self) -> (r: bool)
        ensures
            r == (200 <= self.status_code < 300),
    {
        200 <= self.status_code && self.status_code < 300
    }

    /// 3xx.
    pub fn is_redirect(&self) -> (r: bool)
        ensures
            r == (300 <= self.status_code < 400),
    {
        300 <= self.status_code && self.status_code < 400
    }

    /// 4xx.
    pub fn is_client_error(&self) -> (r: bool)
        ensures
            r == (400 <= self.status_code < 500),
    {
        400 <= self.status_code && self.status_code < 500
    }

    /// 5xx.
    pub fn is_server_error(&self) -> (r: bool)
        ensures
            r == (500 <= self.status_code < 600),
    {
        500 <= self.status_code && self.status_code < 600
    }

    fn header_position(&self, name: &str) -> (r: Option<usize>)
        ensures
            r matches Some(i) ==> i == header_index(self.headers@, name@) && i
                < self.headers@.len(),
            r is None ==> header_index(self.headers@, name@) == -1,
    {
        let mut i: usize = 0;
        while i < self.headers.len()
            invariant
                i <= self.headers@.len(),
                forall|j: int|
                    0 <= j < i ==> !eq_ignore_ascii_case(self.headers@[j].name@, name@),
            decreases self.headers@.len() - i,
        {
            if same_ignoring_ascii_case(self.headers[i].name.as_str(), name) {
                proof {
                    lemma_header_index(self.headers@, name@, i as int);
                }
                return Some(i);
            }
            i = i + 1;
        }
        proof {
            lemma_header_index(self.headers@, name@, self.headers@.len() as int);
        }
        None
    }

    /// The media type of the first `Content-Type` header (any case), without
    /// its parameters.
    pub fn content_type(&self) -> (r: Option<String>)
        ensures
            ({
                let i = header_index(self.headers@, "content-type"@);
                if i < 0 {
                    r is None
                } else {
                    r matches Some(t) && t@ == self.headers@[i].value@.take(
                        semicolon_index(self.headers@[i].value@),
                    )
                }
            }),
    {
        match self.header_position("content-type") {
            Some(i) => Some(before_semicolon(self.headers[i].value.as_str())),
            None => None,
        }
    }

    /// The value of the first header named `name`, ignoring ASCII case.
    pub fn get_header(&self, name: &str) -> (r: Option<&String>)
        ensures
            ({
                let i = header_index(self.headers@, name@);
                if i < 0 {
                    r is None
                } else {
                    r matches Some(v) && *v == self.headers@[i].value
                }
            }),
    {
        match self.header_position(name) {
            Some(i) => Some(&self.headers[i].value),
            None => None,
        }
    }

    /// The body as a JSON document.
    pub fn json(&self) -> (r: Result<serde_json::Value, JsonError>)
        ensures
            match self.body {
                ResponseBody::Json(v) => r == Ok::<serde_json::Value, JsonError>(v),
                ResponseBody::Text(t) => (r is Ok <==> is_json_text(t@)) && (r is Err ==> r->Err_0
                    is Parse),
                ResponseBody::Empty => r == Err::<serde_json::Value, JsonError>(JsonError::Empty),
                ResponseBody::Binary(_) => r == Err::<serde_json::Value, JsonError>(
                    JsonError::NotJson,
                ),
            },
    {
        match &self.body {
            ResponseBody::Json(value) => Ok(value.clone()),
            ResponseBody::Text(text) => match parse_json(text.as_str()) {
                Ok(v) => Ok(v),
                Err(m) => Err(JsonError::Parse(m)),
            },
            ResponseBody::Empty => Err(JsonError::Empty),
            ResponseBody::Binary(_) => Err(JsonError::NotJson),
        }
    }

    /// The body as text: JSON in compact form, bytes read as UTF-8 with
    /// invalid sequences replaced.
    pub fn text(&self) -> (r: String)
        ensures
            match self.body {
                ResponseBody::Text(t) => r == t,
                ResponseBody::Empty => r@.len() == 0,
                ResponseBody::Binary(b) => r@ == utf8_lossy_of(b@),
                ResponseBody::Json(_) => true,
            },
    {
        match &self.body {
            ResponseBody::Text(text) => text.clone(),
            ResponseBody::Json(value) => json_text(value),
            ResponseBody::Empty => String::new(),
            ResponseBody::Binary(data) => utf8_lossy(data),
        }
    }

    /// The body as bytes: text as UTF-8, JSON as its compact text.
    pub fn bytes(&self) -> (r: Vec<u8>)
        ensures
            match self.body {
                ResponseBody::Text(t) => r@ == encode_utf8(t@),
                ResponseBody::Empty => r@.len() == 0,
                ResponseBody::Binary(b) => r@ == b@,
                ResponseBody::Json(_) => true,
            },
    {
        match &self.body {
            ResponseBody::Text(text) => text.as_str().as_bytes_vec(),
            ResponseBody::Json(value) => json_text(value).as_str().as_bytes_vec(),
            ResponseBody::Empty => Vec::new(),
            ResponseBody::Binary(data) => {
                let mut out: Vec<u8> = Vec::new();
                let mut i: usize = 0;
                while i < data.len()
                    invariant
                        i <= data@.len(),
                        out@ == data@.take(i as int),
                    decreases data@.len() - i,
                {
                    out.push(data[i]);
                    i = i + 1;
                    assert(out@ =~= data@.take(i as int));
                }
                assert(data@.take(i as int) =~= data@);
                out
            },
        }
    }

    pub fn duration_str(&self) -> (r: String)
        ensures
            r@ == duration_text(self.duration_ms as nat),
    {
        format_duration(self.duration_ms)
    }

    pub fn size_str(&self) -> (r: String)
        ensures
            r@ == bytes_text(self.size as nat),
    {
        format_bytes(self.size)
    }

    pub fn add_test_result(&mut self, result: TestResult)
        ensures
            final(self).test_results@ == old(self).test_results@.push(result),
            *final(self) == (Response { test_results: final(self).test_results, ..*old(self) }),
    {
        self.test_results.push(result);
    }

    /// The tests that passed, in order.
    pub fn passed_tests(&self) -> (r: Vec<&TestResult>)
        ensures
            r@.len() == tests_with(self.test_results@, true).len(),
            forall|k: int|
                0 <= k < r@.len() ==> *r@[k] == tests_with(self.test_results@, true)[k],
    {
        self.tests_by_outcome(true)
    }

    /// The tests that failed, in order.
    pub fn failed_tests(&self) -> (r: Vec<&TestResult>)
        ensures
            r@.len() == tests_with(self.test_results@, false).len(),
            forall|k: int|
                0 <= k < r@.len() ==> *r@[k] == tests_with(self.test_results@, false)[k],
    {
        self.tests_by_outcome(false)
    }

    fn tests_by_outcome(&self, passed: bool) -> (r: Vec<&TestResult>)
        ensures
            r@.len() == tests_with(self.test_results@, passed).len(),
            forall|k: int|
                0 <= k < r@.len() ==> *r@[k] == tests_with(self.test_results@, passed)[k],
    {
        let mut out: Vec<&TestResult> = Vec::new();
        let mut i: usize = 0;
        while i < self.test_results.len()
            invariant
                i <= self.test_results@.len(),
                out@.len() == tests_with(self.test_results@.take(i as int), passed).len(),
                forall|k: int|
                    0 <= k < out@.len() ==> *out@[k] == tests_with(
                        self.test_results@.take(i as int),
                        passed,
                    )[k],
            decreases self.test_results@.len() - i,
        {
            proof {
                assert(self.test_results@.take(i + 1).drop_last() =~= self.test_results@.take(
                    i as int,
                ));
            }
            if self.test_results[i].passed == passed {
                out.push(&self.test_results[i]);
            }
            i = i + 1;
        }
        assert(self.test_results@.take(i as int) =~= self.test_results@);
        out
    }

    /// Whether every test passed (true when there are none).
    pub fn all_tests_passed(&self) -> (r: bool)
        ensures
            r == (forall|k: int|
                0 <= k < self.test_results@.len() ==> #[trigger] self.test_results@[k].passed),
    {
        let mut i: usize = 0;
        while i < self.test_results.len()
            invariant
                i <= self.test_results@.len(),
                forall|k: int| 0 <= k < i ==> #[trigger] self.test_results@[k].passed,
            decreases self.test_results@.len() - i,
        {
            if !self.test_results[i].passed {
                return false;
            }
            i = i + 1;
        }
        true
    }
}

proof fn lemma_header_index(h: Seq<ResponseHeader>, name: Seq<char>, i: int)
    requires
        0 <= i <= h.len(),
        forall|j: int| 0 <= j < i ==> !eq_ignore_ascii_case(h[j].name@, name),
        i < h.len() ==> eq_ignore_ascii_case(h[i].name@, name),
    ensures
        header_index(h, name) == if i < h.len() {
            i
        } else {
            -1
        },
    decreases h.len(),
{
    if h.len() > 0 && i > 0 {
        let rest = h.drop_first();
        assert forall|j: int| 0 <= j < i - 1 implies !eq_ignore_ascii_case(rest[j].name@, name) by {
            assert(rest[j] == h[j + 1]);
        }
        if i < h.len() {
            assert(rest[i - 1] == h[i]);
        }
        lemma_header_index(rest, name, i - 1);
        assert(!eq_ignore_ascii_case(h[0].name@, name));
    }
}

} // verus!
