//! The file-serving collaborator's stateless logic: status codes, the
//! request-line grammar, content-type lookup, and response framing.
//!
//! The embedding does the reading and writing: it hands in the first line
//! of a request and the outcome of the file lookup as plain values, and
//! sends the finished response string back over the connection.

use vstd::prelude::*;

verus! {

/// The status codes this server can answer with.
#[derive(Clone, Copy, Debug, PartialEq, Eq, Structural)]
#[allow(non_camel_case_types)]
pub enum HTTP_RESPONSE_CODE {
    HTTP_200_OK,
    HTTP_400_BAD_REQUEST,
    HTTP_404_NOT_FOUND,
    HTTP_501_NOT_IMPLEMENTED,
    HTTP_505_HTTP_VERSION_NOT_SUPPORTED,
}

/// The text that follows `HTTP/1.1 ` in the status line of a response
/// with this code.
pub open spec fn spec_status_text(code: HTTP_RESPONSE_CODE) -> Seq<char> {
    match code {
        HTTP_RESPONSE_CODE::HTTP_200_OK => "200 OK"@,
        HTTP_RESPONSE_CODE::HTTP_400_BAD_REQUEST => "400 BAD REQUEST"@,
        HTTP_RESPONSE_CODE::HTTP_404_NOT_FOUND => "404 NOT FOUND"@,
        HTTP_RESPONSE_CODE::HTTP_501_NOT_IMPLEMENTED => "501 NOT IMPLEMENTED"@,
        HTTP_RESPONSE_CODE::HTTP_505_HTTP_VERSION_NOT_SUPPORTED => "HTTP_505_HTTP_VERSION_NOT_SUPPORTED"@,
    }
}

/// The name of the code itself, as a diagnostic.
pub open spec fn spec_code_name(code: HTTP_RESPONSE_CODE) -> Seq<char> {
    match code {
        HTTP_RESPONSE_CODE::HTTP_200_OK => "HTTP_200_OK"@,
        HTTP_RESPONSE_CODE::HTTP_400_BAD_REQUEST => "HTTP_400_BAD_REQUEST"@,
        HTTP_RESPONSE_CODE::HTTP_404_NOT_FOUND => "HTTP_404_NOT_FOUND"@,
        HTTP_RESPONSE_CODE::HTTP_501_NOT_IMPLEMENTED => "HTTP_501_NOT_IMPLEMENTED"@,
        HTTP_RESPONSE_CODE::HTTP_505_HTTP_VERSION_NOT_SUPPORTED => "HTTP_505_HTTP_VERSION_NOT_SUPPORTED"@,
    }
}

impl HTTP_RESPONSE_CODE {
    /// The human-readable status text, e.g. `200 OK`.
    pub fn status_text(&self) -> (r: &'static str)
        ensures
            r@ == spec_status_text(*self),
    {
        match self {
            HTTP_RESPONSE_CODE::HTTP_200_OK => "200 OK",
            HTTP_RESPONSE_CODE::HTTP_400_BAD_REQUEST => "400 BAD REQUEST",
            HTTP_RESPONSE_CODE::HTTP_404_NOT_FOUND => "404 NOT FOUND",
            HTTP_RESPONSE_CODE::HTTP_501_NOT_IMPLEMENTED => "501 NOT IMPLEMENTED",
            HTTP_RESPONSE_CODE::HTTP_505_HTTP_VERSION_NOT_SUPPORTED => {
                "HTTP_505_HTTP_VERSION_NOT_SUPPORTED"
            },
        }
    }

    /// The code's own name, e.g. `HTTP_404_NOT_FOUND`, for log lines.
    pub fn code_name(&self) -> (r: &'static str)
        ensures
            r@ == spec_code_name(*self),
    {
        match self {
            HTTP_RESPONSE_CODE::HTTP_200_OK => "HTTP_200_OK",
            HTTP_RESPONSE_CODE::HTTP_400_BAD_REQUEST => "HTTP_400_BAD_REQUEST",
            HTTP_RESPONSE_CODE::HTTP_404_NOT_FOUND => "HTTP_404_NOT_FOUND",
            HTTP_RESPONSE_CODE::HTTP_501_NOT_IMPLEMENTED => "HTTP_501_NOT_IMPLEMENTED",
            HTTP_RESPONSE_CODE::HTTP_505_HTTP_VERSION_NOT_SUPPORTED => {
                "HTTP_505_HTTP_VERSION_NOT_SUPPORTED"
            },
        }
    }
}

/// `p` occurs in `s` starting at position `i`.
pub open spec fn matches_at(s: Seq<char>, i: int, p: Seq<char>) -> bool {
    &&& 0 <= i
    &&& i + p.len() <= s.len()
    &&& forall|k: int| 0 <= k < p.len() ==> s[i + k] == p[k]
}

/// Whether `p` occurs in `s` at position `i`; bounds are checked, not assumed.
fn str_matches_at(s: &str, i: usize, p: &str) -> (r: bool)
    ensures
        r == matches_at(s@, i as int, p@),
{
    let n = s.unicode_len();
    let m = p.unicode_len();
    if m > n || i > n - m {
        return false;
    }
    let mut k: usize = 0;
    while k < m
        invariant
            i + m <= n,
            n == s@.len(),
            m == p@.len(),
            k <= m,
            forall|t: int| 0 <= t < k ==> s@[i + t] == p@[t],
        decreases m - k,
    {
        if s.get_char(i + k) != p.get_char(k) {
            return false;
        }
        k = k + 1;
    }
    true
}

/// A `GET` request line carries one of the accepted protocol versions at
/// position `i`.
pub open spec fn version_at(s: Seq<char>, i: int) -> bool {
    matches_at(s, i, " HTTP/1.1"@) || matches_at(s, i, " HTTP/2"@)
}

/// The request line splits into `GET /`, a path ending at `i`, and an
/// accepted protocol version, with the path not beginning with a second
/// slash, and `i` the last position where a version occurs — the path is
/// matched greedily, so a version marker inside the path is swallowed when
/// another follows it.
pub open spec fn path_split(s: Seq<char>, i: int) -> bool {
    &&& matches_at(s, 0, "GET /"@)
    &&& 5 <= i <= s.len()
    &&& version_at(s, i)
    &&& i == 5 || s[5] != '/'
    &&& forall|j: int| i < j <= s.len() ==> !version_at(s, j)
}

/// There is at most one way to split a request line: the split position,
/// and with it the path, is pinned.
pub proof fn lemma_path_split_unique(s: Seq<char>, i1: int, i2: int)
    requires
        path_split(s, i1),
        path_split(s, i2),
    ensures
        i1 == i2,
{
    if i1 < i2 {
        assert(version_at(s, i2));
    }
    if i2 < i1 {
        assert(version_at(s, i1));
    }
}

/// The request line is an accepted `GET`: it splits somewhere.
pub open spec fn spec_request_parses(s: Seq<char>) -> bool {
    &&& matches_at(s, 0, "GET /"@)
    &&& exists|i: int| 5 <= i <= s.len() && (#[trigger] version_at(s, i)) && (i == 5 || s[5] != '/')
}

fn version_at_exec(s: &str, i: usize) -> (r: bool)
    ensures
        r == version_at(s@, i as int),
{
    str_matches_at(s, i, " HTTP/1.1") || str_matches_at(s, i, " HTTP/2")
}

/// Parse a request line to the path of the file asked for: the text
/// between `GET /` and the last ` HTTP/1.1` or ` HTTP/2` marker. Anything
/// else — another method, a path starting `//`, a missing version — is a
/// bad request.
pub fn parse_header_to_filepath(request: String) -> (r: Result<String, HTTP_RESPONSE_CODE>)
    ensures
        r matches Ok(path) ==> path_split(request@, 5 + path@.len() as int) && path@
            == request@.subrange(5, 5 + path@.len() as int),
        r matches Err(code) ==> code == HTTP_RESPONSE_CODE::HTTP_400_BAD_REQUEST
            && !spec_request_parses(request@),
        r is Ok <==> spec_request_parses(request@),
{
    let s = request.as_str();
    let n = s.unicode_len();
    if !str_matches_at(s, 0, "GET /") {
        return Err(HTTP_RESPONSE_CODE::HTTP_400_BAD_REQUEST);
    }
    proof {
        reveal_strlit("GET /");
    }
    let mut i: usize = n;
    let mut split: Option<usize> = None;
    while split.is_none() && i >= 5
        invariant
            i <= n,
            n == s@.len(),
            n >= 5,
            split matches Some(v) ==> 5 <= v <= n && version_at(s@, v as int) && (forall|j: int|
                v < j <= n ==> !version_at(s@, j)),
            split is None ==> forall|j: int| i < j <= n ==> !version_at(s@, j),
        decreases (if split is None { 1int } else { 0int }), i,
    {
        if version_at_exec(s, i) {
            split = Some(i);
        } else {
            i = i - 1;
        }
    }
    match split {
        None => {
            proof {
                assert(forall|j: int| 5 <= j <= n ==> !version_at(s@, j));
            }
            Err(HTTP_RESPONSE_CODE::HTTP_400_BAD_REQUEST)
        },
        Some(v) => {
            if v > 5 && s.get_char(5) == '/' {
                proof {
                    reveal_strlit(" HTTP/1.1");
                    reveal_strlit(" HTTP/2");
                    assert forall|j: int| 5 <= j <= n implies !(version_at(s@, j) && (j == 5
                        || s@[5] != '/')) by {
                        if version_at(s@, j) && j == 5 {
                            if matches_at(s@, 5, " HTTP/1.1"@) {
                                assert(s@[5int + 0] == " HTTP/1.1"@[0int]);
                            } else {
                                assert(s@[5int + 0] == " HTTP/2"@[0int]);
                            }
                            assert(s@[5] == ' ');
                        }
                    }
                }
                Err(HTTP_RESPONSE_CODE::HTTP_400_BAD_REQUEST)
            } else {
                let path = s.substring_char(5, v).to_owned();
                Ok(path)
            }
        },
    }
}

/// A lower-case ASCII letter, the only characters an extension may hold.
pub open spec fn is_lower(c: char) -> bool {
    97 <= (c as u32) <= 122
}

/// The last `n` characters of `s` form its extension: all lower-case
/// letters, at least one, with a dot just before them.
pub open spec fn ext_split(s: Seq<char>, n: int) -> bool {
    &&& 1 <= n
    &&& n + 1 <= s.len()
    &&& s[s.len() - n - 1] == '.'
    &&& forall|k: int| s.len() - n <= k < s.len() ==> is_lower(#[trigger] s[k])
}

/// The file name has an extension.
pub open spec fn has_extension(s: Seq<char>) -> bool {
    exists|n: int| ext_split(s, n)
}

/// The extension itself. Meaningful only when `has_extension(s)`; the
/// split is unique, since a dot is not a lower-case letter.
pub open spec fn spec_extension(s: Seq<char>) -> Seq<char> {
    s.skip(s.len() - choose|n: int| ext_split(s, n))
}

/// There is at most one way to split an extension off a file name.
pub proof fn lemma_ext_split_unique(s: Seq<char>, n1: int, n2: int)
    requires
        ext_split(s, n1),
        ext_split(s, n2),
    ensures
        n1 == n2,
{
    if n1 < n2 {
        assert(is_lower(s[s.len() - n1 - 1]));
    }
    if n2 < n1 {
        assert(is_lower(s[s.len() - n2 - 1]));
    }
}

fn is_lower_exec(c: char) -> (r: bool)
    ensures
        r == is_lower(c),
{
    let v = c as u32;
    97 <= v && v <= 122
}

/// The extension of a file name: its maximal suffix of lower-case letters,
/// provided it is non-empty and a dot stands just before it.
pub fn get_file_extension(filename: String) -> (r: Option<String>)
    ensures
        r matches Some(ext) ==> ext_split(filename@, ext@.len() as int) && ext@
            == filename@.skip(filename@.len() - ext@.len()),
        r is None ==> !has_extension(filename@),
        r is Some <==> has_extension(filename@),
{
    let s = filename.as_str();
    let n = s.unicode_len();
    let mut m: usize = 0;
    while m < n && is_lower_exec(s.get_char(n - m - 1))
        invariant
            m <= n,
            n == s@.len(),
            forall|k: int| n - m <= k < n ==> is_lower(#[trigger] s@[k]),
        decreases n - m,
    {
        m = m + 1;
    }
    if 1 <= m && m < n && s.get_char(n - m - 1) == '.' {
        let ext = s.substring_char(n - m, n).to_owned();
        proof {
            assert(ext_split(s@, m as int));
        }
        Some(ext)
    } else {
        proof {
            assert forall|k: int| !ext_split(s@, k) by {
                if ext_split(s@, k) {
                    if k > m {
                        assert(is_lower(s@[n - m - 1]));
                    } else if k < m {
                        assert(is_lower(s@[n - k - 1]));
                    }
                }
            }
        }
        None
    }
}

/// The `Content-Type` header sent for a given extension, when the server
/// knows one.
pub open spec fn spec_content_type(ext: Seq<char>) -> Option<Seq<char>> {
    if ext == "js"@ {
        Some("Content-Type: text/javascript"@)
    } else if ext == "html"@ {
        Some("Content-Type: text/html"@)
    } else if ext == "css"@ {
        Some("Content-Type: text/css"@)
    } else if ext == "png"@ {
        Some("Content-Type: image/png"@)
    } else if ext == "jpg"@ {
        Some("Content-Type: image/jpeg"@)
    } else if ext == "jpeg"@ {
        Some("Content-Type: image/jpeg"@)
    } else {
        None
    }
}

/// The `Content-Type` header for a file name, when it has an extension the
/// server knows.
pub open spec fn spec_content_type_of(name: Seq<char>) -> Option<Seq<char>> {
    if has_extension(name) {
        spec_content_type(spec_extension(name))
    } else {
        None
    }
}

/// The `Content-Type` header line for a file, from its extension; `None`
/// for an unknown or missing extension, in which case no such header is
/// sent.
pub fn get_content_type(filename: String) -> (r: Option<String>)
    ensures
        r matches Some(ct) ==> spec_content_type_of(filename@) matches Some(v) && ct@ == v,
        r is None ==> spec_content_type_of(filename@) is None,
{
    let ext = match get_file_extension(filename) {
        Some(e) => e,
        None => {
            return None;
        },
    };
    proof {
        lemma_ext_split_unique(
            filename@,
            ext@.len() as int,
            choose|n: int| ext_split(filename@, n),
        );
    }
    if ext == String::from_str("js") {
        Some(String::from_str("Content-Type: text/javascript"))
    } else if ext == String::from_str("html") {
        Some(String::from_str("Content-Type: text/html"))
    } else if ext == String::from_str("css") {
        Some(String::from_str("Content-Type: text/css"))
    } else if ext == String::from_str("png") {
        Some(String::from_str("Content-Type: image/png"))
    } else if ext == String::from_str("jpg") {
        Some(String::from_str("Content-Type: image/jpeg"))
    } else if ext == String::from_str("jpeg") {
        Some(String::from_str("Content-Type: image/jpeg"))
    } else {
        None
    }
}

/// The file actually served for a requested path: an empty path means the
/// site's index page.
pub open spec fn spec_resolved(name: Seq<char>) -> Seq<char> {
    if name.len() == 0 {
        "index.html"@
    } else {
        name
    }
}

/// Map an empty requested path to `index.html`; any other path is served
/// as named.
pub fn resolve_filename(filename: String) -> (r: String)
    ensures
        r@ == spec_resolved(filename@),
{
    if filename.as_str().is_empty() {
        String::from_str("index.html")
    } else {
        filename
    }
}

/// Fold the collaborator's file lookup into the response pipeline: a file
/// that was found is served; one that was not is a `404`.
pub fn read_file_result(found: Option<String>) -> (r: Result<String, HTTP_RESPONSE_CODE>)
    ensures
        found matches Some(contents) ==> r matches Ok(c) && c == contents,
        found is None ==> r == Err::<String, HTTP_RESPONSE_CODE>(
            HTTP_RESPONSE_CODE::HTTP_404_NOT_FOUND,
        ),
{
    match found {
        Some(contents) => Ok(contents),
        None => Err(HTTP_RESPONSE_CODE::HTTP_404_NOT_FOUND),
    }
}

/// Fold the connection read into the pipeline: a connection whose first
/// line could not be read is a bad request.
pub fn request_line_result(line: Option<String>) -> (r: Result<String, HTTP_RESPONSE_CODE>)
    ensures
        line matches Some(l) ==> r matches Ok(v) && v == l,
        line is None ==> r == Err::<String, HTTP_RESPONSE_CODE>(
            HTTP_RESPONSE_CODE::HTTP_400_BAD_REQUEST,
        ),
{
    match line {
        Some(l) => Ok(l),
        None => Err(HTTP_RESPONSE_CODE::HTTP_400_BAD_REQUEST),
    }
}

/// The decimal digit for a value below ten.
pub open spec fn spec_digit(d: nat) -> char {
    if d == 0 {
        '0'
    } else if d == 1 {
        '1'
    } else if d == 2 {
        '2'
    } else if d == 3 {
        '3'
    } else if d == 4 {
        '4'
    } else if d == 5 {
        '5'
    } else if d == 6 {
        '6'
    } else if d == 7 {
        '7'
    } else if d == 8 {
        '8'
    } else {
        '9'
    }
}

/// The usual decimal rendering of a number, most significant digit first,
/// no leading zeros (a lone zero for zero itself).
pub open spec fn spec_dec(n: nat) -> Seq<char>
    decreases n,
{
    if n < 10 {
        seq![spec_digit(n)]
    } else {
        spec_dec(n / 10).push(spec_digit(n % 10))
    }
}

fn digit_str(d: usize) -> (r: &'static str)
    requires
        d < 10,
    ensures
        r@ == seq![spec_digit(d as nat)],
{
    let r: &'static str = if d == 0 {
        "0"
    } else if d == 1 {
        "1"
    } else if d == 2 {
        "2"
    } else if d == 3 {
        "3"
    } else if d == 4 {
        "4"
    } else if d == 5 {
        "5"
    } else if d == 6 {
        "6"
    } else if d == 7 {
        "7"
    } else if d == 8 {
        "8"
    } else {
        "9"
    };
    proof {
        reveal_strlit("0");
        reveal_strlit("1");
        reveal_strlit("2");
        reveal_strlit("3");
        reveal_strlit("4");
        reveal_strlit("5");
        reveal_strlit("6");
        reveal_strlit("7");
        reveal_strlit("8");
        reveal_strlit("9");
        assert(r@ =~= seq![spec_digit(d as nat)]);
    }
    r
}

/// Render a length in decimal, for the `Content-Length` header.
pub fn usize_to_string(n: usize) -> (r: String)
    ensures
        r@ == spec_dec(n as nat),
    decreases n,
{
    if n < 10 {
        String::from_str(digit_str(n))
    } else {
        let mut front = usize_to_string(n / 10);
        front.append(digit_str(n % 10));
        proof {
            assert(front@ =~= spec_dec(n as nat));
        }
        front
    }
}

/// The byte length of a string's UTF-8 encoding, as `str::len` reports
/// it: what `Content-Length` counts.
pub open spec fn spec_byte_len(s: Seq<char>) -> nat {
    (vstd::utf8::encode_utf8(s).len() as usize) as nat
}

/// The line separator of the wire format.
pub open spec fn spec_crlf() -> Seq<char> {
    seq!['\r', '\n']
}

/// The fixed fallback page sent whenever parsing or the file lookup fails.
pub open spec fn spec_fallback_body() -> Seq<char> {
    "<!DOCTYPE html><html><head><meta charset=\"utf-8\"><title>404 NOT FOUND</title></head><body>Page not found. Check that you typed the address correctly, or contact the site owner.</body></html>"@
}

/// The fallback page as a value, for the embedding and for tests.
pub fn fallback_body() -> (r: &'static str)
    ensures
        r@ == spec_fallback_body(),
{
    "<!DOCTYPE html><html><head><meta charset=\"utf-8\"><title>404 NOT FOUND</title></head><body>Page not found. Check that you typed the address correctly, or contact the site owner.</body></html>"
}

/// A successful response: status line, `Content-Length`, a `Content-Type`
/// when the served file's extension names one, a blank line, the body.
pub open spec fn spec_ok_response(resolved: Seq<char>, body: Seq<char>) -> Seq<char> {
    "HTTP/1.1 "@ + spec_status_text(HTTP_RESPONSE_CODE::HTTP_200_OK) + spec_crlf()
        + "Content-Length: "@ + spec_dec(spec_byte_len(body)) + spec_crlf() + (
    match spec_content_type_of(resolved) {
        Some(ct) => ct + spec_crlf(),
        None => Seq::<char>::empty(),
    }) + spec_crlf() + body
}

/// A failure response: the code's status line and the fixed fallback page,
/// always sent as HTML.
pub open spec fn spec_error_response(code: HTTP_RESPONSE_CODE) -> Seq<char> {
    "HTTP/1.1 "@ + spec_status_text(code) + spec_crlf() + "Content-Length: "@ + spec_dec(
        spec_byte_len(spec_fallback_body()),
    ) + spec_crlf() + "Content-Type: text/html"@ + spec_crlf() + spec_crlf() + spec_fallback_body()
}

/// The whole response for a request: `filepath` is what the request line
/// parsed to, and `contents` is what the lookup of the resolved file came
/// to — ignored when there was no file to look up.
pub open spec fn spec_respond(
    filepath: Result<Seq<char>, HTTP_RESPONSE_CODE>,
    contents: Result<Seq<char>, HTTP_RESPONSE_CODE>,
) -> Seq<char> {
    match filepath {
        Ok(name) => match contents {
            Ok(body) => spec_ok_response(spec_resolved(name), body),
            Err(code) => spec_error_response(code),
        },
        Err(code) => spec_error_response(code),
    }
}

fn error_response(code: HTTP_RESPONSE_CODE) -> (r: String)
    ensures
        r@ == spec_error_response(code),
{
    let body = fallback_body();
    let mut r = String::from_str("HTTP/1.1 ");
    r.append(code.status_text());
    r.append("\r\n");
    r.append("Content-Length: ");
    r.append(usize_to_string(body.len()).as_str());
    r.append("\r\n");
    r.append("Content-Type: text/html");
    r.append("\r\n");
    r.append("\r\n");
    r.append(body);
    proof {
        reveal_strlit("\r\n");
        assert("\r\n"@ =~= spec_crlf());
        assert(r@ =~= spec_error_response(code));
    }
    r
}

/// Frame the response for what the request came to: the served body with
/// its headers, or the fallback page under the matching error status.
pub fn respond(
    filepath: Result<String, HTTP_RESPONSE_CODE>,
    contents: Result<String, HTTP_RESPONSE_CODE>,
) -> (r: String)
    ensures
        r@ == spec_respond(
            match filepath {
                Ok(name) => Ok(name@),
                Err(code) => Err(code),
            },
            match contents {
                Ok(body) => Ok(body@),
                Err(code) => Err(code),
            },
        ),
{
    let name = match filepath {
        Ok(name) => name,
        Err(code) => {
            return error_response(code);
        },
    };
    let body = match contents {
        Ok(body) => body,
        Err(code) => {
            return error_response(code);
        },
    };
    let resolved = resolve_filename(name);
    let mut r = String::from_str("HTTP/1.1 ");
    r.append(HTTP_RESPONSE_CODE::HTTP_200_OK.status_text());
    r.append("\r\n");
    r.append("Content-Length: ");
    r.append(usize_to_string(body.as_str().len()).as_str());
    r.append("\r\n");
    match get_content_type(resolved) {
        Some(ct) => {
            r.append(ct.as_str());
            r.append("\r\n");
        },
        None => {},
    }
    r.append("\r\n");
    r.append(body.as_str());
    proof {
        reveal_strlit("\r\n");
        assert("\r\n"@ =~= spec_crlf());
        assert(r@ =~= spec_ok_response(spec_resolved(name@), body@));
    }
    r
}

} // verus!
