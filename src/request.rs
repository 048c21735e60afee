use vstd::prelude::*;
use vstd::utf8::encode_utf8;

use crate::config::{opt_view, BackendConfig, BackendKind};
use crate::errors::{
    bad_path_bytes, bad_path_text, bad_range_bytes, bad_range_text, error_payload, error_text,
};
use crate::fetch::RangeRequest;
use crate::path::{object_target, parse_object_path, split_path};
use crate::range::{is_whole_object, range_for, range_header_value, range_is_valid};

verus! {

/// A header list as pairs of name and value characters.
pub open spec fn headers_view(h: Seq<(String, String)>) -> Seq<(Seq<char>, Seq<char>)> {
    h.map_values(|p: (String, String)| (p.0@, p.1@))
}

/// The headers of `h` whose name is not `name`, in order.
pub open spec fn without_header(h: Seq<(Seq<char>, Seq<char>)>, name: Seq<char>) -> Seq<
    (Seq<char>, Seq<char>),
>
    decreases h.len(),
{
    if h.len() == 0 {
        h
    } else if h.last().0 == name {
        without_header(h.drop_last(), name)
    } else {
        without_header(h.drop_last(), name).push(h.last())
    }
}

/// `h` with header `name` set to `value`: earlier values of it are dropped
/// and the new one is appended.
pub open spec fn with_header(h: Seq<(Seq<char>, Seq<char>)>, name: Seq<char>, value: Seq<char>) -> Seq<
    (Seq<char>, Seq<char>),
> {
    without_header(h, name).push((name, value))
}

/// The headers of a request for `[start, end)` built on the caller's
/// headers `h`: a `Range` header is set unless the whole object is asked
/// for, and then `h` is left as it is.
pub open spec fn ranged_headers(h: Seq<(Seq<char>, Seq<char>)>, start: u64, end: u64) -> Seq<
    (Seq<char>, Seq<char>),
> {
    match range_for(start, end) {
        None => h,
        Some(v) => with_header(h, "Range"@, v),
    }
}

/// A request for the whole object carries no range: the caller's headers
/// stay exactly as given, and the S3 range parameter is absent.
pub proof fn law_whole_object_attaches_no_range(h: Seq<(Seq<char>, Seq<char>)>, start: u64, end: u64)
    requires
        is_whole_object(start, end),
    ensures
        ranged_headers(h, start, end) == h,
        range_for(start, end) is None,
{
}

/// A copy of a header list.
pub fn copy_headers(h: &Vec<(String, String)>) -> (r: Vec<(String, String)>)
    ensures
        r@ == h@,
{
    let mut out: Vec<(String, String)> = Vec::new();
    let mut i: usize = 0;
    while i < h.len()
        invariant
            i <= h@.len(),
            out@ == h@.subrange(0, i as int),
        decreases h@.len() - i,
    {
        out.push((h[i].0.clone(), h[i].1.clone()));
        i += 1;
        assert(out@ =~= h@.subrange(0, i as int));
    }
    assert(h@.subrange(0, h@.len() as int) =~= h@);
    out
}

/// `h` with header `name` set to `value`.
pub fn set_header(h: &Vec<(String, String)>, name: &str, value: String) -> (r: Vec<
    (String, String),
>)
    ensures
        headers_view(r@) == with_header(headers_view(h@), name@, value@),
{
    let name_text = String::from_str(name);
    let mut out: Vec<(String, String)> = Vec::new();
    let mut i: usize = 0;
    while i < h.len()
        invariant
            i <= h@.len(),
            name_text@ == name@,
            headers_view(out@) == without_header(headers_view(h@.subrange(0, i as int)), name@),
        decreases h@.len() - i,
    {
        let ghost prev = h@.subrange(0, i as int);
        let ghost next = h@.subrange(0, i as int + 1);
        let ghost before = out@;
        assert(headers_view(next).drop_last() =~= headers_view(prev));
        assert(headers_view(next).last() == (h@[i as int].0@, h@[i as int].1@));
        if !h[i].0.eq(&name_text) {
            out.push((h[i].0.clone(), h[i].1.clone()));
            assert(headers_view(out@) =~= headers_view(before).push(
                (h@[i as int].0@, h@[i as int].1@),
            ));
        }
        i += 1;
        assert(headers_view(out@) =~= without_header(headers_view(next), name@));
    }
    assert(h@.subrange(0, h@.len() as int) =~= h@);
    let ghost before = out@;
    out.push((name_text, value));
    assert(headers_view(out@) =~= headers_view(before).push((name@, value@)));
    out
}

/// A request to send over HTTP.
pub struct HttpRequest {
    pub method: String,
    pub url: String,
    pub headers: Vec<(String, String)>,
}

/// The method of a request: the one given, `GET` by default.
pub open spec fn method_or_get(method: Option<&str>) -> Seq<char> {
    match method {
        Some(m) => m@,
        None => "GET"@,
    }
}

/// Plans the HTTP request for bytes `[start, end)` of `url` (the whole
/// resource when both are zero), with the caller's headers and method; a
/// window that cannot be requested gives the error payload instead.
pub fn plan_http_fetch(
    url: &str,
    start: u64,
    end: u64,
    headers: &Vec<(String, String)>,
    method: Option<&str>,
) -> (r: Result<HttpRequest, Vec<u8>>)
    ensures
        !range_is_valid(start, end) ==> (r matches Err(e) && e@ == error_payload(
            BackendKind::Http,
            encode_utf8(bad_range_text()),
        )),
        range_is_valid(start, end) ==> (r matches Ok(q) && q.url@ == url@ && q.method@
            == method_or_get(method) && headers_view(q.headers@) == ranged_headers(
            headers_view(headers@),
            start,
            end,
        )),
{
    if !(start == 0 && end == 0) && end == 0 {
        return Err(bad_range_bytes(BackendKind::Http));
    }
    let method_text = match method {
        Some(m) => String::from_str(m),
        None => String::from_str("GET"),
    };
    let headers = match range_header_value(start, end) {
        None => copy_headers(headers),
        Some(v) => set_header(headers, "Range", v),
    };
    Ok(HttpRequest { method: method_text, url: String::from_str(url), headers })
}

/// Whether byte `b` stands for itself in a percent-encoded text: an ASCII
/// letter or digit, `-`, `.`, `_` or `~`.
pub open spec fn is_unreserved(b: u8) -> bool {
    (48 <= b <= 57) || (65 <= b <= 90) || (97 <= b <= 122) || b == 45 || b == 46 || b == 95 || b
        == 126
}

/// The upper-case hexadecimal digit for `d < 16`.
pub open spec fn hex_digit(d: u8) -> char {
    if d < 10 {
        ((48 + d) as u8) as char
    } else {
        ((55 + d) as u8) as char
    }
}

/// The percent-encoding of one byte.
pub open spec fn percent_encode_byte(b: u8) -> Seq<char> {
    if is_unreserved(b) {
        seq![b as char]
    } else {
        seq!['%', hex_digit(b / 16), hex_digit(b % 16)]
    }
}

/// The percent-encoding of a byte sequence, byte by byte.
pub open spec fn percent_encoded(bytes: Seq<u8>) -> Seq<char>
    decreases bytes.len(),
{
    if bytes.len() == 0 {
        Seq::empty()
    } else {
        percent_encoded(bytes.drop_last()) + percent_encode_byte(bytes.last())
    }
}

/// Relies on `urlencoding::encode`: each byte of the UTF-8 text is kept when
/// it is an ASCII letter or digit, `-`, `.`, `_` or `~`, and written as `%`
/// and two upper-case hex digits otherwise.
#[verifier::external_body]
fn url_encode(s: &str) -> (r: String)
    ensures
        r@ == percent_encoded(encode_utf8(s@)),
{
    urlencoding::encode(s).into_owned()
}

/// The download URL of object `key` in GCS bucket `bucket`, with the
/// project to bill, if any.
pub open spec fn gcs_object_url(bucket: Seq<char>, key: Seq<char>, user_project: Option<Seq<char>>) -> Seq<
    char,
> {
    "https://storage.googleapis.com/download/storage/v1/b/"@ + bucket + "/o/"@ + percent_encoded(
        encode_utf8(key),
    ) + "?alt=media"@ + match user_project {
        Some(p) => "&userProject="@ + p,
        None => Seq::empty(),
    }
}

/// The characters of an optional string slice.
pub open spec fn str_view(o: Option<&str>) -> Option<Seq<char>> {
    match o {
        Some(s) => Some(s@),
        None => None,
    }
}

/// The headers of an authenticated GCS request: the token, and the project
/// when one is given. An anonymous request has none.
pub open spec fn gcs_auth_headers(token: Option<Seq<char>>, project: Option<Seq<char>>) -> Seq<
    (Seq<char>, Seq<char>),
> {
    match token {
        None => Seq::empty(),
        Some(t) => match project {
            None => seq![("authorization"@, t)],
            Some(p) => seq![("authorization"@, t), ("x-goog-user-project"@, p)],
        },
    }
}

/// The project that a GCS request bills: the given project, for a
/// requester-pays request.
pub open spec fn gcs_billed_project(project: Option<Seq<char>>, requester_pays: bool) -> Option<
    Seq<char>,
> {
    if requester_pays {
        project
    } else {
        None
    }
}

/// `r` is the plan of the GCS download of `[start, end)` of the object at
/// `path`, sent with `token` (none for an anonymous request): the
/// malformed-path payload for a path without `/`, the bad-range payload for
/// a window that cannot be requested, and otherwise a `GET` of the object's
/// download URL with the token's headers and the range.
pub open spec fn is_gcs_plan(
    r: Result<HttpRequest, Vec<u8>>,
    path: Seq<char>,
    start: u64,
    end: u64,
    token: Option<Seq<char>>,
    project: Option<Seq<char>>,
    requester_pays: bool,
) -> bool {
    match split_path(path) {
        None => r matches Err(e) && e@ == error_payload(
            BackendKind::Gcs,
            encode_utf8(bad_path_text()),
        ),
        Some((bucket, key)) => if !range_is_valid(start, end) {
            r matches Err(e) && e@ == error_payload(BackendKind::Gcs, encode_utf8(bad_range_text()))
        } else {
            r matches Ok(q) && q.method@ == "GET"@ && q.url@ == gcs_object_url(
                bucket,
                key,
                gcs_billed_project(project, requester_pays),
            ) && headers_view(q.headers@) == ranged_headers(
                gcs_auth_headers(token, project),
                start,
                end,
            )
        },
    }
}

/// Plans the GCS download of bytes `[start, end)` of the object at `path`
/// (`"<bucket>/<key>"`). `token` is absent for an anonymous request.
pub fn plan_gcs_fetch(
    path: &str,
    start: u64,
    end: u64,
    token: Option<&str>,
    project: Option<&str>,
    requester_pays: bool,
) -> (r: Result<HttpRequest, Vec<u8>>)
    ensures
        is_gcs_plan(r, path@, start, end, str_view(token), str_view(project), requester_pays),
{
    let target = match parse_object_path(path) {
        None => {
            return Err(bad_path_bytes(BackendKind::Gcs));
        },
        Some(t) => t,
    };
    if !(start == 0 && end == 0) && end == 0 {
        return Err(bad_range_bytes(BackendKind::Gcs));
    }
    let mut url = String::from_str("https://storage.googleapis.com/download/storage/v1/b/");
    url.append(target.container.as_str());
    url.append("/o/");
    let encoded = url_encode(target.key.as_str());
    url.append(encoded.as_str());
    url.append("?alt=media");
    if requester_pays {
        if let Some(p) = project {
            url.append("&userProject=");
            url.append(p);
        }
    }
    let mut auth: Vec<(String, String)> = Vec::new();
    if let Some(t) = token {
        auth.push((String::from_str("authorization"), String::from_str(t)));
        if let Some(p) = project {
            auth.push((String::from_str("x-goog-user-project"), String::from_str(p)));
        }
    }
    assert(headers_view(auth@) =~= gcs_auth_headers(str_view(token), str_view(project)));
    assert(url@ =~= gcs_object_url(
        target.container@,
        target.key@,
        gcs_billed_project(str_view(project), requester_pays),
    ));
    let headers = match range_header_value(start, end) {
        None => auth,
        Some(v) => set_header(&auth, "Range", v),
    };
    Ok(HttpRequest { method: String::from_str("GET"), url, headers })
}

/// The token that the requests of a GCS configuration carry: none when the
/// configuration is anonymous, else the one token fetched for the batch.
pub open spec fn gcs_batch_token(config: BackendConfig, token: Option<&str>) -> Option<Seq<char>> {
    if config.anonymous {
        None
    } else {
        str_view(token)
    }
}

/// Plans the GCS downloads of a batch, one per request and in order, all
/// with the same token (or none, for an anonymous configuration), billing
/// the configuration's project when it is requester-pays.
pub fn plan_gcs_batch(config: &BackendConfig, token: Option<&str>, requests: &Vec<RangeRequest>) -> (r:
    Vec<Result<HttpRequest, Vec<u8>>>)
    ensures
        r@.len() == requests@.len(),
        forall|i: int|
            0 <= i < r@.len() ==> is_gcs_plan(
                #[trigger] r@[i],
                requests@[i].location@,
                requests@[i].start,
                requests@[i].end,
                gcs_batch_token(*config, token),
                opt_view(config.project),
                config.requester_pays,
            ),
{
    let used: Option<&str> = if config.anonymous {
        None
    } else {
        token
    };
    let project: Option<&str> = match &config.project {
        Some(p) => Some(p.as_str()),
        None => None,
    };
    assert(str_view(used) == gcs_batch_token(*config, token));
    assert(str_view(project) == opt_view(config.project));
    let mut out: Vec<Result<HttpRequest, Vec<u8>>> = Vec::new();
    let mut i: usize = 0;
    while i < requests.len()
        invariant
            i <= requests@.len(),
            out@.len() == i,
            str_view(used) == gcs_batch_token(*config, token),
            str_view(project) == opt_view(config.project),
            forall|j: int|
                0 <= j < i ==> is_gcs_plan(
                    #[trigger] out@[j],
                    requests@[j].location@,
                    requests@[j].start,
                    requests@[j].end,
                    gcs_batch_token(*config, token),
                    opt_view(config.project),
                    config.requester_pays,
                ),
        decreases requests@.len() - i,
    {
        let r = &requests[i];
        out.push(
            plan_gcs_fetch(r.location.as_str(), r.start, r.end, used, project, config.requester_pays),
        );
        i += 1;
    }
    out
}

/// A planned S3 `GetObject` call.
pub struct S3GetRequest {
    pub bucket: String,
    pub key: String,
    /// The range parameter, `bytes=<first>-<last>`; absent for the whole
    /// object.
    pub range: Option<String>,
    pub requester_pays: bool,
}

/// Plans the S3 fetch of bytes `[start, end)` of the object at `path`
/// (`"<bucket>/<key>"`); a path without `/`, or a window that cannot be
/// requested, gives the error payload instead.
pub fn plan_s3_fetch(path: &str, start: u64, end: u64, requester_pays: bool) -> (r: Result<
    S3GetRequest,
    Vec<u8>,
>)
    ensures
        split_path(path@) is None ==> (r matches Err(e) && e@ == error_payload(
            BackendKind::S3,
            encode_utf8(bad_path_text()),
        )),
        split_path(path@) is Some && !range_is_valid(start, end) ==> (r matches Err(e) && e@
            == error_payload(BackendKind::S3, encode_utf8(bad_range_text()))),
        range_is_valid(start, end) ==> (split_path(path@) matches Some((bucket, key)) ==> (r matches Ok(q)
            && q.bucket@ == bucket && q.key@ == key && opt_view(q.range) == range_for(start, end)
            && q.requester_pays == requester_pays)),
{
    match parse_object_path(path) {
        None => Err(bad_path_bytes(BackendKind::S3)),
        Some(t) => {
            if !(start == 0 && end == 0) && end == 0 {
                return Err(bad_range_bytes(BackendKind::S3));
            }
            let range = range_header_value(start, end);
            Ok(S3GetRequest { bucket: t.container, key: t.key, range, requester_pays })
        },
    }
}

/// A planned S3 `HeadObject` call.
pub struct S3HeadRequest {
    pub bucket: String,
    pub key: String,
    pub requester_pays: bool,
}

/// Plans the metadata lookup of the object at `path` (`"<bucket>/<key>"`);
/// a path without `/` gives the error message instead.
pub fn plan_s3_head(path: &str, requester_pays: bool) -> (r: Result<S3HeadRequest, String>)
    ensures
        split_path(path@) is None ==> (r matches Err(m) && m@ == error_text(
            BackendKind::S3,
            bad_path_text(),
        )),
        split_path(path@) matches Some((bucket, key)) ==> (r matches Ok(q) && q.bucket@ == bucket
            && q.key@ == key && q.requester_pays == requester_pays),
{
    match object_target(BackendKind::S3, path) {
        Err(m) => Err(m),
        Ok(t) => Ok(S3HeadRequest { bucket: t.container, key: t.key, requester_pays }),
    }
}

/// A range that Azure accepts: the whole object, or a window `[start, end)`
/// with `start <= end` and `end > 0`.
pub open spec fn azure_range_is_valid(start: u64, end: u64) -> bool {
    is_whole_object(start, end) || (0 < end && start <= end)
}

/// A planned Azure blob download.
pub struct AzureGetRequest {
    pub container: String,
    pub key: String,
    /// The window `[start, end)`; absent for the whole blob.
    pub range: Option<(u64, u64)>,
}

/// Plans the Azure download of bytes `[start, end)` of the blob at `path`
/// (`"<container>/<blob>"`); a path without `/`, or a window that Azure
/// does not accept, gives the error payload instead.
pub fn plan_azure_fetch(path: &str, start: u64, end: u64) -> (r: Result<AzureGetRequest, Vec<u8>>)
    ensures
        split_path(path@) is None ==> (r matches Err(e) && e@ == error_payload(
            BackendKind::Azure,
            encode_utf8(bad_path_text()),
        )),
        split_path(path@) is Some && !azure_range_is_valid(start, end) ==> (r matches Err(e) && e@
            == error_payload(BackendKind::Azure, encode_utf8(bad_range_text()))),
        azure_range_is_valid(start, end) ==> (split_path(path@) matches Some((container, key)) ==> (r matches Ok(
            q,
        ) && q.container@ == container && q.key@ == key && q.range == if is_whole_object(
            start,
            end,
        ) {
            None::<(u64, u64)>
        } else {
            Some((start, end))
        })),
{
    match parse_object_path(path) {
        None => Err(bad_path_bytes(BackendKind::Azure)),
        Some(t) => {
            if start == 0 && end == 0 {
                Ok(AzureGetRequest { container: t.container, key: t.key, range: None })
            } else if end == 0 || start > end {
                Err(bad_range_bytes(BackendKind::Azure))
            } else {
                Ok(AzureGetRequest { container: t.container, key: t.key, range: Some((start, end)) })
            }
        },
    }
}

} // verus!
