//! How requests are logged.

use vstd::prelude::*;
use crate::text;

verus! {

/// The headers of a request.
#[verifier::external_type_specification]
#[verifier::external_body]
#[verifier::reject_recursive_types(T)]
pub struct ExHeaderMap<T>(http::HeaderMap<T>);

/// The value of a header.
#[verifier::external_type_specification]
#[verifier::external_body]
pub struct ExHeaderValue(http::HeaderValue);

/// The headers of a request that are text: of each name under which one can be asked
/// for, the first value.
pub uninterp spec fn header_texts(headers: http::HeaderMap<http::HeaderValue>) -> Map<
    Seq<char>,
    Seq<char>,
>;

/// Wraps `http::HeaderMap::get`, followed by `HeaderValue::to_str`: the first value of
/// the header, where there is one and it is made of visible ASCII characters.
#[verifier::external_body]
fn header_text(headers: &http::HeaderMap<http::HeaderValue>, name: &str) -> (r: Option<String>)
    ensures
        r is Some == header_texts(*headers).contains_key(name@),
        r is Some ==> r->Some_0@ == header_texts(*headers)[name@],
{
    headers.get(name).and_then(|value| value.to_str().ok()).map(str::to_owned)
}

/// The text of a header, where it is there.
pub open spec fn header_of(headers: Map<Seq<char>, Seq<char>>, name: Seq<char>) -> Option<
    Seq<char>,
> {
    if headers.contains_key(name) {
        Some(headers[name])
    } else {
        None
    }
}

/// The first of the addresses that a proxy lists, without the whitespace around it.
pub open spec fn first_forwarded(value: Seq<char>) -> Seq<char> {
    text::trimmed(text::split_on(value, ',')[0])
}

/// The address of a client: the first that a proxy lists, else the one that it names,
/// else none is known.
pub open spec fn client_ip(forwarded_for: Option<Seq<char>>, real_ip: Option<Seq<char>>) -> Seq<
    char,
> {
    if forwarded_for is Some && first_forwarded(forwarded_for->Some_0).len() > 0 {
        first_forwarded(forwarded_for->Some_0)
    } else if real_ip is Some && text::trimmed(real_ip->Some_0).len() > 0 {
        text::trimmed(real_ip->Some_0)
    } else {
        "unknown"@
    }
}

/// Chooses the address of a client from the two headers that may name it.
pub fn choose_client_ip(forwarded_for: Option<String>, real_ip: Option<String>) -> (r: String)
    ensures
        r@ == client_ip(
            crate::engine::opt_text(forwarded_for),
            crate::engine::opt_text(real_ip),
        ),
{
    match forwarded_for {
        Some(value) => {
            let parts: Vec<String> = text::split(value.as_str(), ',');
            proof {
                assert(text::text_views(parts@)[0] == parts@[0]@);
            }
            let first: String = text::trim(parts[0].as_str());
            if !first.as_str().is_empty() {
                return first;
            }
        },
        None => {},
    }
    match real_ip {
        Some(value) => {
            let address: String = text::trim(value.as_str());
            if !address.as_str().is_empty() {
                return address;
            }
        },
        None => {},
    }
    "unknown".to_owned()
}

/// The address of a client.
pub fn client_ip_from_headers(headers: &http::HeaderMap<http::HeaderValue>) -> (r: String)
    ensures
        r@ == client_ip(
            header_of(header_texts(*headers), "x-forwarded-for"@),
            header_of(header_texts(*headers), "x-real-ip"@),
        ),
{
    let forwarded_for: Option<String> = header_text(headers, "x-forwarded-for");
    let real_ip: Option<String> = header_text(headers, "x-real-ip");
    choose_client_ip(forwarded_for, real_ip)
}

/// How a request is logged.
#[derive(Debug)]
pub enum RequestLog {
    HealthCheck,
    Request { client_ip: String, method: String, content_type: String },
}

/// How a request for the path is logged.
pub fn log_grpc_request(headers: &http::HeaderMap<http::HeaderValue>, path: &str) -> (r: RequestLog)
    ensures
        match r {
            RequestLog::HealthCheck => path@ == "/grpc.health.v1.Health/Check"@,
            RequestLog::Request { client_ip: ip, method, content_type } => {
                &&& path@ != "/grpc.health.v1.Health/Check"@
                &&& ip@ == client_ip(
                    header_of(header_texts(*headers), "x-forwarded-for"@),
                    header_of(header_texts(*headers), "x-real-ip"@),
                )
                &&& method@ == path@
                &&& content_type@ == match header_of(header_texts(*headers), "content-type"@) {
                    Some(value) => value,
                    None => "unknown"@,
                }
            },
        },
{
    if text::str_eq(path, "/grpc.health.v1.Health/Check") {
        return RequestLog::HealthCheck;
    }
    let client_ip: String = client_ip_from_headers(headers);
    let content_type: String = match header_text(headers, "content-type") {
        Some(value) => value,
        None => "unknown".to_owned(),
    };
    RequestLog::Request { client_ip, method: path.to_owned(), content_type }
}

/// A header has the text that stands under its name, where one does.
pub proof fn headers_are_found_by_name(headers: Map<Seq<char>, Seq<char>>, name: Seq<char>)
    ensures
        (header_of(headers, name) is Some) == headers.contains_key(name),
        header_of(headers, name) matches Some(value) ==> value == headers[name],
{
}

/// What a proxy lists counts before what it names, and either only where it is not blank;
/// without both the address is unknown.
pub proof fn listed_address_counts_first(
    forwarded_for: Option<Seq<char>>,
    real_ip: Option<Seq<char>>,
)
    ensures
        ({
            let listed = forwarded_for is Some && first_forwarded(forwarded_for->Some_0).len() > 0;
            let named = real_ip is Some && text::trimmed(real_ip->Some_0).len() > 0;
            &&& listed ==> client_ip(forwarded_for, real_ip) == first_forwarded(
                forwarded_for->Some_0,
            )
            &&& !listed && named ==> client_ip(forwarded_for, real_ip) == text::trimmed(
                real_ip->Some_0,
            )
            &&& !listed && !named ==> client_ip(forwarded_for, real_ip) == "unknown"@
        }),
{
}

/// The first of the listed addresses is what stands in front of the first comma, or all of it
/// where there is none, without the whitespace around it.
pub proof fn first_listed_address_ends_at_the_comma(address: Seq<char>, rest: Seq<char>)
    requires
        !address.contains(','),
    ensures
        first_forwarded(address) == text::trimmed(address),
        first_forwarded(address + seq![','] + rest) == text::trimmed(address),
{
    text::separators_end_pieces(address, ',', ',');
    let head = address.push(',');
    assert(address + seq![','] + rest =~= head + rest);
    text::split_continues(head, rest, ',');
    let pieces = text::split_on(head, ',');
    assert(pieces[0] == address);
    assert(pieces.drop_last()[0] == address);
    assert(text::split_on(head + rest, ',')[0] == address);
}

} // verus!
