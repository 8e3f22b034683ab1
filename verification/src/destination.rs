//! Where an endpoint is: on this machine or the private network, or elsewhere.
use crate::text::{
    ends_with, has_suffix, is_blank, is_white_space, law_blank_is_all_white_space,
    law_suffix_is_at_the_end, law_trimming_removes_the_white_space_around, same_text, trimmed,
};
use vstd::prelude::*;

verus! {

/// The host of a URL.
#[derive(Debug)]
pub enum UrlHost {
    Domain(String),
    /// The four octets of the address.
    Ipv4([u8; 4]),
    /// The eight segments of the address.
    Ipv6([u16; 8]),
}

#[verifier::ext_equal]
pub enum UrlHostView {
    Domain(Seq<char>),
    Ipv4(Seq<u8>),
    Ipv6(Seq<u16>),
}

impl DeepView for UrlHost {
    type V = UrlHostView;

    open spec fn deep_view(&self) -> UrlHostView {
        match self {
            UrlHost::Domain(name) => UrlHostView::Domain(name@),
            UrlHost::Ipv4(octets) => UrlHostView::Ipv4(octets@),
            UrlHost::Ipv6(segments) => UrlHostView::Ipv6(segments@),
        }
    }
}

/// What is read out of a URL.
#[derive(Debug)]
pub struct UrlParts {
    pub scheme: String,
    pub host: Option<UrlHost>,
}

#[verifier::ext_equal]
pub struct UrlPartsView {
    pub scheme: Seq<char>,
    pub host: Option<UrlHostView>,
}

impl DeepView for UrlParts {
    type V = UrlPartsView;

    open spec fn deep_view(&self) -> UrlPartsView {
        UrlPartsView { scheme: self.scheme@, host: self.host.deep_view() }
    }
}

/// The scheme and the host of the URL that `Url::parse` reads out of a text, or `None`
/// where it reports an error.
pub uninterp spec fn url_parts(text: Seq<char>) -> Option<UrlPartsView>;

/// `reqwest::Url::parse`, with `Url::scheme` and `Url::host` of what it read: whether it
/// succeeds, the scheme and the host all depend on the text alone. An address is handed
/// on as its octets or segments.
#[verifier::external_body]
pub(crate) fn parse_url(text: &str) -> (parts: Option<UrlParts>)
    ensures
        parts.deep_view() == url_parts(text@),
{
    let url = reqwest::Url::parse(text).ok()?;
    let host = match url.host() {
        None => None,
        Some(url::Host::Domain(name)) => Some(UrlHost::Domain(name.to_owned())),
        Some(url::Host::Ipv4(address)) => Some(UrlHost::Ipv4(address.octets())),
        Some(url::Host::Ipv6(address)) => Some(UrlHost::Ipv6(address.segments())),
    };
    Some(UrlParts { scheme: url.scheme().to_owned(), host })
}

// ---------------------------------------------------------------------------
// Local and private hosts

/// An IPv4 address of this machine, of the private network or of the local link.
pub open spec fn is_local_ipv4(octets: Seq<u8>) -> bool {
    ||| octets[0] == 127
    ||| octets[0] == 10
    ||| octets[0] == 172 && 16 <= octets[1] <= 31
    ||| octets[0] == 192 && octets[1] == 168
    ||| octets[0] == 169 && octets[1] == 254
    ||| octets[0] == 0 && octets[1] == 0 && octets[2] == 0 && octets[3] == 0
}

/// The octets of an IPv4 address that the last two segments of an IPv6 address hold.
pub open spec fn mapped_octets(segments: Seq<u16>) -> Seq<u8> {
    seq![
        (segments[6] / 256) as u8,
        (segments[6] % 256) as u8,
        (segments[7] / 256) as u8,
        (segments[7] % 256) as u8,
    ]
}

/// An IPv6 address of this machine (`::1`, `::`), of the private network (`fc00::/7`)
/// or of the local link (`fe80::/10`), or one that maps such an IPv4 address.
pub open spec fn is_local_ipv6(segments: Seq<u16>) -> bool {
    let leading_zeros = forall|i: int| 0 <= i < 5 ==> #[trigger] segments[i] == 0;
    ||| leading_zeros && segments[5] == 0 && segments[6] == 0 && segments[7] <= 1
    ||| 0xfc00 <= segments[0] <= 0xfdff
    ||| 0xfe80 <= segments[0] <= 0xfebf
    ||| leading_zeros && segments[5] == 0xffff && is_local_ipv4(mapped_octets(segments))
}

/// `localhost`, a name under `.local`, or a local or private address.
pub open spec fn is_local_host(host: UrlHostView) -> bool {
    match host {
        UrlHostView::Domain(name) => name == "localhost"@ || has_suffix(name, ".local"@),
        UrlHostView::Ipv4(octets) => is_local_ipv4(octets),
        UrlHostView::Ipv6(segments) => is_local_ipv6(segments),
    }
}

fn local_ipv4(octets: [u8; 4]) -> (local: bool)
    ensures
        local == is_local_ipv4(octets@),
{
    octets[0] == 127 || octets[0] == 10 || (octets[0] == 172 && 16 <= octets[1] && octets[1] <= 31)
        || (octets[0] == 192 && octets[1] == 168) || (octets[0] == 169 && octets[1] == 254) || (
    octets[0] == 0 && octets[1] == 0 && octets[2] == 0 && octets[3] == 0)
}

fn local_ipv6(segments: [u16; 8]) -> (local: bool)
    ensures
        local == is_local_ipv6(segments@),
{
    let leading_zeros = segments[0] == 0 && segments[1] == 0 && segments[2] == 0 && segments[3] == 0
        && segments[4] == 0;
    assert(leading_zeros == (forall|i: int| 0 <= i < 5 ==> #[trigger] segments@[i] == 0));
    let octets: [u8; 4] = [
        (segments[6] / 256) as u8,
        (segments[6] % 256) as u8,
        (segments[7] / 256) as u8,
        (segments[7] % 256) as u8,
    ];
    assert(octets@ =~= mapped_octets(segments@));
    (leading_zeros && segments[5] == 0 && segments[6] == 0 && segments[7] <= 1) || (0xfc00
        <= segments[0] && segments[0] <= 0xfdff) || (0xfe80 <= segments[0] && segments[0] <= 0xfebf)
        || (leading_zeros && segments[5] == 0xffff && local_ipv4(octets))
}

/// Whether the host is on this machine or on the private network.
pub fn is_local_or_private_host(host: &UrlHost) -> (local: bool)
    ensures
        local == is_local_host(host.deep_view()),
{
    match host {
        UrlHost::Domain(name) => same_text(name.as_str(), "localhost") || ends_with(
            name.as_str(),
            ".local",
        ),
        UrlHost::Ipv4(octets) => local_ipv4(*octets),
        UrlHost::Ipv6(segments) => local_ipv6(*segments),
    }
}

/// What kind of destination a URL leads to.
#[derive(Debug, Clone, Copy, PartialEq, Eq, Structural)]
pub enum DestinationClass {
    /// This machine, the private network, or a `.local` name.
    LocalEndpoint,
    Remote,
}

/// What kind of destination a URL leads to.
pub open spec fn destination_class(parts: UrlPartsView) -> DestinationClass {
    match parts.host {
        Some(host) => if is_local_host(host) {
            DestinationClass::LocalEndpoint
        } else {
            DestinationClass::Remote
        },
        None => DestinationClass::Remote,
    }
}

/// What kind of destination the URL leads to.
pub fn classify_destination(parts: &UrlParts) -> (class: DestinationClass)
    ensures
        class == destination_class(parts.deep_view()),
{
    match &parts.host {
        Some(host) => if is_local_or_private_host(host) {
            DestinationClass::LocalEndpoint
        } else {
            DestinationClass::Remote
        },
        None => DestinationClass::Remote,
    }
}

// ---------------------------------------------------------------------------
// The form in which a user enters an endpoint

/// From where an endpoint is called.
#[derive(Debug, Clone, Copy, PartialEq, Eq, Structural)]
pub enum CustomEndpointReachability {
    /// A server calls it, so it has to be reachable from the public network.
    RemoteServerReachable,
    /// The client on this device calls it.
    LocalClientReachable,
}

/// What is wrong with the URL of an endpoint.
#[derive(Debug, Clone, Copy, PartialEq, Eq, Structural)]
pub enum UrlProblem {
    Invalid,
    NotHttps,
    NotHttp,
    LocalHost,
}

/// What a user is told of a problem.
pub open spec fn problem_text(problem: UrlProblem) -> Seq<char> {
    match problem {
        UrlProblem::Invalid => "Invalid URL"@,
        UrlProblem::NotHttps => "URL must use HTTPS"@,
        UrlProblem::NotHttp => "URL must use HTTP or HTTPS"@,
        UrlProblem::LocalHost => "URL must not use a local or private host"@,
    }
}

/// What is wrong with what was read out of the URL of an endpoint, if anything.
pub open spec fn parts_problem(
    parts: Option<UrlPartsView>,
    reachability: CustomEndpointReachability,
) -> Option<UrlProblem> {
    match parts {
        None => Some(UrlProblem::Invalid),
        Some(parts) => match reachability {
            CustomEndpointReachability::RemoteServerReachable => if parts.scheme != "https"@ {
                Some(UrlProblem::NotHttps)
            } else {
                match parts.host {
                    None => Some(UrlProblem::Invalid),
                    Some(host) => if is_local_host(host) {
                        Some(UrlProblem::LocalHost)
                    } else {
                        None
                    },
                }
            },
            CustomEndpointReachability::LocalClientReachable => if parts.scheme != "http"@
                && parts.scheme != "https"@ {
                Some(UrlProblem::NotHttp)
            } else if parts.host is None {
                Some(UrlProblem::Invalid)
            } else {
                None
            },
        },
    }
}

/// What is wrong with the URL of an endpoint, if anything. A blank one is not judged.
pub open spec fn url_problem(
    url: Seq<char>,
    reachability: CustomEndpointReachability,
) -> Option<UrlProblem> {
    if is_blank(url) {
        None
    } else {
        parts_problem(url_parts(trimmed(url)), reachability)
    }
}

/// What the user is told of the problem.
pub fn url_problem_text(problem: UrlProblem) -> (text: &'static str)
    ensures
        text@ == problem_text(problem),
{
    match problem {
        UrlProblem::Invalid => "Invalid URL",
        UrlProblem::NotHttps => "URL must use HTTPS",
        UrlProblem::NotHttp => "URL must use HTTP or HTTPS",
        UrlProblem::LocalHost => "URL must not use a local or private host",
    }
}

/// What is wrong with what was read out of the URL of an endpoint, if anything.
pub fn check_url_parts(
    parts: &Option<UrlParts>,
    reachability: CustomEndpointReachability,
) -> (problem: Option<UrlProblem>)
    ensures
        problem == parts_problem(parts.deep_view(), reachability),
{
    let parts = match parts {
        Some(parts) => parts,
        None => {
            return Some(UrlProblem::Invalid);
        },
    };
    match reachability {
        CustomEndpointReachability::RemoteServerReachable => if !same_text(
            parts.scheme.as_str(),
            "https",
        ) {
            Some(UrlProblem::NotHttps)
        } else {
            match &parts.host {
                None => Some(UrlProblem::Invalid),
                Some(host) => if is_local_or_private_host(host) {
                    Some(UrlProblem::LocalHost)
                } else {
                    None
                },
            }
        },
        CustomEndpointReachability::LocalClientReachable => if !same_text(
            parts.scheme.as_str(),
            "http",
        ) && !same_text(parts.scheme.as_str(), "https") {
            Some(UrlProblem::NotHttp)
        } else if parts.host.is_none() {
            Some(UrlProblem::Invalid)
        } else {
            None
        },
    }
}

/// Whether the URL can be that of an endpoint, or what the user is told. A blank one is
/// not judged.
pub fn validate_url(url: &str, reachability: CustomEndpointReachability) -> (verdict: Result<
    (),
    &'static str,
>)
    ensures
        match url_problem(url@, reachability) {
            None => verdict is Ok,
            Some(problem) => verdict is Err && verdict->Err_0@ == problem_text(problem),
        },
{
    let url = url.trim();
    if url.is_empty() {
        return Ok(());
    }
    match check_url_parts(&parse_url(url), reachability) {
        None => Ok(()),
        Some(problem) => Err(url_problem_text(problem)),
    }
}

/// Whether a form describes an endpoint: it has a name, a URL, a model and, unless the
/// client on this device calls it, an API key.
pub open spec fn endpoint_form_valid(
    name: Seq<char>,
    url: Seq<char>,
    api_key: Seq<char>,
    has_models: bool,
    reachability: CustomEndpointReachability,
) -> bool {
    &&& !is_blank(name)
    &&& !is_blank(url)
    &&& url_problem(url, reachability) is None
    &&& reachability is LocalClientReachable || !is_blank(api_key)
    &&& has_models
}

/// Whether the form describes an endpoint that is called from there.
pub fn is_endpoint_form_valid_for_reachability(
    name: &str,
    url: &str,
    api_key: &str,
    has_models: bool,
    reachability: CustomEndpointReachability,
) -> (valid: bool)
    ensures
        valid == endpoint_form_valid(name@, url@, api_key@, has_models, reachability),
{
    let key_given = match reachability {
        CustomEndpointReachability::LocalClientReachable => true,
        CustomEndpointReachability::RemoteServerReachable => !api_key.trim().is_empty(),
    };
    !name.trim().is_empty() && !url.trim().is_empty() && validate_url(url, reachability).is_ok()
        && key_given && has_models
}

/// Whether the form describes an endpoint that a server calls.
pub fn is_endpoint_form_valid(name: &str, url: &str, api_key: &str, has_models: bool) -> (valid:
    bool)
    ensures
        valid == endpoint_form_valid(
            name@,
            url@,
            api_key@,
            has_models,
            CustomEndpointReachability::RemoteServerReachable,
        ),
{
    is_endpoint_form_valid_for_reachability(
        name,
        url,
        api_key,
        has_models,
        CustomEndpointReachability::RemoteServerReachable,
    )
}

/// A form for a server describes an HTTPS endpoint with a key.
pub proof fn law_remote_form_has_https_and_key(
    name: Seq<char>,
    url: Seq<char>,
    api_key: Seq<char>,
    has_models: bool,
)
    requires
        endpoint_form_valid(
            name,
            url,
            api_key,
            has_models,
            CustomEndpointReachability::RemoteServerReachable,
        ),
    ensures
        !is_blank(api_key),
        url_parts(trimmed(url)) matches Some(parts) && parts.scheme == "https"@,
{
}

/// A form for the client on this device is judged alike with any key and with none.
pub proof fn law_local_form_needs_no_key(
    name: Seq<char>,
    url: Seq<char>,
    api_key: Seq<char>,
    has_models: bool,
)
    ensures
        endpoint_form_valid(
            name,
            url,
            api_key,
            has_models,
            CustomEndpointReachability::LocalClientReachable,
        ) == endpoint_form_valid(
            name,
            url,
            seq![],
            has_models,
            CustomEndpointReachability::LocalClientReachable,
        ),
{
}

/// A URL that a server may call never leads to a local endpoint.
pub proof fn law_remote_urls_are_not_local(url: Seq<char>)
    requires
        !is_blank(url),
        url_problem(url, CustomEndpointReachability::RemoteServerReachable) is None,
    ensures
        url_parts(trimmed(url)) matches Some(parts) && destination_class(parts)
            == DestinationClass::Remote,
{
}

/// A URL that a server may call, the client on this device may call too.
pub proof fn law_remote_urls_are_locally_valid(url: Seq<char>)
    requires
        url_problem(url, CustomEndpointReachability::RemoteServerReachable) is None,
    ensures
        url_problem(url, CustomEndpointReachability::LocalClientReachable) is None,
{
}

/// Every HTTP or HTTPS URL of a local endpoint is one that the client on this device
/// may call.
pub proof fn law_local_endpoints_are_locally_valid(url: Seq<char>, parts: UrlPartsView)
    requires
        url_parts(trimmed(url)) == Some(parts),
        parts.scheme == "http"@ || parts.scheme == "https"@,
        destination_class(parts) == DestinationClass::LocalEndpoint,
    ensures
        url_problem(url, CustomEndpointReachability::LocalClientReachable) is None,
        !is_blank(url) ==> url_problem(url, CustomEndpointReachability::RemoteServerReachable)
            is Some,
{
}

/// The number of an IPv4 address.
pub open spec fn ipv4_number(octets: Seq<u8>) -> int {
    octets[0] * 0x1000000 + octets[1] * 0x10000 + octets[2] * 0x100 + octets[3]
}

/// Whether the number of an IPv4 address is in one of the blocks `127.0.0.0/8`,
/// `10.0.0.0/8`, `172.16.0.0/12`, `192.168.0.0/16` and `169.254.0.0/16`, or zero.
pub open spec fn is_local_number(number: int) -> bool {
    ||| 0x7f000000 <= number <= 0x7fffffff
    ||| 0x0a000000 <= number <= 0x0affffff
    ||| 0xac100000 <= number <= 0xac1fffff
    ||| 0xc0a80000 <= number <= 0xc0a8ffff
    ||| 0xa9fe0000 <= number <= 0xa9feffff
    ||| number == 0
}

/// An IPv4 address is local exactly where its number is in a local block.
pub proof fn law_local_ipv4_blocks(scheme: Seq<char>, octets: Seq<u8>)
    requires
        octets.len() == 4,
    ensures
        is_local_host(UrlHostView::Ipv4(octets)) <==> is_local_number(ipv4_number(octets)),
        destination_class(
            UrlPartsView { scheme, host: Some(UrlHostView::Ipv4(octets)) },
        ) == DestinationClass::LocalEndpoint <==> is_local_number(ipv4_number(octets)),
{
}

/// An IPv6 address is local exactly where it is `::` or `::1`, is in one of the blocks
/// `fc00::/7` and `fe80::/10`, or maps an IPv4 address in a local block.
pub proof fn law_local_ipv6_blocks(scheme: Seq<char>, segments: Seq<u16>)
    requires
        segments.len() == 8,
    ensures
        ({
            let zeros = segments[0] == 0 && segments[1] == 0 && segments[2] == 0 && segments[3] == 0
                && segments[4] == 0;
            let tail = segments[6] * 0x10000 + segments[7];
            let local = {
                ||| zeros && segments[5] == 0 && (tail == 0 || tail == 1)
                ||| segments[0] / 0x200 == 0x7e
                ||| segments[0] / 0x40 == 0x3fa
                ||| zeros && segments[5] == 0xffff && is_local_number(tail)
            };
            &&& is_local_host(UrlHostView::Ipv6(segments)) <==> local
            &&& destination_class(
                UrlPartsView { scheme, host: Some(UrlHostView::Ipv6(segments)) },
            ) == DestinationClass::LocalEndpoint <==> local
        }),
{
    let zeros = segments[0] == 0 && segments[1] == 0 && segments[2] == 0 && segments[3] == 0
        && segments[4] == 0;
    assert(zeros == (forall|i: int| 0 <= i < 5 ==> #[trigger] segments[i] == 0));
    let octets = mapped_octets(segments);
    assert(octets[0] == segments[6] / 256);
    assert(octets[1] == segments[6] % 256);
    assert(octets[2] == segments[7] / 256);
    assert(octets[3] == segments[7] % 256);
    assert(ipv4_number(octets) == segments[6] * 0x10000 + segments[7]);
    law_local_ipv4_blocks(scheme, octets);
}

/// A name is local exactly where it is `localhost` or ends in `.local`; a URL without a
/// host is not local.
pub proof fn law_local_names(scheme: Seq<char>, name: Seq<char>, start: Seq<char>)
    ensures
        is_local_host(UrlHostView::Domain("localhost"@)),
        is_local_host(UrlHostView::Domain(start + ".local"@)),
        is_local_host(UrlHostView::Domain(name)) ==> name == "localhost"@ || exists|first: Seq<
            char,
        >| name == #[trigger] (first + ".local"@),
        destination_class(UrlPartsView { scheme, host: Some(UrlHostView::Domain(name)) })
            == DestinationClass::LocalEndpoint <==> is_local_host(UrlHostView::Domain(name)),
        destination_class(UrlPartsView { scheme, host: None }) == DestinationClass::Remote,
{
    law_suffix_is_at_the_end(name, ".local"@);
    law_suffix_is_at_the_end(start + ".local"@, ".local"@);
}

/// A URL that a server is to call is judged by its scheme, then by whether it has a host,
/// then by where its host is: it has to be an HTTPS URL of a host that is not local.
pub proof fn law_what_a_server_may_call(scheme: Seq<char>, host: UrlHostView)
    ensures
        ({
            let server = CustomEndpointReachability::RemoteServerReachable;
            let with_host = Some(UrlPartsView { scheme, host: Some(host) });
            let without_host = Some(UrlPartsView { scheme, host: None });
            &&& parts_problem(None, server) == Some(UrlProblem::Invalid)
            &&& scheme != "https"@ ==> parts_problem(with_host, server) == Some(
                UrlProblem::NotHttps,
            )
            &&& scheme != "https"@ ==> parts_problem(without_host, server) == Some(
                UrlProblem::NotHttps,
            )
            &&& scheme == "https"@ ==> parts_problem(without_host, server) == Some(
                UrlProblem::Invalid,
            )
            &&& scheme == "https"@ && is_local_host(host) ==> parts_problem(with_host, server)
                == Some(UrlProblem::LocalHost)
            &&& scheme == "https"@ && !is_local_host(host) ==> parts_problem(with_host, server)
                is None
        }),
{
}

/// A URL that the client on this device is to call is judged by its scheme, then by
/// whether it has a host: it has to be an HTTP or HTTPS URL of any host.
pub proof fn law_what_this_device_may_call(scheme: Seq<char>, host: UrlHostView)
    ensures
        ({
            let device = CustomEndpointReachability::LocalClientReachable;
            let with_host = Some(UrlPartsView { scheme, host: Some(host) });
            let without_host = Some(UrlPartsView { scheme, host: None });
            let web = scheme == "http"@ || scheme == "https"@;
            &&& parts_problem(None, device) == Some(UrlProblem::Invalid)
            &&& !web ==> parts_problem(with_host, device) == Some(UrlProblem::NotHttp)
            &&& !web ==> parts_problem(without_host, device) == Some(UrlProblem::NotHttp)
            &&& web ==> parts_problem(without_host, device) == Some(UrlProblem::Invalid)
            &&& web ==> parts_problem(with_host, device) is None
        }),
{
}

/// A URL is judged without the white space around it, and nothing but white space is not
/// judged.
pub proof fn law_urls_are_judged_without_white_space(
    before: Seq<char>,
    url: Seq<char>,
    after: Seq<char>,
    reachability: CustomEndpointReachability,
)
    requires
        forall|i: int| 0 <= i < before.len() ==> is_white_space(#[trigger] before[i]),
        forall|i: int| 0 <= i < after.len() ==> is_white_space(#[trigger] after[i]),
        url.len() > 0 ==> !is_white_space(url[0]) && !is_white_space(url.last()),
    ensures
        url.len() == 0 ==> url_problem(before + url + after, reachability) is None,
        url.len() > 0 ==> url_problem(before + url + after, reachability) == parts_problem(
            url_parts(url),
            reachability,
        ),
{
    law_trimming_removes_the_white_space_around(before, url, after);
}

/// What a user is told of a problem.
pub proof fn law_texts_of_url_problems()
    ensures
        problem_text(UrlProblem::Invalid) == "Invalid URL"@,
        problem_text(UrlProblem::NotHttps) == "URL must use HTTPS"@,
        problem_text(UrlProblem::NotHttp) == "URL must use HTTP or HTTPS"@,
        problem_text(UrlProblem::LocalHost) == "URL must not use a local or private host"@,
{
}

/// A form is complete exactly where its name and its URL are not blank, nothing is wrong
/// with the URL, there is a model and, for a server, the key is not blank.
pub proof fn law_complete_forms(
    name: Seq<char>,
    url: Seq<char>,
    api_key: Seq<char>,
    has_models: bool,
)
    ensures
        ({
            let server = CustomEndpointReachability::RemoteServerReachable;
            let device = CustomEndpointReachability::LocalClientReachable;
            let named = exists|i: int| 0 <= i < name.len() && !is_white_space(#[trigger] name[i]);
            let located = exists|i: int| 0 <= i < url.len() && !is_white_space(#[trigger] url[i]);
            let keyed = exists|i: int|
                0 <= i < api_key.len() && !is_white_space(#[trigger] api_key[i]);
            &&& endpoint_form_valid(name, url, api_key, has_models, server) <==> (named && located
                && url_problem(url, server) is None && keyed && has_models)
            &&& endpoint_form_valid(name, url, api_key, has_models, device) <==> (named && located
                && url_problem(url, device) is None && has_models)
        }),
{
    law_blank_is_all_white_space(name);
    law_blank_is_all_white_space(url);
    law_blank_is_all_white_space(api_key);
}

/// The view of what is read out of a URL has its scheme and its host, and that of a host
/// is of its kind and has its name or its address.
pub proof fn law_view_of_url_parts(parts: UrlParts, host: UrlHost)
    ensures
        parts.deep_view().scheme == parts.scheme@,
        parts.deep_view().host == parts.host.deep_view(),
        host matches UrlHost::Domain(name) ==> host.deep_view() == UrlHostView::Domain(name@),
        host matches UrlHost::Ipv4(octets) ==> host.deep_view() == UrlHostView::Ipv4(octets@),
        host matches UrlHost::Ipv6(segments) ==> host.deep_view() == UrlHostView::Ipv6(segments@),
{
}

} // verus!
