//! Rules of the local HTTP interface: who may use it, and what is answered.

use crate::config::EngineProbe;
use crate::pairing::pair_refusal;
use crate::supervisor::{start_refusal, Supervision};
use crate::tail::{redact_error, told};
use crate::text::{
    after_prefix, blank, characters, decimal, decimal_text, has_text, is_digit, joined,
    law_decimal_is_read_back, maybe_text, occurs_at, same_text, text_contains,
};
use vstd::prelude::*;
use vstd::string::*;

verus! {

/// The request cannot be carried out as it is.
pub const BAD_REQUEST: u16 = 400;

/// The request is not for this sender to make.
pub const FORBIDDEN: u16 = 403;

/// Something went wrong that is not the sender's doing.
pub const INTERNAL_SERVER_ERROR: u16 = 500;

/// Whether an error of the restream supervisor is the sender's doing.
pub open spec fn is_client_error(error: Seq<char>) -> bool {
    ||| has_text(error, "not configured"@)
    ||| has_text(error, "not paired"@)
    ||| has_text(error, "must not be empty"@)
}

/// The status code for an error of the restream supervisor.
pub fn error_status(error: &str) -> (code: u16)
    ensures
        code == if is_client_error(error@) {
            BAD_REQUEST
        } else {
            INTERNAL_SERVER_ERROR
        },
{
    if text_contains(error, "not configured") || text_contains(error, "not paired")
        || text_contains(error, "must not be empty") {
        BAD_REQUEST
    } else {
        INTERNAL_SERVER_ERROR
    }
}

/// What is answered to a request that failed.
#[derive(Debug)]
pub struct ErrorAnswer {
    pub status: u16,
    pub error: String,
}

/// The answer to a restream request that failed with `error`, on a computer
/// that holds `token`. The status code is that of the error as it was.
pub fn error_answer(error: String, token: &Option<String>) -> (answer: ErrorAnswer)
    ensures
        answer.status == if is_client_error(error@) {
            BAD_REQUEST
        } else {
            INTERNAL_SERVER_ERROR
        },
        answer.error@ == told(error@, maybe_text(*token)),
{
    let status = error_status(&error);
    ErrorAnswer { status, error: redact_error(error, token) }
}

proof fn lemma_found(hay: Seq<char>, needle: Seq<char>, at: int)
    requires
        0 <= at,
        at + needle.len() <= hay.len(),
        forall|i: int| 0 <= i < needle.len() ==> hay[at + i] == needle[i],
    ensures
        has_text(hay, needle),
{
    assert(hay.subrange(at, at + needle.len()) =~= needle);
    assert(occurs_at(hay, needle, at));
}

/// Requests that lack something are answered as the sender's error: pairing
/// without a code, and pairing or starting without a backend or, for starting,
/// without having paired.
pub proof fn law_incomplete_requests_are_client_errors(
    code: Seq<char>,
    convex_url: Option<Seq<char>>,
    s: Supervision,
    engine: EngineProbe,
)
    ensures
        blank(code) || convex_url is None ==> (pair_refusal(code, convex_url, engine) matches Some(
            error,
        ) && is_client_error(error)),
        engine.is_file ==> (start_refusal(s, engine) matches Some(error) ==> is_client_error(
            error,
        )),
{
    reveal_strlit("pairing code must not be empty");
    reveal_strlit("must not be empty");
    reveal_strlit("RESTREAM_CONVEX_URL is not configured");
    reveal_strlit("not configured");
    reveal_strlit("restream device is not paired");
    reveal_strlit("not paired");
    lemma_found("pairing code must not be empty"@, "must not be empty"@, 13);
    lemma_found("RESTREAM_CONVEX_URL is not configured"@, "not configured"@, 23);
    lemma_found("restream device is not paired"@, "not paired"@, 19);
}

/// A port number: one or more digits.
pub open spec fn is_port(s: Seq<char>) -> bool {
    s.len() > 0 && forall|i: int| 0 <= i < s.len() ==> is_digit(s[i])
}

/// `host`, alone or followed by a colon and a port.
pub open spec fn names_host(authority: Seq<char>, host: Seq<char>) -> bool {
    ||| authority == host
    ||| occurs_at(authority, host + ":"@, 0) && is_port(authority.skip((host + ":"@).len() as int))
}

/// An authority that names this computer.
pub open spec fn is_local(authority: Seq<char>) -> bool {
    names_host(authority, "localhost"@) || names_host(authority, "127.0.0.1"@)
}

/// An origin on this computer.
pub open spec fn is_local_origin(origin: Seq<char>) -> bool {
    occurs_at(origin, "http://"@, 0) && is_local(origin.skip("http://"@.len() as int))
}

/// Whether setup and restream control are open to a request with these `Host`
/// and `Origin` headers: the host must name this computer, and an origin must
/// be on it.
pub open spec fn may_control(host: Option<Seq<char>>, origin: Option<Seq<char>>) -> bool {
    &&& host matches Some(h) && is_local(h)
    &&& origin matches Some(o) ==> is_local_origin(o)
}

/// Whether `s` is a port number.
fn port_like(s: &str) -> (is: bool)
    ensures
        is == is_port(s@),
{
    let chars = characters(s);
    let mut i: usize = 0;
    while i < chars.len()
        invariant
            i <= chars.len(),
            chars@ == s@,
            forall|j: int| 0 <= j < i ==> is_digit(chars[j]),
        decreases chars.len() - i,
    {
        if chars[i] < '0' || chars[i] > '9' {
            assert(!is_digit(s@[i as int]));
            return false;
        }
        i = i + 1;
    }
    chars.len() > 0
}

/// Whether `authority` is `host`, alone or with a port. `with_colon` is `host`
/// followed by a colon.
fn matches_host(authority: &str, host: &str, with_colon: &str) -> (is: bool)
    requires
        with_colon@ == host@ + ":"@,
    ensures
        is == names_host(authority@, host@),
{
    if same_text(authority, host) {
        return true;
    }
    match after_prefix(authority, with_colon) {
        Some(port) => port_like(port),
        None => false,
    }
}

/// Whether `authority` names this computer.
fn local_authority(authority: &str) -> (is: bool)
    ensures
        is == is_local(authority@),
{
    proof {
        reveal_strlit("localhost");
        reveal_strlit("localhost:");
        reveal_strlit("127.0.0.1");
        reveal_strlit("127.0.0.1:");
        reveal_strlit(":");
        assert("localhost:"@ =~= "localhost"@ + ":"@);
        assert("127.0.0.1:"@ =~= "127.0.0.1"@ + ":"@);
    }
    matches_host(authority, "localhost", "localhost:") || matches_host(
        authority,
        "127.0.0.1",
        "127.0.0.1:",
    )
}

/// Why a request for setup or restream control is refused: the status code, or
/// none if the request may be carried out.
pub fn control_refusal(host: Option<&str>, origin: Option<&str>) -> (refusal: Option<u16>)
    ensures
        refusal == if may_control(
            match host {
                Some(h) => Some(h@),
                None => None,
            },
            match origin {
                Some(o) => Some(o@),
                None => None,
            },
        ) {
            None
        } else {
            Some(FORBIDDEN)
        },
{
    let host_is_local = match host {
        Some(h) => local_authority(h),
        None => false,
    };
    let origin_is_local = match origin {
        Some(o) => match after_prefix(o, "http://") {
            Some(authority) => local_authority(authority),
            None => false,
        },
        None => true,
    };
    if host_is_local && origin_is_local {
        None
    } else {
        Some(FORBIDDEN)
    }
}

/// Whether a path belongs to setup or restream control.
pub open spec fn is_control_path(path: Seq<char>) -> bool {
    ||| path == "/setup"@
    ||| path == "/setup.js"@
    ||| path == "/setup.css"@
    ||| occurs_at(path, "/restream/"@, 0)
}

/// Why a request is refused, if it is: setup and restream control are for this
/// computer only, the audio routes are open to every page.
pub fn request_refusal(path: &str, host: Option<&str>, origin: Option<&str>) -> (refusal: Option<
    u16,
>)
    ensures
        refusal == if is_control_path(path@) && !may_control(
            match host {
                Some(h) => Some(h@),
                None => None,
            },
            match origin {
                Some(o) => Some(o@),
                None => None,
            },
        ) {
            Some(FORBIDDEN)
        } else {
            None
        },
{
    if same_text(path, "/setup") || same_text(path, "/setup.js") || same_text(path, "/setup.css")
        || after_prefix(path, "/restream/").is_some() {
        control_refusal(host, origin)
    } else {
        None
    }
}

/// Whatever the headers say, the audio routes are not refused; and whatever the
/// host, a request for restream control from a page of another site is.
pub proof fn law_remote_pages_may_play_but_not_control(
    host: Option<Seq<char>>,
    origin: Seq<char>,
    command: Seq<char>,
)
    requires
        !is_local_origin(origin),
    ensures
        !is_control_path("/play"@),
        !is_control_path("/stop"@),
        !is_control_path("/devices"@),
        !is_control_path("/health"@),
        is_control_path("/restream/"@ + command),
        !may_control(host, Some(origin)),
{
    reveal_strlit("/play");
    reveal_strlit("/stop");
    reveal_strlit("/devices");
    reveal_strlit("/health");
    reveal_strlit("/setup");
    reveal_strlit("/setup.js");
    reveal_strlit("/setup.css");
    reveal_strlit("/restream/");
    assert("/play"@[1] == 'p' && "/stop"@[2] == 't' && "/devices"@[1] == 'd' && "/health"@[1]
        == 'h' && "/setup"@[2] == 'e' && "/setup.js"@[1] == 's' && "/setup.css"@[1] == 's');
    assert(("/restream/"@ + command).subrange(0, "/restream/"@.len() as int) =~= "/restream/"@);
}

/// The address that the server listens on: this computer only.
pub fn listen_address(port: u16) -> (address: String)
    ensures
        address@ == "127.0.0.1:"@ + decimal(port as nat),
{
    joined("127.0.0.1:", &decimal_text(port as u64))
}

/// The parts of the setup page.
#[derive(Clone, Copy, Debug, PartialEq, Eq, Structural)]
pub enum SetupAsset {
    Page,
    Script,
    Style,
}

/// The content type of a part of the setup page.
pub open spec fn content_type(asset: SetupAsset) -> Seq<char> {
    match asset {
        SetupAsset::Page => "text/html; charset=utf-8"@,
        SetupAsset::Script => "text/javascript; charset=utf-8"@,
        SetupAsset::Style => "text/css; charset=utf-8"@,
    }
}

/// The content security policy of the setup page: everything it needs comes
/// from this server, and nothing may frame it.
pub const SETUP_POLICY: &'static str = "default-src 'none'; script-src 'self'; style-src 'self'; connect-src 'self'; frame-ancestors 'none'; base-uri 'none'; form-action 'self'";

/// The headers that a part of the setup page is sent with, in order.
pub open spec fn asset_headers(asset: SetupAsset) -> Seq<(Seq<char>, Seq<char>)> {
    seq![
        ("content-type"@, content_type(asset)),
        ("cache-control"@, "no-store"@),
        ("x-content-type-options"@, "nosniff"@),
        ("x-frame-options"@, "DENY"@),
        ("referrer-policy"@, "no-referrer"@),
        ("content-security-policy"@, SETUP_POLICY@),
    ]
}

/// The headers that a part of the setup page is sent with, in order.
pub fn asset(part: SetupAsset) -> (headers: Vec<(&'static str, &'static str)>)
    ensures
        headers@.map_values(|h: (&'static str, &'static str)| (h.0@, h.1@)) == asset_headers(
            part,
        ),
{
    let kind = match part {
        SetupAsset::Page => "text/html; charset=utf-8",
        SetupAsset::Script => "text/javascript; charset=utf-8",
        SetupAsset::Style => "text/css; charset=utf-8",
    };
    let mut headers: Vec<(&'static str, &'static str)> = Vec::new();
    headers.push(("content-type", kind));
    headers.push(("cache-control", "no-store"));
    headers.push(("x-content-type-options", "nosniff"));
    headers.push(("x-frame-options", "DENY"));
    headers.push(("referrer-policy", "no-referrer"));
    headers.push(("content-security-policy", SETUP_POLICY));
    assert(headers@.map_values(|h: (&'static str, &'static str)| (h.0@, h.1@)) =~= asset_headers(
        part,
    ));
    headers
}

/// An error is the sender's exactly if it says that something is not configured,
/// not paired or empty.
pub proof fn law_client_errors_name_what_is_missing(before: Seq<char>, after: Seq<char>)
    ensures
        is_client_error(before + "not configured"@ + after),
        is_client_error(before + "not paired"@ + after),
        is_client_error(before + "must not be empty"@ + after),
        !has_text(before, "not configured"@) && !has_text(before, "not paired"@) && !has_text(
            before,
            "must not be empty"@,
        ) ==> !is_client_error(before),
{
    lemma_found(
        before + "not configured"@ + after,
        "not configured"@,
        before.len() as int,
    );
    lemma_found(before + "not paired"@ + after, "not paired"@, before.len() as int);
    lemma_found(
        before + "must not be empty"@ + after,
        "must not be empty"@,
        before.len() as int,
    );
}

/// This computer is named by `localhost` and `127.0.0.1`, alone or with any
/// port.
pub proof fn law_this_computer_is_local(port: nat)
    ensures
        is_local("localhost"@),
        is_local("127.0.0.1"@),
        is_local("localhost:"@ + decimal(port)),
        is_local("127.0.0.1:"@ + decimal(port)),
{
    reveal_strlit("localhost");
    reveal_strlit("localhost:");
    reveal_strlit("127.0.0.1");
    reveal_strlit("127.0.0.1:");
    reveal_strlit(":");
    law_decimal_is_read_back(port);
    let one = "localhost:"@ + decimal(port);
    let other = "127.0.0.1:"@ + decimal(port);
    assert("localhost:"@ =~= "localhost"@ + ":"@);
    assert("127.0.0.1:"@ =~= "127.0.0.1"@ + ":"@);
    assert(one.subrange(0, 10) =~= "localhost:"@);
    assert(one.skip(10) =~= decimal(port));
    assert(other.subrange(0, 10) =~= "127.0.0.1:"@);
    assert(other.skip(10) =~= decimal(port));
}

/// Nothing else names this computer: what follows the name is a colon and
/// digits, or nothing.
pub proof fn law_only_this_computer_is_local(authority: Seq<char>)
    requires
        is_local(authority),
    ensures
        authority.len() >= 9,
        authority.take(9) == "localhost"@ || authority.take(9) == "127.0.0.1"@,
        authority.len() > 9 ==> authority.len() > 10 && authority[9] == ':' && forall|i: int|
            10 <= i < authority.len() ==> is_digit(#[trigger] authority[i]),
{
    reveal_strlit("localhost");
    reveal_strlit("127.0.0.1");
    reveal_strlit(":");
    assert(authority.len() == 9 ==> authority.take(9) =~= authority);
    let host = if names_host(authority, "localhost"@) {
        "localhost"@
    } else {
        "127.0.0.1"@
    };
    if authority != host {
        let named = host + ":"@;
        assert(authority.subrange(0, 10) == named);
        assert(authority.take(9) =~= named.take(9));
        assert(named.take(9) =~= host);
        assert(authority[9] == authority.subrange(0, 10)[9]);
        assert forall|i: int| 10 <= i < authority.len() implies is_digit(
            #[trigger] authority[i],
        ) by {
            assert(authority.skip(10)[i - 10] == authority[i]);
        }
    } else {
        assert(authority.take(9) =~= host);
    }
}

/// An origin is on this computer exactly if it is plain HTTP and its authority
/// names this computer.
pub proof fn law_local_origin_is_http(origin: Seq<char>, authority: Seq<char>)
    ensures
        is_local_origin("http://"@ + authority) == is_local(authority),
        !occurs_at(origin, "http://"@, 0) ==> !is_local_origin(origin),
{
    let full = "http://"@ + authority;
    let n = "http://"@.len() as int;
    assert(full.subrange(0, n) =~= "http://"@);
    assert(full.skip(n) =~= authority);
}

/// Control is open to a request that is addressed to this computer and comes
/// from it, or from no page at all, and to no other.
pub proof fn law_control_is_for_this_computer(host: Seq<char>, origin: Seq<char>)
    ensures
        may_control(Some(host), None) == is_local(host),
        may_control(Some(host), Some(origin)) == (is_local(host) && is_local_origin(origin)),
        !may_control(None, None),
        !may_control(None, Some(origin)),
{
}

/// The setup page and all below `/restream/` is control, and nothing that starts
/// otherwise.
pub proof fn law_control_has_its_paths(path: Seq<char>)
    ensures
        is_control_path("/setup"@),
        is_control_path("/setup.js"@),
        is_control_path("/setup.css"@),
        is_control_path(path) && path != "/setup"@ && path != "/setup.js"@ && path
            != "/setup.css"@ ==> path.len() >= 10 && path.take(10) == "/restream/"@,
{
    reveal_strlit("/restream/");
    if path.len() >= 10 {
        assert(path.take(10) =~= path.subrange(0, 10));
    }
}

/// Every part of the setup page is sent with the same six headers, but for its
/// content type, and must not be kept, sniffed or framed.
pub proof fn law_setup_page_is_guarded(asset: SetupAsset)
    ensures
        asset_headers(asset).len() == 6,
        asset_headers(asset)[0] == ("content-type"@, content_type(asset)),
        asset_headers(asset).contains(("cache-control"@, "no-store"@)),
        asset_headers(asset).contains(("x-content-type-options"@, "nosniff"@)),
        asset_headers(asset).contains(("x-frame-options"@, "DENY"@)),
        asset_headers(asset).contains(("referrer-policy"@, "no-referrer"@)),
        asset_headers(asset).contains(("content-security-policy"@, SETUP_POLICY@)),
        content_type(SetupAsset::Page) == "text/html; charset=utf-8"@,
        content_type(SetupAsset::Script) == "text/javascript; charset=utf-8"@,
        content_type(SetupAsset::Style) == "text/css; charset=utf-8"@,
{
    let headers = asset_headers(asset);
    assert(headers[1] == ("cache-control"@, "no-store"@));
    assert(headers[2] == ("x-content-type-options"@, "nosniff"@));
    assert(headers[3] == ("x-frame-options"@, "DENY"@));
    assert(headers[4] == ("referrer-policy"@, "no-referrer"@));
    assert(headers[5] == ("content-security-policy"@, SETUP_POLICY@));
}

} // verus!
