//! Pairing this computer with an OCvoice organization, through the engine.

use crate::config::{ensure_engine_exists, missing_engine, EngineProbe};
use crate::tail::{
    credential_char, credential_word, has_credential_word, law_shown_line_is_clean,
    sanitize_tail_line, sanitized,
};
use crate::text::{
    after_prefix, before_last, blank, entries, first_chars, is_blank, is_white_space, joined,
    last_line, lemma_entries_of_line, lemma_last_line, lemma_trimmed_as_is, maybe_text, occurs_at, same_text,
    text_entries, text_last_line, texts, trim, trimmed,
};
use std::string::FromUtf8Error;
use vstd::prelude::*;
use vstd::string::*;
use vstd::utf8::{decode_utf8, valid_utf8};

verus! {

/// How many seconds the engine may take for pairing.
pub const PAIR_TIMEOUT_SECS: u64 = 30;

/// The line after which the engine shows the device token.
pub const TOKEN_MARKER: &'static str = "Device token (store it — shown once):";

/// How the line starts in which the engine names the organization.
pub const ORG_PREFIX: &'static str = "Paired with ";

/// `std::string::FromUtf8Error`, declared so that a failed conversion can be
/// told from a successful one.
#[verifier::external_type_specification]
#[verifier::external_body]
pub struct ExFromUtf8Error(FromUtf8Error);

/// `String::from_utf8` succeeds on valid UTF-8 and on nothing else, and gives
/// the characters that the bytes encode.
pub assume_specification[ String::from_utf8 ](vec: Vec<u8>) -> (result: Result<
    String,
    FromUtf8Error,
>)
    ensures
        result is Ok == valid_utf8(vec@),
        result matches Ok(text) ==> text@ == decode_utf8(vec@),
;

/// The text that `String::from_utf8_lossy` makes of bytes.
pub uninterp spec fn lossy_text(bytes: Seq<u8>) -> Seq<char>;

/// `String::from_utf8_lossy` depends on the bytes alone, and gives the
/// characters that they encode if they are valid UTF-8. What it puts in place
/// of invalid bytes is not stated.
#[verifier::external_body]
fn utf8_lossy(bytes: &Vec<u8>) -> (text: String)
    ensures
        text@ == lossy_text(bytes@),
        valid_utf8(bytes@) ==> text@ == decode_utf8(bytes@),
{
    String::from_utf8_lossy(bytes).into_owned()
}

/// A pairing run of the engine that is to be made.
pub struct PairCommand {
    /// The backend to pair with.
    pub convex_url: String,
    /// The engine's arguments.
    pub args: Vec<String>,
}

/// How a pairing run went.
pub enum PairRun {
    /// It took too long.
    TimedOut,
    /// Why the engine could not be run.
    NotRun(String),
    /// The engine ended: whether it succeeded, and what it printed.
    Finished { success: bool, stdout: Vec<u8>, stderr: Vec<u8> },
}

/// What a pairing run brought.
pub struct Pairing {
    pub token: String,
    pub org_name: String,
}

/// Why a pairing cannot be tried, if it cannot.
pub open spec fn pair_refusal(
    code: Seq<char>,
    convex_url: Option<Seq<char>>,
    engine: EngineProbe,
) -> Option<Seq<char>> {
    if blank(code) {
        Some("pairing code must not be empty"@)
    } else if convex_url is None {
        Some("RESTREAM_CONVEX_URL is not configured"@)
    } else if !engine.is_file {
        Some(missing_engine(engine.path@))
    } else {
        None
    }
}

/// The engine's arguments for pairing. A blank name is left out.
pub open spec fn pair_args(
    convex_url: Seq<char>,
    code: Seq<char>,
    name: Option<Seq<char>>,
) -> Seq<Seq<char>> {
    let args = seq!["pair"@, "--convex"@, convex_url, "--code"@, code];
    match name {
        Some(n) => if blank(n) {
            args
        } else {
            args + seq!["--name"@, n]
        },
        None => args,
    }
}

/// The pairing run for a request, or why there is none.
pub fn pair_command(
    code: String,
    name: Option<String>,
    convex_url: &Option<String>,
    engine: &EngineProbe,
) -> (result: Result<PairCommand, String>)
    ensures
        match result {
            Ok(command) => {
                &&& pair_refusal(code@, maybe_text(*convex_url), *engine) is None
                &&& Some(command.convex_url@) == maybe_text(*convex_url)
                &&& texts(command.args@) == pair_args(
                    command.convex_url@,
                    code@,
                    maybe_text(name),
                )
            },
            Err(message) => pair_refusal(code@, maybe_text(*convex_url), *engine) == Some(
                message@,
            ),
        },
{
    if is_blank(&code) {
        return Err("pairing code must not be empty".to_owned());
    }
    let convex_url = match convex_url {
        Some(url) => url.clone(),
        None => return Err("RESTREAM_CONVEX_URL is not configured".to_owned()),
    };
    if let Err(message) = ensure_engine_exists(engine) {
        return Err(message);
    }
    let mut args: Vec<String> = Vec::new();
    args.push("pair".to_owned());
    args.push("--convex".to_owned());
    args.push(convex_url.clone());
    args.push("--code".to_owned());
    args.push(code);
    assert(texts(args@) =~= seq!["pair"@, "--convex"@, convex_url@, "--code"@, code@]);
    if let Some(name) = name {
        if !is_blank(&name) {
            let ghost before = texts(args@);
            args.push("--name".to_owned());
            args.push(name);
            assert(texts(args@) =~= before + seq!["--name"@, name@]);
        }
    }
    Ok(PairCommand { convex_url, args })
}

/// The organization that a line names, if it is the line that does.
pub open spec fn announced_org(line: Seq<char>) -> Option<Seq<char>> {
    let prefix = ORG_PREFIX@.len() as int;
    if occurs_at(line, ORG_PREFIX@, 0) && line.len() > prefix && line.last() == '.' {
        Some(line.subrange(prefix, line.len() - 1))
    } else {
        None
    }
}

/// The organization that the first such line names; empty if there is none.
pub open spec fn first_org(lines: Seq<Seq<char>>) -> Seq<char>
    decreases lines.len(),
{
    if lines.len() == 0 {
        Seq::empty()
    } else {
        match announced_org(lines[0]) {
            Some(org) => org,
            None => first_org(lines.drop_first()),
        }
    }
}

/// What a pairing response says: the device token and the organization, or
/// what is missing from it.
pub open spec fn pairing_response(text: Seq<char>) -> Result<(Seq<char>, Seq<char>), Seq<char>> {
    let lines = entries(text);
    if !lines.contains(TOKEN_MARKER@) {
        Err("restream pairing response did not include the device-token marker"@)
    } else if !lines.drop_last().contains(TOKEN_MARKER@) {
        Err("restream pairing response did not include a device token"@)
    } else if first_org(lines).len() == 0 {
        Err("restream pairing response did not include an organization name"@)
    } else {
        Ok((lines.last(), first_org(lines)))
    }
}

/// The organization that a line names, if it is the line that does.
fn org_in_line(line: &str) -> (org: Option<String>)
    ensures
        maybe_text(org) == announced_org(line@),
{
    if let Some(rest) = after_prefix(line, ORG_PREFIX) {
        if let Some(name) = before_last(rest, '.') {
            assert(name@ == line@.subrange(ORG_PREFIX@.len() as int, line@.len() - 1));
            return Some(name.to_owned());
        }
    }
    None
}

/// Reads what a successful engine printed.
pub fn parse_pairing(stdout: &str) -> (result: Result<Pairing, String>)
    ensures
        match result {
            Ok(pairing) => pairing_response(stdout@) == Ok::<_, Seq<char>>(
                (pairing.token@, pairing.org_name@),
            ),
            Err(message) => pairing_response(stdout@) == Err::<(Seq<char>, Seq<char>), _>(
                message@,
            ),
        },
{
    let lines = text_entries(stdout);
    let len: usize = lines.len();
    let ghost all = entries(stdout@);
    assert(forall|i: int| 0 <= i < len ==> (#[trigger] texts(lines@)[i]) == lines@[i]@);
    let mut marker: usize = 0;
    while marker < len && !same_text(&lines[marker], TOKEN_MARKER)
        invariant
            marker <= len == lines.len(),
            all == texts(lines@),
            forall|i: int| 0 <= i < marker ==> #[trigger] all[i] != TOKEN_MARKER@,
        decreases len - marker,
    {
        marker = marker + 1;
    }
    if marker == len {
        return Err(
            "restream pairing response did not include the device-token marker".to_owned(),
        );
    }
    assert(all[marker as int] == TOKEN_MARKER@);
    if marker >= len - 1 {
        assert forall|i: int| 0 <= i < len - 1 implies #[trigger] all.drop_last()[i]
            != TOKEN_MARKER@ by {
            assert(all[i] != TOKEN_MARKER@);
        }
        return Err("restream pairing response did not include a device token".to_owned());
    }
    assert(all.drop_last()[marker as int] == TOKEN_MARKER@);
    let mut org_name = String::new();
    let mut i: usize = 0;
    assert(all.skip(0) == all);
    while i < len
        invariant_except_break
            i <= len == lines.len(),
            all == texts(lines@),
            org_name@ == Seq::<char>::empty(),
            first_org(all) == first_org(all.skip(i as int)),
        ensures
            org_name@ == first_org(all),
        decreases len - i,
    {
        assert(all.skip(i as int)[0] == lines@[i as int]@);
        assert(all.skip(i as int).drop_first() == all.skip(i + 1));
        if let Some(org) = org_in_line(&lines[i]) {
            org_name = org;
            break;
        }
        i = i + 1;
    }
    if org_name.as_str().is_empty() {
        return Err(
            "restream pairing response did not include an organization name".to_owned(),
        );
    }
    assert(all.last() == lines@[len - 1]@);
    Ok(Pairing { token: lines[len - 1].clone(), org_name })
}

/// The message for an engine that ended without success, from what it printed.
pub open spec fn pairing_failure(stderr: Seq<char>) -> Seq<char> {
    let detail = if blank(stderr) {
        "engine exited unsuccessfully"@
    } else {
        last_line(trimmed(stderr))
    };
    "restream pairing failed: "@ + sanitized(detail, None)
}

/// The message for an engine that ended without success: its last line, if
/// that holds no credential.
pub fn pairing_failure_message(stderr: &str) -> (message: String)
    ensures
        message@ == pairing_failure(stderr@),
{
    let printed = trim(stderr);
    let detail = if printed.is_empty() {
        "engine exited unsuccessfully"
    } else {
        text_last_line(printed)
    };
    joined("restream pairing failed: ", &sanitize_tail_line(detail, None))
}

/// What a pairing run comes to.
pub open spec fn pairing_outcome(run: PairRun) -> Result<(Seq<char>, Seq<char>), Seq<char>> {
    match run {
        PairRun::TimedOut => Err("restream pairing timed out after 30 seconds"@),
        PairRun::NotRun(error) => Err(
            "failed to run restream engine for pairing: "@ + error@,
        ),
        PairRun::Finished { success, stdout, stderr } => {
            if !success {
                Err(pairing_failure(lossy_text(stderr@)))
            } else if !valid_utf8(stdout@) {
                Err("restream pairing returned non-UTF-8 output"@)
            } else {
                pairing_response(decode_utf8(stdout@))
            }
        },
    }
}

/// What a pairing run comes to.
pub fn finish_pairing(run: PairRun) -> (result: Result<Pairing, String>)
    ensures
        match result {
            Ok(pairing) => pairing_outcome(run) == Ok::<_, Seq<char>>(
                (pairing.token@, pairing.org_name@),
            ),
            Err(message) => pairing_outcome(run) == Err::<(Seq<char>, Seq<char>), _>(message@),
        },
{
    match run {
        PairRun::TimedOut => Err("restream pairing timed out after 30 seconds".to_owned()),
        PairRun::NotRun(error) => Err(
            joined("failed to run restream engine for pairing: ", &error),
        ),
        PairRun::Finished { success, stdout, stderr } => {
            if !success {
                return Err(pairing_failure_message(&utf8_lossy(&stderr)));
            }
            match String::from_utf8(stdout) {
                Ok(text) => parse_pairing(&text),
                Err(_) => Err("restream pairing returned non-UTF-8 output".to_owned()),
            }
        },
    }
}

/// How much of a device token may be logged: its first six characters, or none
/// if that would be all of it.
pub open spec fn token_hint(token: Seq<char>) -> Seq<char> {
    if token.len() > 6 {
        token.take(6)
    } else {
        "<redacted>"@
    }
}

/// The log message for a pairing that has been stored.
pub fn paired_message(pairing: &Pairing, path: &str) -> (message: String)
    ensures
        message@ == "[Restream] Paired with "@ + pairing.org_name@ + "; stored device token "@
            + token_hint(pairing.token@) + "… at "@ + path@,
{
    let mut message = joined("[Restream] Paired with ", &pairing.org_name);
    message.append("; stored device token ");
    if pairing.token.as_str().unicode_len() > 6 {
        message.append(first_chars(&pairing.token, 6));
    } else {
        message.append("<redacted>");
    }
    message.append("… at ");
    message.append(path);
    message
}

/// A response of the form that the engine prints is understood: the token and
/// the organization come back as they were printed.
pub proof fn law_response_is_understood(org: Seq<char>, token: Seq<char>)
    requires
        org.len() > 0,
        token.len() > 0,
        trimmed(token) == token,
        forall|i: int| 0 <= i < org.len() ==> org[i] != '\n',
        forall|i: int| 0 <= i < token.len() ==> token[i] != '\n',
    ensures
        pairing_response(
            ORG_PREFIX@ + org + ".\n"@ + TOKEN_MARKER@ + "\n"@ + token + "\n"@,
        ) == Ok::<_, Seq<char>>((token, org)),
{
    reveal_strlit("Paired with ");
    reveal_strlit("Device token (store it — shown once):");
    reveal_strlit(".\n");
    reveal_strlit("\n");
    let text = ORG_PREFIX@ + org + ".\n"@ + TOKEN_MARKER@ + "\n"@ + token + "\n"@;
    let first = ORG_PREFIX@ + org + seq!['.'];
    let last = token + seq!['\n'] + Seq::<char>::empty();
    let middle = TOKEN_MARKER@ + seq!['\n'] + last;
    assert(text =~= first + seq!['\n'] + middle);
    assert forall|i: int| 0 <= i < first.len() implies first[i] != '\n' by {}
    lemma_trimmed_as_is(first);
    lemma_trimmed_as_is(TOKEN_MARKER@);
    lemma_entries_of_line(first, middle);
    lemma_entries_of_line(TOKEN_MARKER@, last);
    lemma_entries_of_line(token, Seq::empty());
    let lines = entries(text);
    assert(lines =~= seq![first, TOKEN_MARKER@, token]);
    assert(lines[1] == TOKEN_MARKER@);
    assert(lines.drop_last()[1] == TOKEN_MARKER@);
    assert(first.subrange(0, ORG_PREFIX@.len() as int) =~= ORG_PREFIX@);
    assert(occurs_at(first, ORG_PREFIX@, 0));
    assert(announced_org(first) == Some(org)) by {
        assert(first.subrange(ORG_PREFIX@.len() as int, first.len() - 1) =~= org);
    }
}

/// What is logged of a device token is never the token, and at most six of its
/// characters.
pub proof fn law_token_is_not_logged(token: Seq<char>)
    ensures
        token_hint(token) != token,
        token_hint(token) == "<redacted>"@ || token_hint(token) == token.take(6),
{
    reveal_strlit("<redacted>");
}

/// The message for an engine that ended without success shows no word that
/// looks like a credential.
pub proof fn law_failure_shows_no_credential(stderr: Seq<char>)
    ensures
        !has_credential_word(pairing_failure(stderr)),
{
    reveal_strlit("restream pairing failed: ");
    let detail = if blank(stderr) {
        "engine exited unsuccessfully"@
    } else {
        last_line(trimmed(stderr))
    };
    let shown = sanitized(detail, None);
    let prefix = "restream pairing failed: "@;
    let message = prefix + shown;
    law_shown_line_is_clean(detail, None);
    assert forall|start: int, end: int| !credential_word(message, start, end) by {
        if credential_word(message, start, end) {
            let n = prefix.len() as int;
            assert(is_white_space(message[n - 1]));
            assert(end > n);
            assert(start >= n);
            assert(credential_word(shown, start - n, end - n)) by {
                assert forall|i: int| start - n <= i < end - n implies !is_white_space(
                    shown[i],
                ) && credential_char(shown[i]) by {
                    assert(shown[i] == message[i + n]);
                }
                if start > n {
                    assert(shown[start - n - 1] == message[start - 1]);
                }
                if end < message.len() {
                    assert(shown[end - n] == message[end]);
                }
            }
        }
    }
}

/// A pairing is tried exactly if there is a code, a backend and an engine; else
/// the first that is missing is named.
pub proof fn law_pairing_needs_code_backend_and_engine(
    code: Seq<char>,
    convex_url: Option<Seq<char>>,
    engine: EngineProbe,
)
    ensures
        pair_refusal(code, convex_url, engine) is None <==> trimmed(code).len() > 0 && convex_url
            is Some && engine.is_file,
        trimmed(code).len() == 0 ==> pair_refusal(code, convex_url, engine) == Some(
            "pairing code must not be empty"@,
        ),
        trimmed(code).len() > 0 && convex_url is None ==> pair_refusal(code, convex_url, engine)
            == Some("RESTREAM_CONVEX_URL is not configured"@),
        trimmed(code).len() > 0 && convex_url is Some && !engine.is_file ==> pair_refusal(
            code,
            convex_url,
            engine,
        ) == Some("restream engine binary not found at "@ + engine.path@),
{
}

/// The engine is given the backend and the code as they are, and the name as it
/// is if there is one that is not blank.
pub proof fn law_engine_gets_backend_code_and_name(
    convex_url: Seq<char>,
    code: Seq<char>,
    name: Option<Seq<char>>,
)
    ensures
        ({
            let args = pair_args(convex_url, code, name);
            let named = name is Some && trimmed(name->0).len() > 0;
            &&& args.len() == if named {
                7nat
            } else {
                5nat
            }
            &&& args[0] == "pair"@
            &&& args[1] == "--convex"@
            &&& args[2] == convex_url
            &&& args[3] == "--code"@
            &&& args[4] == code
            &&& named ==> args[5] == "--name"@ && args[6] == name->0
        }),
{
}

/// Whether a line says with which organization this computer was paired.
pub open spec fn says_paired(line: Seq<char>) -> bool {
    occurs_at(line, "Paired with "@, 0) && line.last() == '.'
}

proof fn lemma_first_org(lines: Seq<Seq<char>>, at: int)
    requires
        0 <= at <= lines.len(),
        forall|j: int| 0 <= j < at ==> announced_org(#[trigger] lines[j]) is None,
    ensures
        at == lines.len() ==> first_org(lines) == Seq::<char>::empty(),
        at < lines.len() && announced_org(lines[at]) is Some ==> Some(first_org(lines))
            == announced_org(lines[at]),
    decreases at,
{
    if at > 0 {
        let rest = lines.drop_first();
        assert(announced_org(lines[0]) is None);
        assert forall|j: int| 0 <= j < at - 1 implies announced_org(#[trigger] rest[j]) is None by {
            assert(rest[j] == lines[j + 1]);
        }
        lemma_first_org(rest, at - 1);
        if at < lines.len() {
            assert(rest[at - 1] == lines[at]);
        }
    }
}

/// Whatever else the engine prints, the token is its last line, and the
/// organization is the one of the first line that names one, as long as the
/// marker stands before the last line.
pub proof fn law_token_is_the_last_line(
    text: Seq<char>,
    marker: int,
    named: int,
    org: Seq<char>,
)
    requires
        0 <= marker < entries(text).len() - 1,
        entries(text)[marker] == "Device token (store it — shown once):"@,
        0 <= named < entries(text).len(),
        entries(text)[named] == "Paired with "@ + org + "."@,
        org.len() > 0,
        forall|j: int| 0 <= j < named ==> !says_paired(#[trigger] entries(text)[j]),
    ensures
        pairing_response(text) == Ok::<_, Seq<char>>((entries(text).last(), org)),
{
    reveal_strlit("Paired with ");
    reveal_strlit(".");
    let lines = entries(text);
    assert(lines.drop_last()[marker] == TOKEN_MARKER@);
    let line = lines[named];
    assert(line.subrange(0, 12) =~= "Paired with "@);
    assert(line.subrange(12, line.len() - 1) =~= org);
    assert forall|j: int| 0 <= j < named implies announced_org(#[trigger] lines[j]) is None by {
        assert(!says_paired(lines[j]));
    }
    lemma_first_org(lines, named);
}

/// A response without the marker, with nothing after it, or without the name of
/// an organization is refused, and the first of these is named.
pub proof fn law_incomplete_response_is_refused(text: Seq<char>)
    ensures
        ({
            let lines = entries(text);
            let marker = "Device token (store it — shown once):"@;
            let marked = exists|i: int| 0 <= i < lines.len() && #[trigger] lines[i] == marker;
            let followed = exists|i: int|
                0 <= i < lines.len() - 1 && #[trigger] lines[i] == marker;
            &&& !marked ==> pairing_response(text) == Err::<(Seq<char>, Seq<char>), _>(
                "restream pairing response did not include the device-token marker"@,
            )
            &&& marked && !followed ==> pairing_response(text) == Err::<
                (Seq<char>, Seq<char>),
                _,
            >("restream pairing response did not include a device token"@)
            &&& followed && (forall|i: int|
                0 <= i < lines.len() ==> !says_paired(#[trigger] lines[i])) ==> pairing_response(
                text,
            ) == Err::<(Seq<char>, Seq<char>), _>(
                "restream pairing response did not include an organization name"@,
            )
        }),
{
    let lines = entries(text);
    let marker = TOKEN_MARKER@;
    if lines.len() > 0 && lines.drop_last().contains(marker) {
        let i = choose|i: int| 0 <= i < lines.drop_last().len() && lines.drop_last()[i] == marker;
        assert(lines[i] == marker);
    }
    if exists|i: int| 0 <= i < lines.len() - 1 && #[trigger] lines[i] == marker {
        let i = choose|i: int| 0 <= i < lines.len() - 1 && #[trigger] lines[i] == marker;
        assert(lines.drop_last()[i] == marker);
    }
    if forall|i: int| 0 <= i < lines.len() ==> !says_paired(#[trigger] lines[i]) {
        assert forall|i: int| 0 <= i < lines.len() implies announced_org(
            #[trigger] lines[i],
        ) is None by {
            assert(!says_paired(lines[i]));
        }
        lemma_first_org(lines, lines.len() as int);
    }
}

/// Only an engine that ended in time and with success, and printed text, has
/// paired this computer: then what it printed decides, and nothing else. What
/// went wrong otherwise is told.
pub proof fn law_only_success_pairs(run: PairRun)
    ensures
        pairing_outcome(run) is Ok ==> run is Finished && run->success && valid_utf8(run->stdout@),
        run is TimedOut ==> pairing_outcome(run) == Err::<(Seq<char>, Seq<char>), _>(
            "restream pairing timed out after 30 seconds"@,
        ),
        run matches PairRun::NotRun(error) ==> pairing_outcome(run) == Err::<
            (Seq<char>, Seq<char>),
            _,
        >("failed to run restream engine for pairing: "@ + error@),
        run matches PairRun::Finished { success, stdout, stderr } ==> (success && valid_utf8(
            stdout@,
        ) ==> pairing_outcome(run) == pairing_response(decode_utf8(stdout@))),
        run matches PairRun::Finished { success, stdout, stderr } ==> (!success
            ==> pairing_outcome(run) == Err::<(Seq<char>, Seq<char>), _>(
            pairing_failure(lossy_text(stderr@)),
        )),
        run matches PairRun::Finished { success, stdout, stderr } ==> (success && !valid_utf8(
            stdout@,
        ) ==> pairing_outcome(run) == Err::<(Seq<char>, Seq<char>), _>(
            "restream pairing returned non-UTF-8 output"@,
        )),
{
}

/// An engine that failed is quoted with the last line that it printed, if that
/// may be shown, whatever it printed before.
pub proof fn law_failure_quotes_the_last_line(before: Seq<char>, line: Seq<char>)
    requires
        line.len() > 0,
        !is_white_space(line[0]),
        !is_white_space(line.last()),
        forall|i: int| 0 <= i < line.len() ==> line[i] != '\n',
        before.len() > 0 ==> !is_white_space(before[0]),
        sanitized(line, None) == line,
    ensures
        pairing_failure(line) == "restream pairing failed: "@ + line,
        before.len() > 0 ==> pairing_failure(before + seq!['\n'] + line)
            == "restream pairing failed: "@ + line,
{
    lemma_trimmed_as_is(line);
    lemma_last_line(line, 0);
    assert(line.skip(0) =~= line);
    if before.len() > 0 {
        let text = before + seq!['\n'] + line;
        let start = before.len() as int + 1;
        assert(text[0] == before[0]);
        assert(text.last() == line.last());
        lemma_trimmed_as_is(text);
        assert forall|i: int| start <= i < text.len() implies text[i] != '\n' by {
            assert(text[i] == line[i - start]);
        }
        assert(text[start - 1] == '\n');
        lemma_last_line(text, start);
        assert(text.skip(start) =~= line);
    }
}

/// A long token is hinted at by its first six characters, a short one by none.
pub proof fn law_hint_is_the_start_of_a_long_token(token: Seq<char>)
    ensures
        token.len() > 6 ==> token_hint(token) == token.subrange(0, 6),
        token.len() <= 6 ==> token_hint(token) == "<redacted>"@,
{
}

} // verus!
