//! Password-keyed lobby discovery: the token a lobby is advertised and searched by, and the decisions
//! around the asynchronous matchmaking calls.

use sha2::Digest;
use vstd::prelude::*;
use vstd::utf8::encode_utf8;

use crate::text;
use crate::text::{byte_pairs, dec, is_hex_digit, texts};

verus! {

/// The lobby-data key that carries the token.
pub const KEY_PW: &'static str = "usc_pw";

/// The lobby-data key that carries the protocol version.
pub const KEY_VER: &'static str = "usc_ver";

/// The fixed tag in front of the password, so that the token never equals another value derived from
/// it.
pub const TOKEN_DOMAIN: &'static str = "unseamless-coop/lobby-discovery/v1\0";

/// How many bytes of the digest the token shows.
pub const TOKEN_BYTES: usize = 16;

/// The SHA-256 digest of a message.
pub uninterp spec fn sha256(message: Seq<u8>) -> Seq<u8>;

/// `sha2::Sha256::digest` returns the SHA-256 digest of the message, which has 32 bytes.
#[verifier::external_body]
fn sha256_digest(message: &Vec<u8>) -> (digest: Vec<u8>)
    ensures
        digest@ == sha256(message@),
        digest@.len() == 32,
{
    sha2::Sha256::digest(message).to_vec()
}

/// What is hashed for a password: the tag, then the password's own bytes, not normalised in any way.
pub open spec fn token_message(password: Seq<char>) -> Seq<u8> {
    encode_utf8(TOKEN_DOMAIN@) + encode_utf8(password)
}

/// The token of a password.
pub open spec fn token_chars(password: Seq<char>) -> Seq<char> {
    byte_pairs(sha256(token_message(password)).take(TOKEN_BYTES as int))
}

fn extend(out: &mut Vec<u8>, bytes: &[u8])
    ensures
        final(out)@ == old(out)@ + bytes@,
{
    let ghost start = out@;
    let mut i: usize = 0;
    assert(out@ =~= start + bytes@.take(0));
    while i < bytes.len()
        invariant
            i <= bytes@.len(),
            out@ == start + bytes@.take(i as int),
        decreases bytes@.len() - i,
    {
        out.push(bytes[i]);
        i = i + 1;
        assert(out@ =~= start + bytes@.take(i as int));
    }
    assert(bytes@.take(i as int) =~= bytes@);
}

/// The token that shows a digest: its first sixteen bytes in lower-case hexadecimal.
pub fn token_of_digest(digest: &Vec<u8>) -> (token: String)
    requires
        digest@.len() >= TOKEN_BYTES,
    ensures
        token@ == byte_pairs(digest@.take(TOKEN_BYTES as int)),
        token@.len() == 32,
        forall|i: int| 0 <= i < 32 ==> is_hex_digit(#[trigger] token@[i]),
{
    let mut head: Vec<u8> = Vec::new();
    let mut i: usize = 0;
    while i < TOKEN_BYTES
        invariant
            i <= TOKEN_BYTES,
            TOKEN_BYTES <= digest@.len(),
            head@ == digest@.take(i as int),
        decreases TOKEN_BYTES - i,
    {
        head.push(digest[i]);
        i = i + 1;
        assert(head@ =~= digest@.take(i as int));
    }
    proof {
        text::byte_pairs_are_hex(head@);
    }
    text::byte_pairs_text(&head)
}

/// The lobby-discovery token of a password. Both sides must compute it alike, so it is case- and
/// blank-sensitive.
pub fn token(password: &str) -> (token: String)
    ensures
        token@ == token_chars(password@),
        token@.len() == 32,
        forall|i: int| 0 <= i < 32 ==> is_hex_digit(#[trigger] token@[i]),
{
    let mut message: Vec<u8> = Vec::new();
    extend(&mut message, TOKEN_DOMAIN.as_bytes());
    extend(&mut message, password.as_bytes());
    assert(message@ =~= token_message(password@));
    let digest = sha256_digest(&message);
    token_of_digest(&digest)
}

/// The password to use: the given one, or a fixed one for a quick run without any.
pub fn password_or_default(arg: Option<String>) -> (password: String)
    ensures
        password@ == (match arg {
            Some(p) => p@,
            None => "harness-default-password"@,
        }),
{
    match arg {
        Some(p) => p,
        None => "harness-default-password".to_owned(),
    }
}

/// What a poll of an asynchronous result found.
#[derive(Clone, Copy, Debug, PartialEq, Eq, Structural)]
pub enum Polled {
    /// The result is there.
    Ready,
    /// Nobody will deliver it any more.
    Disconnected,
    /// Nothing yet.
    Empty,
}

/// What to do after a poll.
#[derive(Clone, Copy, Debug, PartialEq, Eq, Structural)]
pub enum PumpStep {
    Take,
    GiveUp,
    Wait,
}

/// After pumping the callbacks and polling: take a result that is there, give up when none can come or
/// the deadline is reached, else wait.
pub fn pump_step(polled: Polled, now: u64, deadline: u64) -> (step: PumpStep)
    ensures
        step == (match polled {
            Polled::Ready => PumpStep::Take,
            Polled::Disconnected => PumpStep::GiveUp,
            Polled::Empty => if now >= deadline {
                PumpStep::GiveUp
            } else {
                PumpStep::Wait
            },
        }),
        (step == PumpStep::Take) == (polled == Polled::Ready),
        (step == PumpStep::Wait) == (polled == Polled::Empty && now < deadline),
{
    match polled {
        Polled::Ready => PumpStep::Take,
        Polled::Disconnected => PumpStep::GiveUp,
        Polled::Empty => if now >= deadline {
            PumpStep::GiveUp
        } else {
            PumpStep::Wait
        },
    }
}

/// What to do after an attempt to find a lobby.
#[derive(Debug)]
pub enum RetryStep {
    Found(u64),
    /// Show this line, wait for the lobby data to propagate, and try again.
    Retry(String),
    GiveUp,
}

/// The search after attempt number `attempt` of `attempts`: a lobby ends it, and so does the last
/// attempt.
pub fn after_attempt(found: Option<u64>, attempt: u32, attempts: u32) -> (step: RetryStep)
    ensures
        match step {
            RetryStep::Found(id) => found == Some(id),
            RetryStep::Retry(line) => found is None && attempt < attempts && line@
                == "[steam] no match yet (attempt "@ + dec(attempt as nat) + "/"@ + dec(
                attempts as nat,
            ) + "); waiting for lobby data to propagate…"@,
            RetryStep::GiveUp => found is None && attempt >= attempts,
        },
        step is Found == (found is Some),
        step is Retry == (found is None && attempt < attempts),
{
    match found {
        Some(id) => RetryStep::Found(id),
        None => {
            if attempt < attempts {
                let mut line = "[steam] no match yet (attempt ".to_owned();
                line.append(text::dec_text(attempt as u64).as_str());
                line.append("/");
                line.append(text::dec_text(attempts as u64).as_str());
                line.append("); waiting for lobby data to propagate…");
                RetryStep::Retry(line)
            } else {
                RetryStep::GiveUp
            }
        },
    }
}

/// The lobby that a filtered list leads to: its first entry.
pub fn first_match(list: &Vec<u64>) -> (id: Option<u64>)
    ensures
        id == (if list@.len() == 0 {
            None
        } else {
            Some(list@[0])
        }),
{
    if list.len() == 0 {
        None
    } else {
        Some(list[0])
    }
}

/// How a search for one's own lobby turned out.
#[derive(Clone, Copy, Debug, PartialEq, Eq, Structural)]
pub enum Discovery {
    /// It was found.
    Own,
    /// Another lobby with the same password was found.
    Other(u64),
    /// Nothing was found.
    Missing,
}

/// Compares what a search found with the lobby that was advertised.
pub fn discovery_verdict(found: Option<u64>, own: u64) -> (verdict: Discovery)
    ensures
        verdict == (match found {
            Some(id) => if id == own {
                Discovery::Own
            } else {
                Discovery::Other(id)
            },
            None => Discovery::Missing,
        }),
        (verdict == Discovery::Own) == (found == Some(own)),
        (verdict == Discovery::Missing) == (found is None),
{
    match found {
        Some(id) => if id == own {
            Discovery::Own
        } else {
            Discovery::Other(id)
        },
        None => Discovery::Missing,
    }
}

/// The line for one member of the host's lobby.
pub open spec fn member_chars(member: u64, me: u64) -> Seq<char> {
    "[host]   "@ + dec(member as nat) + (if member == me {
        " (host/us)"@
    } else {
        " (joiner)"@
    })
}

/// The lines on a roster.
pub open spec fn roster_chars(members: Seq<u64>, me: u64) -> Seq<Seq<char>> {
    Seq::empty().push("[host] roster ("@ + dec(members.len()) + " member(s)):"@) + Seq::new(
        members.len(),
        |i: int| member_chars(members[i], me),
    )
}

/// The lines to show for the host's lobby: the roster whenever its size changed, which is remembered.
pub fn roster_lines(last_count: &mut usize, members: &Vec<u64>, me: u64) -> (lines: Vec<String>)
    ensures
        *final(last_count) == members@.len(),
        texts(lines@) == (if members@.len() == *old(last_count) {
            Seq::empty()
        } else {
            roster_chars(members@, me)
        }),
{
    let mut lines: Vec<String> = Vec::new();
    assert(texts(lines@) =~= Seq::empty());
    if members.len() == *last_count {
        return lines;
    }
    *last_count = members.len();
    let mut head = "[host] roster (".to_owned();
    head.append(text::dec_text(members.len() as u64).as_str());
    head.append(" member(s)):");
    lines.push(head);
    let mut i: usize = 0;
    let ghost whole = roster_chars(members@, me);
    assert(texts(lines@) =~= whole.take(1));
    while i < members.len()
        invariant
            i <= members@.len(),
            whole == roster_chars(members@, me),
            texts(lines@) == whole.take(i + 1),
        decreases members@.len() - i,
    {
        let mut line = "[host]   ".to_owned();
        line.append(text::dec_text(members[i]).as_str());
        if members[i] == me {
            line.append(" (host/us)");
        } else {
            line.append(" (joiner)");
        }
        let ghost before = texts(lines@);
        let ghost chars = line@;
        lines.push(line);
        assert(texts(lines@) =~= before.push(chars));
        i = i + 1;
        assert(whole.take(i + 1) =~= whole.take(i as int).push(whole[i as int]));
    }
    assert(whole.take(i + 1) =~= whole);
    lines
}

/// The first lines on a search for one's own lobby. `owner` and `version` are what was read out of the
/// lobby that was found.
pub open spec fn discovery_chars(
    found: Discovery,
    own: u64,
    owner: u64,
    version: Seq<char>,
) -> Seq<Seq<char>> {
    match found {
        Discovery::Own => seq![
            "[lobby] discovery MATCH: found our lobby "@ + dec(own as nat)
                + " via the password filter"@,
            "[lobby] host SteamID from owner (raw u64) = "@ + dec(owner as nat),
            "[lobby] usc_ver read back = "@ + version,
        ],
        Discovery::Other(id) => seq![
            "[lobby] discovery returned a DIFFERENT lobby "@ + dec(id as nat)
                + " (someone else's, same password)"@,
            "[lobby] filter works; couldn't self-match (a real second peer is advertising)"@,
        ],
        Discovery::Missing => seq![
            "[lobby] FAILED: filtered list did not return our own lobby"@,
            "[lobby] (lobby data can lag a beat after CreateLobby; this is the thing to watch)"@,
        ],
    }
}

/// The first lines on a search for one's own lobby; only one that found nothing fails the run.
pub fn discovery_lines(found: Discovery, own: u64, owner: u64, version: &str) -> (lines: Vec<String>)
    ensures
        texts(lines@) == discovery_chars(found, own, owner, version@),
{
    let mut lines: Vec<String> = Vec::new();
    match found {
        Discovery::Own => {
            let mut first = "[lobby] discovery MATCH: found our lobby ".to_owned();
            first.append(text::dec_text(own).as_str());
            first.append(" via the password filter");
            lines.push(first);
            let mut second = "[lobby] host SteamID from owner (raw u64) = ".to_owned();
            second.append(text::dec_text(owner).as_str());
            lines.push(second);
            let mut third = "[lobby] usc_ver read back = ".to_owned();
            third.append(version);
            lines.push(third);
        },
        Discovery::Other(id) => {
            let mut first = "[lobby] discovery returned a DIFFERENT lobby ".to_owned();
            first.append(text::dec_text(id).as_str());
            first.append(" (someone else's, same password)");
            lines.push(first);
            lines.push(
                "[lobby] filter works; couldn't self-match (a real second peer is advertising)".to_owned(),
            );
        },
        Discovery::Missing => {
            lines.push("[lobby] FAILED: filtered list did not return our own lobby".to_owned());
            lines.push(
                "[lobby] (lobby data can lag a beat after CreateLobby; this is the thing to watch)".to_owned(),
            );
        },
    }
    assert(texts(lines@) =~= discovery_chars(found, own, owner, version@));
    lines
}

/// How a call to enter a lobby went.
#[derive(Clone, Copy, Debug, PartialEq, Eq, Structural)]
pub enum JoinOutcome {
    Joined(u64),
    Refused,
    TimedOut,
}

/// The line on entering one's own lobby; nothing that happens there is a failure.
pub fn self_join_line(outcome: JoinOutcome) -> (line: String)
    ensures
        line@ == (match outcome {
            JoinOutcome::Joined(id) => "[lobby] JoinLobby OK (LobbyEnter for "@ + dec(id as nat)
                + ")"@,
            JoinOutcome::Refused =>
                "[lobby] JoinLobby on our own lobby returned err (benign for a self-join)"@,
            JoinOutcome::TimedOut =>
                "[lobby] JoinLobby self-smoke timed out (benign; cross-account join is the real test)"@,
        }),
{
    match outcome {
        JoinOutcome::Joined(id) => {
            let mut out = "[lobby] JoinLobby OK (LobbyEnter for ".to_owned();
            out.append(text::dec_text(id).as_str());
            out.append(")");
            out
        },
        JoinOutcome::Refused =>
            "[lobby] JoinLobby on our own lobby returned err (benign for a self-join)".to_owned(),
        JoinOutcome::TimedOut =>
            "[lobby] JoinLobby self-smoke timed out (benign; cross-account join is the real test)".to_owned(),
    }
}

/// The lines on a lobby that was entered.
pub open spec fn joined_chars(id: u64, owner: u64, version: Seq<char>, ours: Seq<char>) -> Seq<
    Seq<char>,
> {
    seq![
        "[join] joined lobby "@ + dec(id as nat),
        "[join] host SteamID from owner (raw u64) = "@ + dec(owner as nat),
        "[join] lobby usc_ver = "@ + version + " (ours = "@ + ours + ")"@,
        "[join] -> this SteamID + is_host=false is what seeds the rung-2 side-channel"@,
    ]
}

/// What entering another's lobby comes to: the lines on it, or why it failed.
pub fn join_report(outcome: JoinOutcome, owner: u64, version: &str, ours: &str) -> (out: Result<
    Vec<String>,
    String,
>)
    ensures
        match outcome {
            JoinOutcome::Joined(id) => out is Ok && texts(out->Ok_0@) == joined_chars(
                id,
                owner,
                version@,
                ours@,
            ),
            JoinOutcome::Refused => out is Err && out->Err_0@
                == "[join] FAILED: JoinLobby returned an error"@,
            JoinOutcome::TimedOut => out is Err && out->Err_0@
                == "[join] FAILED: JoinLobby timed out"@,
        },
{
    match outcome {
        JoinOutcome::Refused => Err("[join] FAILED: JoinLobby returned an error".to_owned()),
        JoinOutcome::TimedOut => Err("[join] FAILED: JoinLobby timed out".to_owned()),
        JoinOutcome::Joined(id) => {
            let mut lines: Vec<String> = Vec::new();
            let mut first = "[join] joined lobby ".to_owned();
            first.append(text::dec_text(id).as_str());
            lines.push(first);
            let mut second = "[join] host SteamID from owner (raw u64) = ".to_owned();
            second.append(text::dec_text(owner).as_str());
            lines.push(second);
            let mut third = "[join] lobby usc_ver = ".to_owned();
            third.append(version);
            third.append(" (ours = ");
            third.append(ours);
            third.append(")");
            lines.push(third);
            lines.push(
                "[join] -> this SteamID + is_host=false is what seeds the rung-2 side-channel".to_owned(),
            );
            assert(texts(lines@) =~= joined_chars(id, owner, version@, ours@));
            Ok(lines)
        },
    }
}

/// No two passwords are hashed as one: what is hashed differs as soon as the passwords differ in any
/// character, its case and blanks included.
pub proof fn passwords_are_not_normalised(a: Seq<char>, b: Seq<char>)
    requires
        token_message(a) == token_message(b),
    ensures
        a == b,
{
    let tag = encode_utf8(TOKEN_DOMAIN@);
    assert(encode_utf8(a) =~= token_message(a).skip(tag.len() as int));
    assert(encode_utf8(b) =~= token_message(b).skip(tag.len() as int));
    vstd::utf8::encode_utf8_decode_utf8(a);
    vstd::utf8::encode_utf8_decode_utf8(b);
}

/// Every member has a line below the heading, and exactly oneself is marked as the host.
pub proof fn every_member_has_a_line(members: Seq<u64>, me: u64, i: int)
    requires
        0 <= i < members.len(),
    ensures
        roster_chars(members, me).len() == members.len() + 1,
        roster_chars(members, me)[0] == "[host] roster ("@ + dec(members.len()) + " member(s)):"@,
        members[i] == me ==> roster_chars(members, me)[i + 1] == "[host]   "@ + dec(me as nat)
            + " (host/us)"@,
        members[i] != me ==> roster_chars(members, me)[i + 1] == "[host]   "@ + dec(
            members[i] as nat,
        ) + " (joiner)"@,
{
}

/// A search is told for what it found: one's own lobby with who owns it, another's, or none.
pub proof fn a_search_tells_what_it_found(
    own: u64,
    owner: u64,
    id: u64,
    version: Seq<char>,
    ours: Seq<char>,
)
    ensures
        discovery_chars(Discovery::Own, own, owner, version).len() == 3,
        discovery_chars(Discovery::Own, own, owner, version)[0]
            == "[lobby] discovery MATCH: found our lobby "@ + dec(own as nat)
            + " via the password filter"@,
        discovery_chars(Discovery::Own, own, owner, version)[1]
            == "[lobby] host SteamID from owner (raw u64) = "@ + dec(owner as nat),
        discovery_chars(Discovery::Own, own, owner, version)[2] == "[lobby] usc_ver read back = "@
            + version,
        discovery_chars(Discovery::Other(id), own, owner, version)[0]
            == "[lobby] discovery returned a DIFFERENT lobby "@ + dec(id as nat)
            + " (someone else's, same password)"@,
        discovery_chars(Discovery::Missing, own, owner, version)[0]
            == "[lobby] FAILED: filtered list did not return our own lobby"@,
        joined_chars(id, owner, version, ours).len() == 4,
        joined_chars(id, owner, version, ours)[0] == "[join] joined lobby "@ + dec(id as nat),
        joined_chars(id, owner, version, ours)[1] == "[join] host SteamID from owner (raw u64) = "@
            + dec(owner as nat),
        joined_chars(id, owner, version, ours)[2] == "[join] lobby usc_ver = "@ + version
            + " (ours = "@ + ours + ")"@,
        joined_chars(id, owner, version, ours)[3]
            == "[join] -> this SteamID + is_host=false is what seeds the rung-2 side-channel"@,
{
}

/// A token is made of a digest of the password behind the library's own prefix, so that the same password is never
/// searched for as anything else's.
pub proof fn a_token_is_made_behind_a_prefix(password: Seq<char>)
    ensures
        token_message(password) == encode_utf8(TOKEN_DOMAIN@) + encode_utf8(password),
        token_chars(password) == byte_pairs(
            sha256(encode_utf8(TOKEN_DOMAIN@) + encode_utf8(password)).take(16),
        ),
{
}

} // verus!
