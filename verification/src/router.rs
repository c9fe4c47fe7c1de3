//! The command router: decides, for one incoming chat message, whether it is
//! a command, which verb it carries, whether its argument is a valid song
//! identifier or catalog URL, and which reply and action follow.

use vstd::prelude::*;
use vstd::string::*;

use crate::text::{
    all_alnum, has_prefix, has_prefix_spec, is_alnum_token, str_eq, token_views, tokenize,
    tokens_of, trim_trailing,
};

verus! {

/// What the router decides for a message, at the specification level.
/// `BsrRequest` carries the resolved content identifier.
pub enum RouteDecision {
    Ignored,
    Pong,
    QuitDenied,
    QuitGranted,
    BsrUsage,
    BsrInvalidUrl,
    BsrInvalidId,
    BsrRequest(Seq<char>),
}

/// What the router decides for a message. `BsrRequest` carries the resolved
/// content identifier, to be handed to the acquisition pipeline.
#[derive(Debug)]
pub enum RouteOutcome {
    Ignored,
    Pong,
    QuitDenied,
    QuitGranted,
    BsrUsage,
    BsrInvalidUrl,
    BsrInvalidId,
    BsrRequest(String),
}

impl View for RouteOutcome {
    type V = RouteDecision;

    open spec fn view(&self) -> RouteDecision {
        match self {
            RouteOutcome::Ignored => RouteDecision::Ignored,
            RouteOutcome::Pong => RouteDecision::Pong,
            RouteOutcome::QuitDenied => RouteDecision::QuitDenied,
            RouteOutcome::QuitGranted => RouteDecision::QuitGranted,
            RouteOutcome::BsrUsage => RouteDecision::BsrUsage,
            RouteOutcome::BsrInvalidUrl => RouteDecision::BsrInvalidUrl,
            RouteOutcome::BsrInvalidId => RouteDecision::BsrInvalidId,
            RouteOutcome::BsrRequest(id) => RouteDecision::BsrRequest(id@),
        }
    }
}

/// The one invoker identity allowed to issue the shutdown command.
pub open spec fn authorized_invoker() -> Seq<char> {
    "dice2x5"@
}

/// The argument with its scheme marker removed, where it carries one.
pub open spec fn strip_scheme(s: Seq<char>) -> Seq<char> {
    if has_prefix_spec(s, "https://"@) {
        s.skip("https://"@.len() as int)
    } else {
        s
    }
}

/// The identifier a catalog song URL resolves to: after the scheme and any
/// trailing slashes are removed, the remainder must be exactly the catalog
/// host, the songs segment, and one further separator-free segment, which is
/// the identifier; any other shape resolves to nothing.
pub open spec fn url_song_id(arg: Seq<char>) -> Option<Seq<char>> {
    let t = trim_trailing(strip_scheme(arg), '/');
    let p = "bsaber.com/songs/"@;
    if t.len() > p.len() && t.subrange(0, p.len() as int) == p && (forall|k: int|
        p.len() <= k < t.len() ==> (#[trigger] t[k]) != '/')
    {
        Some(t.subrange(p.len() as int, t.len() as int))
    } else {
        None
    }
}

/// How the request verb's argument token is classified: URL-form arguments go
/// through `url_song_id`, any other argument must be entirely alphanumeric.
pub open spec fn classify_request_arg(arg: Seq<char>) -> RouteDecision {
    if has_prefix_spec(arg, "https"@) {
        match url_song_id(arg) {
            Some(id) => RouteDecision::BsrRequest(id),
            None => RouteDecision::BsrInvalidUrl,
        }
    } else if all_alnum(arg) {
        RouteDecision::BsrRequest(arg)
    } else {
        RouteDecision::BsrInvalidId
    }
}

/// The router's full decision for a message `text` sent by `author`: messages
/// without the leading command marker are ignored, the remainder is split on
/// whitespace, and the first token selects the verb.
pub open spec fn spec_route(author: Seq<char>, text: Seq<char>) -> RouteDecision {
    if text.len() == 0 || text[0] != '!' {
        RouteDecision::Ignored
    } else {
        let toks = tokens_of(text.skip(1));
        if toks.len() == 0 {
            RouteDecision::Ignored
        } else if toks[0] == "ping"@ {
            RouteDecision::Pong
        } else if toks[0] == "quit"@ {
            if author == authorized_invoker() {
                RouteDecision::QuitGranted
            } else {
                RouteDecision::QuitDenied
            }
        } else if toks[0] == "bsr"@ {
            if toks.len() < 2 {
                RouteDecision::BsrUsage
            } else {
                classify_request_arg(toks[1])
            }
        } else {
            RouteDecision::Ignored
        }
    }
}

/// Extracts the song identifier from a catalog URL argument, exactly where
/// `url_song_id` resolves one.
pub fn validate_url(arg: &str) -> (r: Option<String>)
    ensures
        (r is Some) == (url_song_id(arg@) is Some),
        r matches Some(id) ==> url_song_id(arg@) matches Some(v) && id@ == v,
{
    let n = arg.unicode_len();
    let scheme = "https://";
    let stripped: &str = if has_prefix(arg, scheme) {
        arg.substring_char(scheme.unicode_len(), n)
    } else {
        arg
    };
    proof {
        assert(stripped@ =~= strip_scheme(arg@));
    }
    let m0 = stripped.unicode_len();
    let mut m: usize = m0;
    loop
        invariant_except_break
            m <= m0,
            m0 == stripped@.len(),
            forall|k: int| m <= k < m0 ==> #[trigger] stripped@[k] == '/',
        ensures
            m <= m0,
            m0 == stripped@.len(),
            forall|k: int| m <= k < m0 ==> #[trigger] stripped@[k] == '/',
            m == 0 || stripped@[m - 1] != '/',
        decreases m,
    {
        if m == 0 {
            break;
        }
        if stripped.get_char(m - 1) != '/' {
            break;
        }
        m -= 1;
    }
    proof {
        crate::text::lemma_trim_trailing(stripped@, '/', m as int);
    }
    let trimmed = stripped.substring_char(0, m);
    proof {
        assert(trimmed@ == trim_trailing(strip_scheme(arg@), '/'));
    }
    let p = "bsaber.com/songs/";
    let plen = p.unicode_len();
    let tlen = trimmed.unicode_len();
    if !has_prefix(trimmed, p) {
        proof {
            assert(url_song_id(arg@) is None);
        }
        return None;
    }
    if tlen <= plen {
        proof {
            assert(url_song_id(arg@) is None);
        }
        return None;
    }
    let mut k: usize = plen;
    while k < tlen
        invariant
            plen <= k <= tlen,
            tlen == trimmed@.len(),
            plen == p@.len(),
            tlen > plen,
            p@ == "bsaber.com/songs/"@,
            trimmed@ == trim_trailing(strip_scheme(arg@), '/'),
            forall|j: int| plen <= j < k ==> (#[trigger] trimmed@[j]) != '/',
        decreases tlen - k,
    {
        if trimmed.get_char(k) == '/' {
            proof {
                let t = trim_trailing(strip_scheme(arg@), '/');
                assert(t[k as int] == '/');
                assert(!(forall|j: int|
                    "bsaber.com/songs/"@.len() <= j < t.len() ==> (#[trigger] t[j]) != '/')) by {
                    assert("bsaber.com/songs/"@.len() <= k as int && (k as int) < t.len()
                        && t[k as int] == '/');
                }
                assert(url_song_id(arg@) is None);
            }
            return None;
        }
        k += 1;
    }
    let id = trimmed.substring_char(plen, tlen);
    Some(String::from_str(id))
}

/// Classifies the request verb's argument token, per `classify_request_arg`.
pub fn classify_request(arg: &str) -> (r: RouteOutcome)
    ensures
        r@ == classify_request_arg(arg@),
{
    if has_prefix(arg, "https") {
        match validate_url(arg) {
            Some(id) => RouteOutcome::BsrRequest(id),
            None => RouteOutcome::BsrInvalidUrl,
        }
    } else if is_alnum_token(arg) {
        RouteOutcome::BsrRequest(String::from_str(arg))
    } else {
        RouteOutcome::BsrInvalidId
    }
}

/// Routes one chat message: the executable decision equals `spec_route` on
/// the message's author and text.
pub fn route(author: &str, text: &str) -> (r: RouteOutcome)
    ensures
        r@ == spec_route(author@, text@),
{
    let n = text.unicode_len();
    if n == 0 {
        return RouteOutcome::Ignored;
    }
    if text.get_char(0) != '!' {
        return RouteOutcome::Ignored;
    }
    let rest = text.substring_char(1, n);
    proof {
        assert(rest@ =~= text@.skip(1));
    }
    let toks = tokenize(rest);
    if toks.len() == 0 {
        return RouteOutcome::Ignored;
    }
    proof {
        assert(toks@[0]@ == token_views(toks@)[0]);
    }
    if str_eq(toks[0].as_str(), "ping") {
        RouteOutcome::Pong
    } else if str_eq(toks[0].as_str(), "quit") {
        if str_eq(author, "dice2x5") {
            RouteOutcome::QuitGranted
        } else {
            RouteOutcome::QuitDenied
        }
    } else if str_eq(toks[0].as_str(), "bsr") {
        if toks.len() < 2 {
            RouteOutcome::BsrUsage
        } else {
            proof {
                assert(toks@[1]@ == token_views(toks@)[1]);
            }
            classify_request(toks[1].as_str())
        }
    } else {
        RouteOutcome::Ignored
    }
}

/// A chat reply, either addressed to the invoker or broadcast to the channel.
#[derive(Debug)]
pub enum ChatReply {
    Addressed(String),
    Broadcast(String),
}

/// The immediate reply each routing decision calls for. Request decisions
/// reply only after metadata resolution, through `announcement`.
pub fn reply_for(o: &RouteOutcome) -> (r: Option<ChatReply>)
    ensures
        match o {
            RouteOutcome::Ignored => r is None,
            RouteOutcome::Pong => r matches Some(ChatReply::Addressed(t)) && t@ == "Pong!"@,
            RouteOutcome::QuitDenied => r matches Some(ChatReply::Addressed(t)) && t@
                == "You do not have permissions to run this command."@,
            RouteOutcome::QuitGranted => r matches Some(ChatReply::Broadcast(t)) && t@
                == "Shutting down..."@,
            RouteOutcome::BsrUsage => r matches Some(ChatReply::Addressed(t)) && t@
                == "You must provide a song ID or URL from https://bsaber.com."@,
            RouteOutcome::BsrInvalidUrl => r matches Some(ChatReply::Addressed(t)) && t@
                == "Invalid bsaber URL."@,
            RouteOutcome::BsrInvalidId => r matches Some(ChatReply::Addressed(t)) && t@
                == "Invalid bsaber song ID."@,
            RouteOutcome::BsrRequest(_) => r is None,
        },
{
    match o {
        RouteOutcome::Ignored => None,
        RouteOutcome::Pong => Some(ChatReply::Addressed(String::from_str("Pong!"))),
        RouteOutcome::QuitDenied => Some(
            ChatReply::Addressed(
                String::from_str("You do not have permissions to run this command."),
            ),
        ),
        RouteOutcome::QuitGranted => Some(
            ChatReply::Broadcast(String::from_str("Shutting down...")),
        ),
        RouteOutcome::BsrUsage => Some(
            ChatReply::Addressed(
                String::from_str("You must provide a song ID or URL from https://bsaber.com."),
            ),
        ),
        RouteOutcome::BsrInvalidUrl => Some(
            ChatReply::Addressed(String::from_str("Invalid bsaber URL.")),
        ),
        RouteOutcome::BsrInvalidId => Some(
            ChatReply::Addressed(String::from_str("Invalid bsaber song ID.")),
        ),
        RouteOutcome::BsrRequest(_) => None,
    }
}

/// The broadcast announcement sent once a request's metadata resolves.
pub fn announcement(author: &str, name: &str, url: &str) -> (r: String)
    ensures
        r@ == "@"@ + author@ + " requested "@ + name@ + " ("@ + url@ + ")"@,
{
    let mut r = String::from_str("@");
    r.append(author);
    r.append(" requested ");
    r.append(name);
    r.append(" (");
    r.append(url);
    r.append(")");
    r
}

/// A message that does not carry the leading command marker is never
/// dispatched: the router ignores it, with no reply and no action.
pub proof fn lemma_no_prefix_ignored(author: Seq<char>, text: Seq<char>)
    requires
        text.len() == 0 || text[0] != '!',
    ensures
        spec_route(author, text) == RouteDecision::Ignored,
{
}

/// A request argument outside the URL form that holds any character other
/// than an ASCII letter or digit is classified as an invalid identifier:
/// exactly the invalid-identifier reply follows, and no resolution.
pub proof fn lemma_bad_id_rejected(arg: Seq<char>)
    requires
        !has_prefix_spec(arg, "https"@),
        !all_alnum(arg),
    ensures
        classify_request_arg(arg) == RouteDecision::BsrInvalidId,
{
}

/// A URL-form request argument from which no identifier resolves is
/// classified as an invalid URL: exactly the invalid-URL reply follows,
/// and no resolution.
pub proof fn lemma_bad_url_rejected(arg: Seq<char>)
    requires
        has_prefix_spec(arg, "https"@),
        url_song_id(arg) is None,
    ensures
        classify_request_arg(arg) == RouteDecision::BsrInvalidUrl,
{
}

/// A canonical catalog song URL resolves to exactly the identifier segment,
/// with or without a trailing slash.
#[verifier::rlimit(100)]
pub proof fn lemma_url_id_extracted(id: Seq<char>)
    requires
        id.len() > 0,
        forall|k: int| 0 <= k < id.len() ==> (#[trigger] id[k]) != '/',
    ensures
        classify_request_arg("https://bsaber.com/songs/"@ + id + "/"@) == RouteDecision::BsrRequest(
            id,
        ),
        classify_request_arg("https://bsaber.com/songs/"@ + id) == RouteDecision::BsrRequest(id),
{
    reveal_strlit("https");
    reveal_strlit("https://");
    reveal_strlit("bsaber.com/songs/");
    reveal_strlit("https://bsaber.com/songs/");
    let base = "https://bsaber.com/songs/"@;
    let p = "bsaber.com/songs/"@;
    let arg1 = base + id + "/"@;
    let arg2 = base + id;
    reveal_strlit("/");
    assert(arg1.subrange(0, 5) =~= "https"@);
    assert(arg2.subrange(0, 5) =~= "https"@);
    assert(arg1.subrange(0, 8) =~= "https://"@);
    assert(arg2.subrange(0, 8) =~= "https://"@);
    let s1 = arg1.skip(8);
    let s2 = arg2.skip(8);
    assert(s1 =~= p + id + "/"@);
    assert(s2 =~= p + id);
    assert(strip_scheme(arg1) == s1);
    assert(strip_scheme(arg2) == s2);
    crate::text::lemma_trim_trailing(s1, '/', s1.len() - 1);
    assert(s1.take(s1.len() - 1) =~= p + id);
    crate::text::lemma_trim_trailing(s2, '/', s2.len() as int);
    assert(s2.take(s2.len() as int) =~= p + id);
    let t = p + id;
    assert(t.subrange(0, p.len() as int) =~= p);
    assert(forall|k: int| p.len() <= k < t.len() ==> (#[trigger] t[k]) != '/');
    assert(t.subrange(p.len() as int, t.len() as int) =~= id);
}

/// The shutdown command obeys the fixed authorized identity: any other
/// invoker is always denied and never reaches shutdown; the authorized
/// invoker is always granted exactly the shutdown decision.
pub proof fn lemma_quit_authorization(author: Seq<char>, text: Seq<char>)
    requires
        text.len() > 0,
        text[0] == '!',
        tokens_of(text.skip(1)).len() > 0,
        tokens_of(text.skip(1))[0] == "quit"@,
    ensures
        author != authorized_invoker() ==> spec_route(author, text) == RouteDecision::QuitDenied,
        author == authorized_invoker() ==> spec_route(author, text) == RouteDecision::QuitGranted,
{
    assert("quit"@ != "ping"@) by {
        reveal_strlit("quit");
        reveal_strlit("ping");
        assert("quit"@[0] == 'q');
        assert("ping"@[0] == 'p');
    }
}

/// A well-formed request command is decided entirely by its argument token.
pub proof fn lemma_request_arg_decides(author: Seq<char>, text: Seq<char>)
    requires
        text.len() > 0,
        text[0] == '!',
        tokens_of(text.skip(1)).len() >= 2,
        tokens_of(text.skip(1))[0] == "bsr"@,
    ensures
        spec_route(author, text) == classify_request_arg(tokens_of(text.skip(1))[1]),
{
    assert("bsr"@ != "ping"@ && "bsr"@ != "quit"@) by {
        reveal_strlit("bsr");
        reveal_strlit("ping");
        reveal_strlit("quit");
        assert("bsr"@.len() == 3);
        assert("ping"@.len() == 4);
        assert("quit"@.len() == 4);
    }
}

} // verus!
