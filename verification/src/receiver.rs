//! The local redirect receiver: a single-use endpoint that accepts exactly
//! one valid `(code, state)` query per login attempt, answers it with a short
//! localized page, and rejects everything after it.
//!
//! The HTTP serving itself is the caller's business; this state machine
//! decides, for each request that arrives, whether it is the one accepted
//! delivery, and what the response page says.

use crate::auth::ReceivedCode;
use crate::errors::LauncherError;
use vstd::prelude::*;
use vstd::string::*;

verus! {

/// Whether the first language of an accept-language header is French.
/// Any French variant tag (fr, fr-FR, fr_CA, ...) begins with these two
/// characters, and a leading comma or a shorter header never does.
pub open spec fn is_french(lang: Seq<char>) -> bool {
    lang.len() >= 2 && lang[0] == 'f' && lang[1] == 'r'
}

/// The confirmation message for a request with this accept-language header:
/// French for a French-speaking browser, English for everything else.
pub open spec fn confirmation_message_spec(lang: Seq<char>) -> Seq<char> {
    if is_french(lang) {
        "Vous pouvez maintenant fermer l'onglet!"@
    } else {
        "You can close this tab now!"@
    }
}

/// The confirmation page: the localized message in a heading.
pub open spec fn confirmation_page_spec(lang: Seq<char>) -> Seq<char> {
    "<h1>"@ + confirmation_message_spec(lang) + "</h1>"@
}

/// Picks the localized confirmation message for a request.
pub fn confirmation_message(accept_language: &str) -> (r: &'static str)
    ensures
        r@ == confirmation_message_spec(accept_language@),
{
    if accept_language.unicode_len() >= 2 && accept_language.get_char(0) == 'f'
        && accept_language.get_char(1) == 'r' {
        "Vous pouvez maintenant fermer l'onglet!"
    } else {
        "You can close this tab now!"
    }
}

/// Renders the localized confirmation page for a request.
pub fn confirmation_page(accept_language: &str) -> (r: String)
    ensures
        r@ == confirmation_page_spec(accept_language@),
{
    let mut s = String::from_str("<h1>");
    s.append(confirmation_message(accept_language));
    s.append("</h1>");
    proof {
        assert(s@ =~= confirmation_page_spec(accept_language@));
    }
    s
}

/// Whether a receiver that has already delivered `delivered` codes accepts a
/// request carrying this code and state: only the first request whose code
/// and state are both non-empty is accepted.
pub open spec fn offer_accepted(delivered: bool, code: Seq<char>, state: Seq<char>) -> bool {
    !delivered && code.len() > 0 && state.len() > 0
}

/// Whether the receiver counts as used up after such a request.
pub open spec fn offer_next_delivered(delivered: bool, code: Seq<char>, state: Seq<char>) -> bool {
    delivered || offer_accepted(delivered, code, state)
}

/// The receiver accepts at most one valid redirect: after any accepted
/// offer, every further offer is rejected, however valid it looks.
pub proof fn lemma_receiver_single_use(
    code1: Seq<char>,
    state1: Seq<char>,
    code2: Seq<char>,
    state2: Seq<char>,
)
    requires
        offer_accepted(false, code1, state1),
    ensures
        !offer_accepted(offer_next_delivered(false, code1, state1), code2, state2),
{
}

/// The single-use redirect receiver of one login attempt.
pub struct RedirectReceiver {
    delivered: bool,
}

impl RedirectReceiver {
    /// Whether the one accepted delivery has already happened.
    pub closed spec fn is_delivered(&self) -> bool {
        self.delivered
    }

    /// A fresh receiver that has accepted nothing yet.
    pub fn new() -> (r: RedirectReceiver)
        ensures
            !r.is_delivered(),
    {
        RedirectReceiver { delivered: false }
    }

    /// Offers one incoming request to the receiver. The first request whose
    /// code and state are both non-empty is accepted and answered with the
    /// localized confirmation page; an empty code or state, and every
    /// request after the accepted one, is rejected.
    pub fn offer(&mut self, code: &str, state: &str, accept_language: &str) -> (r: Option<
        (ReceivedCode, String),
    >)
        ensures
            final(self).is_delivered() == offer_next_delivered(
                old(self).is_delivered(),
                code@,
                state@,
            ),
            r is Some <==> offer_accepted(old(self).is_delivered(), code@, state@),
            (match r {
                Some(p) => p.0.code@ == code@ && p.0.state@ == state@ && p.1@
                    == confirmation_page_spec(accept_language@),
                None => true,
            }),
    {
        if self.delivered || code.is_empty() || state.is_empty() {
            return None;
        }
        self.delivered = true;
        let received = ReceivedCode { code: String::from_str(code), state: String::from_str(state) };
        let page = confirmation_page(accept_language);
        Some((received, page))
    }
}

/// How the redirect wait ended: the server task failed, a valid code
/// arrived, or the deadline passed — whichever happened first.
#[derive(Debug)]
pub enum RedirectWaitOutcome {
    ServerClosed,
    Received(ReceivedCode),
    TimedOut,
}

/// Classifies the first-resolved outcome of the redirect wait: a received
/// code lets the chain proceed, a dead server is a closed channel, and the
/// deadline is a timeout.
pub fn resolve_redirect_wait(outcome: RedirectWaitOutcome) -> (r: Result<
    ReceivedCode,
    LauncherError,
>)
    ensures
        (match outcome {
            RedirectWaitOutcome::Received(rc) => r is Ok && r->Ok_0 == rc,
            RedirectWaitOutcome::ServerClosed => r is Err && r->Err_0 is ChannelClosed,
            RedirectWaitOutcome::TimedOut => r is Err && r->Err_0 is RedirectTimeout,
        }),
{
    match outcome {
        RedirectWaitOutcome::Received(rc) => Ok(rc),
        RedirectWaitOutcome::ServerClosed => Err(LauncherError::ChannelClosed),
        RedirectWaitOutcome::TimedOut => Err(LauncherError::RedirectTimeout),
    }
}

} // verus!
