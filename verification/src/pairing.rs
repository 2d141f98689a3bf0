//! Pairing with the companion app: connection details, tokens and the app's messages.
use crate::json::{contents, get, parse, parsed, text_member, Json};
use crate::text::{
    all_digits, decimal, decimal_has_six_digits, decimal_is_all_digits, decimal_is_injective,
    decimal_stands_for_its_number, decimal_text, followed_by, numeral_value, occurs, result_text,
    same_text,
};
use vstd::prelude::*;

verus! {

/// The port on which the companion app connects.
pub const PORT: u16 = 8765;

/// The number of the token that is issued at a time, in milliseconds.
pub open spec fn token_number(now: u128) -> nat {
    (now % 900_000 + 100_000) as nat
}

/// The token that is issued at a time, in milliseconds.
pub open spec fn token_at(now: u128) -> Seq<char> {
    decimal(token_number(now))
}

/// The connection details that the companion app is shown.
pub open spec fn details(ip: Seq<char>, token: Seq<char>) -> Seq<char> {
    "{\"ip\": \""@ + ip + "\", \"port\": "@ + decimal(PORT as nat) + ", \"token\": \""@ + token
        + "\"}"@
}

/// The address on which the companion app's connections are accepted.
pub open spec fn listening() -> Seq<char> {
    "0.0.0.0:"@ + decimal(PORT as nat)
}

/// The address on which the companion app's connections are accepted.
pub fn listen_address() -> (address: String)
    ensures
        address@ == listening(),
{
    followed_by("0.0.0.0:", decimal_text(PORT as u64).as_str())
}

/// What a message of the companion app leads to, as data.
pub enum ReactionView {
    Reply { text: Seq<char>, close: bool },
    Forward(Seq<char>),
    Nothing,
}

/// What a message of the companion app leads to.
pub enum Reaction {
    /// The text is sent back, and the connection is closed after it or not.
    Reply { text: String, close: bool },
    /// The message is a command and handed on.
    Forward(String),
    /// The message is dropped.
    Nothing,
}

impl View for Reaction {
    type V = ReactionView;

    open spec fn view(&self) -> ReactionView {
        match self {
            Reaction::Reply { text, close } => ReactionView::Reply { text: text@, close: *close },
            Reaction::Forward(text) => ReactionView::Forward(text@),
            Reaction::Nothing => ReactionView::Nothing,
        }
    }
}

/// Whether an action is a command for the training.
pub open spec fn is_command(action: Seq<char>) -> bool {
    ||| action == "stop_training"@
    ||| action == "start_training"@
    ||| action == "adjust_params"@
}

/// The token in a message; empty where the message has none.
pub open spec fn offered_token(message: Json) -> Seq<char> {
    match text_member(message, "token"@) {
        Some(token) => token,
        None => seq![],
    }
}

/// What the message `message`, written as `text`, leads to while `token` is valid. An empty token
/// is never valid.
pub open spec fn reaction(message: Json, text: Seq<char>, token: Seq<char>) -> ReactionView {
    match text_member(message, "action"@) {
        Some(action) => if action == "auth"@ {
            if offered_token(message) == token && token.len() > 0 {
                ReactionView::Reply { text: "{\"status\": \"authenticated\"}"@, close: false }
            } else {
                ReactionView::Reply { text: "{\"status\": \"auth_failed\"}"@, close: true }
            }
        } else if is_command(action) {
            ReactionView::Forward(text)
        } else {
            ReactionView::Nothing
        },
        None => ReactionView::Nothing,
    }
}

/// The token that pairs the companion app; its view is empty until one is issued.
pub struct Pairing {
    token: String,
}

impl View for Pairing {
    type V = Seq<char>;

    closed spec fn view(&self) -> Seq<char> {
        self.token@
    }
}

impl Pairing {
    /// The token is empty or has six digits.
    #[verifier::type_invariant]
    spec fn well_formed(self) -> bool {
        self.token@.len() == 0 || (self.token@.len() == 6 && all_digits(self.token@))
    }

    /// Before a token is issued.
    pub fn new() -> (pairing: Pairing)
        ensures
            pairing@ == Seq::<char>::empty(),
    {
        Pairing { token: String::new() }
    }

    /// Issues a token and gives the connection details with it, for the address of this machine
    /// and the time in milliseconds. Where the address could not be found, for the reason given, no
    /// token is issued.
    pub fn get_connection_details(&mut self, local_ip: Result<String, String>, now: u128) -> (result:
        Result<String, String>)
        ensures
            (match result_text(local_ip) {
                Ok(ip) => result_text(result) == Ok::<Seq<char>, Seq<char>>(
                    details(ip, token_at(now)),
                ) && final(self)@ == token_at(now),
                Err(reason) => result_text(result) == Err::<Seq<char>, Seq<char>>(
                    "Failed to get local IP: "@ + reason,
                ) && final(self)@ == old(self)@,
            }),
    {
        match local_ip {
            Ok(ip) => {
                let number: u64 = (now % 900_000) as u64 + 100_000;
                let token = decimal_text(number);
                let mut text = followed_by("{\"ip\": \"", ip.as_str());
                text.append("\", \"port\": ");
                text.append(decimal_text(PORT as u64).as_str());
                text.append(", \"token\": \"");
                text.append(token.as_str());
                text.append("\"}");
                proof {
                    issued_token_has_six_digits(now);
                }
                self.token = token;
                Ok(text)
            },
            Err(reason) => Err(followed_by("Failed to get local IP: ", reason.as_str())),
        }
    }

    /// What the parsed message `message`, written as `text`, leads to.
    pub fn react(&self, message: &serde_json::Value, text: &str) -> (result: Reaction)
        ensures
            result@ == reaction(contents(*message), text@, self@),
    {
        let action = match get(message, "action") {
            Some(value) => match value.as_str() {
                Some(s) => s,
                None => {
                    return Reaction::Nothing;
                },
            },
            None => {
                return Reaction::Nothing;
            },
        };
        if same_text(action, "auth") {
            let offered = match get(message, "token") {
                Some(value) => match value.as_str() {
                    Some(s) => s.to_owned(),
                    None => String::new(),
                },
                None => String::new(),
            };
            assert(offered@ =~= offered_token(contents(*message)));
            if offered == self.token && !self.token.as_str().is_empty() {
                Reaction::Reply { text: "{\"status\": \"authenticated\"}".to_owned(), close: false }
            } else {
                Reaction::Reply { text: "{\"status\": \"auth_failed\"}".to_owned(), close: true }
            }
        } else if same_text(action, "stop_training") || same_text(action, "start_training")
            || same_text(action, "adjust_params") {
            Reaction::Forward(text.to_owned())
        } else {
            Reaction::Nothing
        }
    }

    /// What the message `text` leads to; a text that is no JSON is dropped.
    pub fn mobile_message(&self, text: &str) -> (result: Reaction)
        ensures
            result@ == match parsed(text@) {
                Some(message) => reaction(message, text@, self@),
                None => ReactionView::Nothing,
            },
    {
        match parse(text) {
            Ok(message) => self.react(&message, text),
            Err(_) => Reaction::Nothing,
        }
    }
}

/// Every token that is issued has six digits.
pub proof fn issued_token_has_six_digits(now: u128)
    ensures
        token_at(now).len() == 6,
        all_digits(token_at(now)),
        100_000 <= token_number(now) <= 999_999,
{
    decimal_has_six_digits(token_number(now));
    decimal_is_all_digits(token_number(now));
}

/// The token that was issued last pairs the app that offers it, and the connection stays open.
pub proof fn issued_token_pairs(message: Json, text: Seq<char>, now: u128)
    requires
        text_member(message, "action"@) == Some("auth"@),
        text_member(message, "token"@) == Some(token_at(now)),
    ensures
        reaction(message, text, token_at(now)) == (ReactionView::Reply {
            text: "{\"status\": \"authenticated\"}"@,
            close: false,
        }),
{
    issued_token_has_six_digits(now);
}

/// Before a token is issued no app is paired, whatever it offers, and it is disconnected.
pub proof fn nothing_pairs_before_a_token_is_issued(message: Json, text: Seq<char>)
    requires
        text_member(message, "action"@) == Some("auth"@),
    ensures
        reaction(message, text, seq![]) == (ReactionView::Reply {
            text: "{\"status\": \"auth_failed\"}"@,
            close: true,
        }),
{
}

/// An app that offers no token, or one that was issued at a time that gives another token, is not
/// paired and is disconnected.
pub proof fn other_tokens_do_not_pair(message: Json, text: Seq<char>, then: u128, now: u128)
    requires
        text_member(message, "action"@) == Some("auth"@),
        offered_token(message).len() == 0 || (offered_token(message) == token_at(then) && then
            % 900_000 != now % 900_000),
    ensures
        reaction(message, text, token_at(now)) == (ReactionView::Reply {
            text: "{\"status\": \"auth_failed\"}"@,
            close: true,
        }),
{
    issued_token_has_six_digits(now);
    if token_at(then) == token_at(now) {
        decimal_is_injective(token_number(then), token_number(now));
    }
}

/// Commands are handed on as they came, and nothing else is.
pub proof fn only_commands_are_handed_on(message: Json, text: Seq<char>, token: Seq<char>)
    ensures
        reaction(message, text, token) is Forward <==> (text_member(message, "action"@) matches Some(
            action,
        ) && is_command(action)),
        reaction(message, text, token) matches ReactionView::Forward(sent) ==> sent == text,
{
    reveal_strlit("auth");
    reveal_strlit("stop_training");
    reveal_strlit("start_training");
    reveal_strlit("adjust_params");
    assert("auth"@.len() == 4);
}

/// The connection is closed exactly where the reply speaks of failure.
pub proof fn only_a_failed_pairing_closes(message: Json, text: Seq<char>, token: Seq<char>)
    ensures
        reaction(message, text, token) matches ReactionView::Reply { text: reply, close } ==> (close
            <==> occurs("failed"@, reply)),
{
    reveal_strlit("failed");
    reveal_strlit("{\"status\": \"authenticated\"}");
    reveal_strlit("{\"status\": \"auth_failed\"}");
    let paired = "{\"status\": \"authenticated\"}"@;
    let refused = "{\"status\": \"auth_failed\"}"@;
    assert("failed"@ =~= refused.skip(17).subrange(0, 6));
    assert("failed"@.is_prefix_of(refused.skip(17)));
    assert forall|i: int| 0 <= i <= paired.len() implies !"failed"@.is_prefix_of(
        #[trigger] paired.skip(i),
    ) by {
        if "failed"@.is_prefix_of(paired.skip(i)) {
            assert(paired.skip(i).subrange(0, 6)[0] == paired[i]);
            assert(paired[i] == 'f');
        }
    }
}

/// A reaction is what it was made as, with its text character for character.
pub proof fn reaction_is_taken_as_it_is(text: String, close: bool)
    ensures
        (Reaction::Reply { text, close })@ == (ReactionView::Reply { text: text@, close }),
        Reaction::Forward(text)@ == ReactionView::Forward(text@),
        Reaction::Nothing@ == ReactionView::Nothing,
{
}

/// The token of a time stands for a number from one hundred thousand on, one more with each
/// millisecond, until it begins anew after nine hundred seconds.
pub proof fn token_counts_milliseconds(now: u128)
    ensures
        numeral_value(token_at(now)) == 100_000 + now % 900_000,
        now % 900_000 == 0 ==> numeral_value(token_at(now)) == 100_000,
        now < u128::MAX && now % 900_000 != 899_999 ==> numeral_value(token_at((now + 1) as u128))
            == numeral_value(token_at(now)) + 1,
{
    decimal_stands_for_its_number(token_number(now));
    if now < u128::MAX {
        decimal_stands_for_its_number(token_number((now + 1) as u128));
    }
}

/// The port is written as `8765`.
proof fn port_in_digits()
    ensures
        decimal(PORT as nat) == seq!['8', '7', '6', '5'],
{
    reveal_with_fuel(decimal, 5);
    assert(decimal(8) =~= seq!['8']);
    assert(decimal(87) =~= seq!['8', '7']);
    assert(decimal(876) =~= seq!['8', '7', '6']);
    assert(decimal(8765) =~= seq!['8', '7', '6', '5']);
}

/// The connection details are an object with the address, the port 8765 and the token, each as it
/// is.
pub proof fn details_hold_the_address_the_port_and_the_token(ip: Seq<char>, token: Seq<char>)
    ensures
        details(ip, token) == "{\"ip\": \""@ + ip + "\", \"port\": 8765, \"token\": \""@ + token
            + "\"}"@,
{
    port_in_digits();
    assert("\", \"port\": "@ + seq!['8', '7', '6', '5'] + ", \"token\": \""@
        =~= "\", \"port\": 8765, \"token\": \""@) by {
        reveal_strlit("\", \"port\": ");
        reveal_strlit(", \"token\": \"");
        reveal_strlit("\", \"port\": 8765, \"token\": \"");
    }
    assert(details(ip, token) =~= "{\"ip\": \""@ + ip + ("\", \"port\": "@ + seq!['8', '7', '6', '5']
        + ", \"token\": \""@) + token + "\"}"@);
}

/// Connections are accepted on every address of this machine, on the port 8765.
pub proof fn connections_are_accepted_everywhere()
    ensures
        listening() == "0.0.0.0:8765"@,
{
    port_in_digits();
    reveal_strlit("0.0.0.0:");
    reveal_strlit("0.0.0.0:8765");
    assert(listening() =~= "0.0.0.0:8765"@);
}

/// An app is paired exactly where it offers the token that is valid, and there is one; else it is
/// told that it failed and is disconnected.
pub proof fn app_is_paired_by_the_valid_token(message: Json, text: Seq<char>, token: Seq<char>)
    requires
        text_member(message, "action"@) == Some("auth"@),
    ensures
        text_member(message, "token"@) == Some(token) && token.len() > 0 ==> reaction(
            message,
            text,
            token,
        ) == (ReactionView::Reply { text: "{\"status\": \"authenticated\"}"@, close: false }),
        text_member(message, "token"@) != Some(token) || token.len() == 0 ==> reaction(
            message,
            text,
            token,
        ) == (ReactionView::Reply { text: "{\"status\": \"auth_failed\"}"@, close: true }),
{
}

/// A message that asks to stop or start the training, or to adjust its parameters, is handed on
/// character for character, whether the app is paired or not. A message that asks for anything else
/// but pairing, or for nothing, is dropped.
pub proof fn commands_are_handed_on_as_they_came(
    message: Json,
    text: Seq<char>,
    token: Seq<char>,
    action: Seq<char>,
)
    ensures
        text_member(message, "action"@) == Some("stop_training"@) || text_member(
            message,
            "action"@,
        ) == Some("start_training"@) || text_member(message, "action"@) == Some("adjust_params"@)
            ==> reaction(message, text, token) == ReactionView::Forward(text),
        text_member(message, "action"@) == Some(action) && action != "auth"@ && action
            != "stop_training"@ && action != "start_training"@ && action != "adjust_params"@
            ==> reaction(message, text, token) is Nothing,
        text_member(message, "action"@) is None ==> reaction(message, text, token) is Nothing,
{
    reveal_strlit("auth");
    reveal_strlit("stop_training");
    reveal_strlit("start_training");
    reveal_strlit("adjust_params");
    assert("auth"@.len() == 4);
}

} // verus!
