//! Every user-visible text the bot produces, as a closed enum with a
//! verified rendering function. A beta key is opaque and is always delivered
//! inside a `||...||` spoiler field; a user is referred to by a `<@id>`
//! mention built from the decimal form of the id.
use vstd::prelude::*;
use vstd::string::*;

verus! {

/// The decimal digit character sequence for one digit value.
pub open spec fn spec_digit(d: int) -> Seq<char>
    recommends
        0 <= d < 10,
{
    if d == 0 {
        "0"@
    } else if d == 1 {
        "1"@
    } else if d == 2 {
        "2"@
    } else if d == 3 {
        "3"@
    } else if d == 4 {
        "4"@
    } else if d == 5 {
        "5"@
    } else if d == 6 {
        "6"@
    } else if d == 7 {
        "7"@
    } else if d == 8 {
        "8"@
    } else {
        "9"@
    }
}

/// The usual decimal rendering of a non-negative integer: no sign, no
/// leading zeros except for the number zero itself.
pub open spec fn spec_u64_string(n: int) -> Seq<char>
    recommends
        0 <= n,
    decreases n,
{
    if n < 10 {
        spec_digit(n)
    } else {
        spec_u64_string(n / 10) + spec_digit(n % 10)
    }
}

fn digit_str(d: u64) -> (s: &'static str)
    requires
        d < 10,
    ensures
        s@ == spec_digit(d as int),
{
    if d == 0 {
        "0"
    } else if d == 1 {
        "1"
    } else if d == 2 {
        "2"
    } else if d == 3 {
        "3"
    } else if d == 4 {
        "4"
    } else if d == 5 {
        "5"
    } else if d == 6 {
        "6"
    } else if d == 7 {
        "7"
    } else if d == 8 {
        "8"
    } else {
        "9"
    }
}

/// Render a number in decimal.
pub fn u64_to_string(n: u64) -> (s: String)
    ensures
        s@ == spec_u64_string(n as int),
    decreases n,
{
    if n < 10 {
        String::from_str(digit_str(n))
    } else {
        let mut s = u64_to_string(n / 10);
        s.append(digit_str(n % 10));
        s
    }
}

/// The Discord mention form of a user id.
pub open spec fn spec_mention(id: u64) -> Seq<char> {
    "<@"@ + spec_u64_string(id as int) + ">"@
}

/// Build the mention of a user id.
pub fn mention(id: u64) -> (s: String)
    ensures
        s@ == spec_mention(id),
{
    let mut s = String::from_str("<@");
    let digits = u64_to_string(id);
    s.append(digits.as_str());
    s.append(">");
    s
}

/// The JSON body sent with every backend call: an object with the single
/// field `discordId` holding the target's id.
pub open spec fn spec_request_body(id: u64) -> Seq<char> {
    "{\"discordId\":"@ + spec_u64_string(id as int) + "}"@
}

/// Build the request body for a backend call on the given target.
pub fn request_body(id: u64) -> (s: String)
    ensures
        s@ == spec_request_body(id),
{
    let mut s = String::from_str("{\"discordId\":");
    let digits = u64_to_string(id);
    s.append(digits.as_str());
    s.append("}");
    s
}

/// A user-visible message. `u64` fields are the mentioned user's id; the
/// `String` fields carry a beta key, shown only inside a spoiler field.
#[derive(Clone, PartialEq, Eq, Debug)]
pub enum Message {
    /// Usage hint for the bare `beta` command.
    SpecifySubcommand,
    /// Ephemeral denial for an actor without the giver role.
    NotPermitted,
    /// `add` conflict: the target is already enrolled.
    AlreadyEnrolled(u64),
    /// `remove`/`get` conflict: the target is not enrolled.
    NotEnrolled(u64),
    /// Direct message delivering the issued key to the target.
    KeyDm(String),
    /// Fallback reply when the direct message could not be delivered.
    DmFallback,
    /// Public confirmation that the target was added.
    AddedConfirmation(u64),
    /// Public confirmation that the target was removed.
    RemovedConfirmation(u64),
    /// Ephemeral reply carrying the target's fetched key.
    FetchedKey(u64, String),
    /// Generic failure text pointing the actor at the logs.
    GenericError,
    /// Generic failure text plus the unexpected status code.
    UnexpectedStatus(u16),
}

/// The exact text of each message.
pub open spec fn spec_render(m: Message) -> Seq<char> {
    match m {
        Message::SpecifySubcommand => "Please specify a subcommand: add, remove or get."@,
        Message::NotPermitted => "You are not permitted to do that!"@,
        Message::AlreadyEnrolled(id) => "❌: "@ + spec_mention(id)
            + " is in the beta program already"@,
        Message::NotEnrolled(id) => "❌: "@ + spec_mention(id) + " is not in the beta program"@,
        Message::KeyDm(key) => "✅ Du wurdest ins Betaprogramm aufgenommen!\n Bitte teile deinen Betakey **niemals** mit dritten!\n Dein Betakey: ||"@
            + key@ + "||"@,
        Message::DmFallback => "Unable to send beta dm (dms deactivated?)"@,
        Message::AddedConfirmation(id) => "✅: User "@ + spec_mention(id)
            + " added to the beta program."@,
        Message::RemovedConfirmation(id) => "✅: User "@ + spec_mention(id)
            + " removed from beta program."@,
        Message::FetchedKey(id, key) => "✅: "@ + spec_mention(id) + "'s beta key is: ||"@ + key@
            + "||"@,
        Message::GenericError => "An error occurred. Please check logs!"@,
        Message::UnexpectedStatus(code) => "An error occurred. Please check logs!\nError (Unexpected StatusCode): ```"@
            + spec_u64_string(code as int) + "```"@,
    }
}

/// Render a message to the exact text that `spec_render` states.
pub fn render(m: &Message) -> (s: String)
    ensures
        s@ == spec_render(*m),
{
    match m {
        Message::SpecifySubcommand => String::from_str(
            "Please specify a subcommand: add, remove or get.",
        ),
        Message::NotPermitted => String::from_str("You are not permitted to do that!"),
        Message::AlreadyEnrolled(id) => {
            let mut s = String::from_str("❌: ");
            let men = mention(*id);
            s.append(men.as_str());
            s.append(" is in the beta program already");
            s
        },
        Message::NotEnrolled(id) => {
            let mut s = String::from_str("❌: ");
            let men = mention(*id);
            s.append(men.as_str());
            s.append(" is not in the beta program");
            s
        },
        Message::KeyDm(key) => {
            let mut s = String::from_str(
                "✅ Du wurdest ins Betaprogramm aufgenommen!\n Bitte teile deinen Betakey **niemals** mit dritten!\n Dein Betakey: ||",
            );
            s.append(key.as_str());
            s.append("||");
            s
        },
        Message::DmFallback => String::from_str("Unable to send beta dm (dms deactivated?)"),
        Message::AddedConfirmation(id) => {
            let mut s = String::from_str("✅: User ");
            let men = mention(*id);
            s.append(men.as_str());
            s.append(" added to the beta program.");
            s
        },
        Message::RemovedConfirmation(id) => {
            let mut s = String::from_str("✅: User ");
            let men = mention(*id);
            s.append(men.as_str());
            s.append(" removed from beta program.");
            s
        },
        Message::FetchedKey(id, key) => {
            let mut s = String::from_str("✅: ");
            let men = mention(*id);
            s.append(men.as_str());
            s.append("'s beta key is: ||");
            s.append(key.as_str());
            s.append("||");
            s
        },
        Message::GenericError => String::from_str("An error occurred. Please check logs!"),
        Message::UnexpectedStatus(code) => {
            let mut s = String::from_str(
                "An error occurred. Please check logs!\nError (Unexpected StatusCode): ```",
            );
            let digits = u64_to_string(*code as u64);
            s.append(digits.as_str());
            s.append("```");
            s
        },
    }
}

} // verus!
