use beta_bot::config::Config;
use beta_bot::messages::{mention, render, request_body, u64_to_string, Message};
use beta_bot::outcome::Subcommand;

#[test]
fn decimal_rendering_of_ids() {
    assert_eq!(u64_to_string(0), "0");
    assert_eq!(u64_to_string(7), "7");
    assert_eq!(u64_to_string(10), "10");
    assert_eq!(u64_to_string(4242), "4242");
    assert_eq!(u64_to_string(u64::MAX), "18446744073709551615");
}

#[test]
fn mention_form_of_a_user_id() {
    assert_eq!(mention(80351110224678912), "<@80351110224678912>");
}

#[test]
fn request_body_is_the_single_field_json_object() {
    assert_eq!(request_body(4242), "{\"discordId\":4242}");
    assert_eq!(request_body(0), "{\"discordId\":0}");
    assert_eq!(
        request_body(u64::MAX),
        "{\"discordId\":18446744073709551615}"
    );
}

#[test]
fn exact_text_of_every_message() {
    assert_eq!(
        render(&Message::SpecifySubcommand),
        "Please specify a subcommand: add, remove or get."
    );
    assert_eq!(
        render(&Message::NotPermitted),
        "You are not permitted to do that!"
    );
    assert_eq!(
        render(&Message::AlreadyEnrolled(7)),
        "❌: <@7> is in the beta program already"
    );
    assert_eq!(
        render(&Message::NotEnrolled(7)),
        "❌: <@7> is not in the beta program"
    );
    assert_eq!(
        render(&Message::KeyDm("ABCD-1234".to_owned())),
        "✅ Du wurdest ins Betaprogramm aufgenommen!\n Bitte teile deinen Betakey **niemals** mit dritten!\n Dein Betakey: ||ABCD-1234||"
    );
    assert_eq!(
        render(&Message::DmFallback),
        "Unable to send beta dm (dms deactivated?)"
    );
    assert_eq!(
        render(&Message::AddedConfirmation(7)),
        "✅: User <@7> added to the beta program."
    );
    assert_eq!(
        render(&Message::RemovedConfirmation(7)),
        "✅: User <@7> removed from beta program."
    );
    assert_eq!(
        render(&Message::FetchedKey(7, "ABCD-1234".to_owned())),
        "✅: <@7>'s beta key is: ||ABCD-1234||"
    );
    assert_eq!(
        render(&Message::GenericError),
        "An error occurred. Please check logs!"
    );
    assert_eq!(
        render(&Message::UnexpectedStatus(503)),
        "An error occurred. Please check logs!\nError (Unexpected StatusCode): ```503```"
    );
}

#[test]
fn keys_are_always_inside_a_spoiler_field() {
    let dm = render(&Message::KeyDm("SECRET".to_owned()));
    assert!(dm.contains("||SECRET||"));
    let fetched = render(&Message::FetchedKey(7, "SECRET".to_owned()));
    assert!(fetched.contains("||SECRET||"));
}

#[test]
fn each_subcommand_posts_to_its_own_endpoint() {
    let config = Config {
        beta_addkey_url: "https://backend.example/beta/add".to_owned(),
        beta_removekey_url: "https://backend.example/beta/remove".to_owned(),
        beta_getkey_url: "https://backend.example/beta/get".to_owned(),
        beta_giver_role: 1111,
        beta_role: 2222,
    };
    assert_eq!(
        config.endpoint_for(Subcommand::Add),
        "https://backend.example/beta/add"
    );
    assert_eq!(
        config.endpoint_for(Subcommand::Remove),
        "https://backend.example/beta/remove"
    );
    assert_eq!(
        config.endpoint_for(Subcommand::Get),
        "https://backend.example/beta/get"
    );
}
