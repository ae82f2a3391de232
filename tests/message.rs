use meshtastic_api::channel::Channel;
use meshtastic_api::error::SendError;
use meshtastic_api::message::prepare_message;
use meshtastic_api::packet::Target;
use meshtastic_api::MAX_PAYLOAD_SIZE;

#[test]
fn text_at_the_limit_is_accepted() {
    let text = "a".repeat(MAX_PAYLOAD_SIZE);
    let out = prepare_message(text.clone(), Target::NodeId(3), Some(Channel::Other(2))).unwrap();
    assert_eq!(out.text, text);
    assert_eq!(out.target, Target::NodeId(3));
    assert_eq!(out.channel, Channel::Other(2));
    assert_eq!(out.mesh_channel.channel(), 2);
}

#[test]
fn text_over_the_limit_is_too_big() {
    let text = "a".repeat(201);
    assert!(matches!(
        prepare_message(text, Target::PrimaryChannel, None),
        Err(SendError::TooBig(201))
    ));
}

#[test]
fn length_counts_bytes() {
    let text = "ü".repeat(101);
    assert!(matches!(
        prepare_message(text, Target::PrimaryChannel, None),
        Err(SendError::TooBig(202))
    ));
}

#[test]
fn missing_channel_means_primary() {
    let out = prepare_message(String::from("hello"), Target::PrimaryChannel, None).unwrap();
    assert_eq!(out.channel, Channel::Primary);
    assert_eq!(out.mesh_channel.channel(), 0);
    assert_eq!(out.target.into_id(), 0xFFFF_FFFF);
}
