use rpbot::setup::{
    admin_role_setup, moderator_role_setup, spectator_role_setup, player_role_setup, setup_road,
    admin_setup, nrp_setup, rp_category_overwrites, setup_admin_channels, setup_nrp_channels,
    setup_rp, private_channel_overwrites, OverwritePlan, OverwriteTarget,
};
use rpbot::layout::ChannelKind;
use rpbot::constants::{ADMINISTRATOR, VIEW_CHANNEL, SEND_MESSAGES, READ_MESSAGE_HISTORY, ALL_PERMISSIONS};
use rpbot::world::{arrival_step, cross_server_arrival, ArrivalStep, CrossServerArrival};
use rpbot::moves::{MoveList, PlayerMove};
use rpbot::stats::stat_input_to_hash;

#[test]
fn permission_bits() {
    assert_eq!(ADMINISTRATOR, 8);
    assert_eq!(VIEW_CHANNEL, 1024);
    assert_eq!(ALL_PERMISSIONS, (1u64 << 41) - 1);
}

#[test]
fn role_plans() {
    let admin = admin_role_setup();
    assert_eq!((admin.name, admin.permissions, admin.color), ("Admin", 8, 0x77FFFF));
    let modo = moderator_role_setup();
    assert_eq!(modo.name, "Modo");
    assert_eq!(modo.permissions, (1 << 1) | (1 << 10) | (1 << 31) | (1 << 11) | (1 << 2) | (1 << 13) | (1 << 28));
    let spectator = spectator_role_setup();
    assert_eq!((spectator.name, spectator.permissions), ("Spectator", 0));
    let player = player_role_setup();
    assert_eq!(player.permissions, (1 << 11) | (1 << 38) | (1 << 31) | (1 << 20) | (1 << 21));
    assert_eq!(player.color, 0x37FF66);
}

fn ow(target: OverwriteTarget, allow: u64, deny: u64) -> OverwritePlan {
    OverwritePlan { target, allow, deny }
}

#[test]
fn category_overwrites() {
    let hidden = vec![ow(OverwriteTarget::Everyone, 0, VIEW_CHANNEL), ow(OverwriteTarget::Players, 0, VIEW_CHANNEL)];
    assert_eq!(setup_road(), hidden);
    assert_eq!(admin_setup(), hidden);
    let open = vec![ow(OverwriteTarget::Everyone, VIEW_CHANNEL, 0), ow(OverwriteTarget::Players, VIEW_CHANNEL, 0)];
    assert_eq!(nrp_setup(), open);
    assert_eq!(rp_category_overwrites(), open);
    let private = private_channel_overwrites();
    assert_eq!(private[0], ow(OverwriteTarget::Everyone, 0, ALL_PERMISSIONS));
    assert_eq!(private[1].target, OverwriteTarget::OwnRole);
}

#[test]
fn channel_plans() {
    let admin = setup_admin_channels();
    assert_eq!(admin.iter().map(|c| c.name).collect::<Vec<_>>(), vec!["moderation", "commands"]);
    let nrp = setup_nrp_channels();
    assert_eq!(nrp.iter().map(|c| (c.name, c.kind)).collect::<Vec<_>>(), vec![
        ("general", ChannelKind::Text), ("general", ChannelKind::Voice), ("rules", ChannelKind::Text), ("rp-exchanges", ChannelKind::Text)
    ]);
    let rp = setup_rp(false);
    assert_eq!(rp.iter().map(|c| c.name).collect::<Vec<_>>(), vec!["story", "rules", "player-characters"]);
    assert_eq!(rp[0].overwrites[1], ow(OverwriteTarget::Players, READ_MESSAGE_HISTORY | VIEW_CHANNEL, SEND_MESSAGES));
    assert_eq!(rp[2].overwrites[0], ow(OverwriteTarget::Everyone, READ_MESSAGE_HISTORY | VIEW_CHANNEL | SEND_MESSAGES, 0));
    let rp = setup_rp(true);
    assert_eq!(rp.iter().map(|c| (c.name, c.kind)).collect::<Vec<_>>()[3..], [("index", ChannelKind::Forum), ("questions-answers", ChannelKind::Forum)]);
}

#[test]
fn arrival_steps() {
    assert_eq!(arrival_step(false, 1, 1), ArrivalStep::InviteToDestination);
    assert_eq!(arrival_step(true, 1, 1), ArrivalStep::SwapRolesOnOneServer);
    assert_eq!(arrival_step(true, 1, 2), ArrivalStep::SwapRolesAcrossServers);
    assert_eq!(cross_server_arrival(true, true), CrossServerArrival::Finish);
    assert_eq!(cross_server_arrival(true, false), CrossServerArrival::Restore);
    assert_eq!(cross_server_arrival(false, true), CrossServerArrival::Restore);
}

#[test]
fn due_check() {
    let mut list = MoveList::new();
    assert!(!list.has_due(100));
    list.push(PlayerMove::new_from_player_doc(1, 1, 50, true));
    assert!(!list.has_due(50));
    assert!(list.has_due(51));
}

#[test]
fn sheet_entries_in_first_order() {
    let t = stat_input_to_hash("b:1\na:2\nb:3").unwrap();
    assert_eq!(t.into_entries(), vec![("b".to_string(), "3".to_string()), ("a".to_string(), "2".to_string())]);
}
