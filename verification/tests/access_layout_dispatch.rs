use rpbot::access::{verify_permission, verify_role, may_review_character, get_parent_category, ParentLookup};
use rpbot::layout::{
    channel_position, sort_channels, sort_roles, role_position, channel_kind_allowed, is_community,
    universe_request, ChannelInfo, ChannelKind, UniverseRequest,
};
use rpbot::dispatch::{
    route_command, route_component, route_modal, move_command_route, move_source, new_player_gate,
    sheet_response_kind, role_mention, user_mention, rejection_message, welcome_message,
    CommandRoute, ComponentRoute, ModalRoute, MoveCommandRoute, MoveSource, NewPlayerGate, ResponseKind,
};
use rpbot::text::decimal;

#[test]
fn permissions_are_subsets() {
    assert!(verify_permission(0b1011, 0b1001));
    assert!(!verify_permission(0b0011, 0b1001));
    assert!(verify_permission(0, 0));
}

#[test]
fn roles_checked_against_member() {
    assert!(verify_role(&vec![5], &vec![1, 5]));
    assert!(!verify_role(&vec![5], &vec![1, 2]));
    assert!(verify_role(&vec![-1], &vec![u64::MAX]));
}

#[test]
fn reviewers_are_moderators_or_admins() {
    assert!(may_review_character(&vec![5], &vec![5], 0));
    assert!(may_review_character(&vec![5], &vec![], 8));
    assert!(!may_review_character(&vec![5], &vec![4], 0x7));
}

#[test]
fn parent_categories() {
    let channels = vec![(1, Some(10)), (2, None), (1, None)];
    assert_eq!(get_parent_category(&channels, 1), ParentLookup::Category(10));
    assert_eq!(get_parent_category(&channels, 2), ParentLookup::NotCategorized);
    assert_eq!(get_parent_category(&channels, 3), ParentLookup::ChannelMissing);
}

fn ch(id: u64, kind: ChannelKind, name: &str, parent: Option<&str>) -> ChannelInfo {
    ChannelInfo { id, kind, name: name.to_string(), parent_name: parent.map(|p| p.to_string()) }
}

#[test]
fn channel_layout() {
    assert_eq!(channel_position(ChannelKind::Category, "Admin", None), Some(1));
    assert_eq!(channel_position(ChannelKind::Category, "Roads", None), Some(16));
    assert_eq!(channel_position(ChannelKind::Text, "rules", Some("NO RP")), Some(5));
    assert_eq!(channel_position(ChannelKind::Text, "rules", Some("RP")), Some(12));
    assert_eq!(channel_position(ChannelKind::Text, "rules", None), None);
    assert_eq!(channel_position(ChannelKind::Voice, "general", Some("NO RP")), Some(8));
    assert_eq!(channel_position(ChannelKind::Forum, "questions-answers", None), Some(15));
    assert_eq!(channel_position(ChannelKind::Other, "Admin", None), None);
    let channels = vec![
        ch(1, ChannelKind::Category, "RP", None),
        ch(2, ChannelKind::Text, "story", Some("RP")),
        ch(3, ChannelKind::Text, "random", Some("RP")),
        ch(4, ChannelKind::Voice, "general", Some("NO RP")),
        ch(5, ChannelKind::Forum, "index", Some("RP")),
    ];
    assert_eq!(sort_channels(&channels), vec![(1, 10), (2, 11), (4, 8), (5, 14)]);
}

#[test]
fn role_layout() {
    assert_eq!(role_position("Admin"), Some(4));
    assert_eq!(role_position("Modo"), Some(3));
    assert_eq!(role_position("Spectator"), Some(2));
    assert_eq!(role_position("Player"), Some(1));
    assert_eq!(role_position("@everyone"), None);
    let roles = vec![(9, "Player".to_string()), (8, "other".to_string()), (7, "Admin".to_string())];
    assert_eq!(sort_roles(&roles), vec![(9, 1), (7, 4)]);
}

#[test]
fn kinds_and_features() {
    assert!(channel_kind_allowed(ChannelKind::Text));
    assert!(channel_kind_allowed(ChannelKind::Voice));
    assert!(channel_kind_allowed(ChannelKind::Forum));
    assert!(!channel_kind_allowed(ChannelKind::Category));
    assert!(is_community(&vec!["NEWS".to_string(), "COMMUNITY".to_string()]));
    assert!(!is_community(&vec!["community".to_string()]));
}

#[test]
fn universe_requests() {
    assert_eq!(universe_request(1, None), UniverseRequest::AlreadyExists);
    assert_eq!(universe_request(0, None), UniverseRequest::Create(60));
    assert_eq!(universe_request(0, Some(Some(30))), UniverseRequest::Create(30));
    assert_eq!(universe_request(0, Some(None)), UniverseRequest::BadTimeModifier);
}

#[test]
fn command_routes() {
    assert_eq!(route_command("create_new_universe"), CommandRoute::CreateUniverse);
    assert_eq!(route_command("create_new_player"), CommandRoute::CreateNewPlayer);
    assert_eq!(route_command("create_place"), CommandRoute::CreatePlace);
    assert_eq!(route_command("create_road"), CommandRoute::CreateRoad);
    assert_eq!(route_command("move_command_name"), CommandRoute::Move);
    assert_eq!(route_command("other"), CommandRoute::Unknown);
}

#[test]
fn component_routes() {
    let none: Vec<String> = vec![];
    assert_eq!(route_component("create_player_validate_button", &none), ComponentRoute::ValidatePlayer);
    assert_eq!(route_component("create_player_cancel_button", &none), ComponentRoute::CancelPlayer);
    assert_eq!(route_component("create_player_modify_button", &none), ComponentRoute::ModifyPlayer);
    assert_eq!(route_component("create_player_reject_button", &none), ComponentRoute::RejectPlayer);
    assert_eq!(route_component("create_player_accept_button", &none), ComponentRoute::AcceptPlayer);
    assert_eq!(route_component("move_modal", &none), ComponentRoute::NoMoveChoice);
    assert_eq!(route_component("move_modal", &vec!["stop_move".to_string()]), ComponentRoute::StopMove);
    assert_eq!(route_component("move_modal", &vec!["42".to_string()]), ComponentRoute::MoveTo(42));
    assert_eq!(route_component("move_modal", &vec!["north".to_string()]), ComponentRoute::BadMoveValue);
    assert_eq!(route_component("move_modal", &vec!["1".to_string(), "2".to_string()]), ComponentRoute::NoMoveChoice);
    assert_eq!(route_component("other", &none), ComponentRoute::Unknown);
}

#[test]
fn menu_choice_round_trip() {
    for id in [0u64, 123456789012345678, u64::MAX] {
        assert_eq!(route_component("move_modal", &vec![decimal(id)]), ComponentRoute::MoveTo(id));
    }
}

#[test]
fn modal_routes() {
    assert_eq!(route_modal("create_player_from_player"), ModalRoute::PlayerSheet);
    assert_eq!(route_modal("reject_reason_interaction"), ModalRoute::RejectReason);
    assert_eq!(route_modal("final_setup_player_interaction"), ModalRoute::FinalSetup);
    assert_eq!(route_modal("x"), ModalRoute::Unknown);
}

#[test]
fn travel_command_choices() {
    assert_eq!(move_command_route(false, true), MoveCommandRoute::InMoveMenu);
    assert_eq!(move_command_route(false, false), MoveCommandRoute::StoppedMenu);
    assert_eq!(move_command_route(true, true), MoveCommandRoute::AlreadyInMove);
    assert_eq!(move_command_route(true, false), MoveCommandRoute::MoveWithOption);
    assert_eq!(move_source(true, true), MoveSource::FromPlace);
    assert_eq!(move_source(false, true), MoveSource::FromRoad);
    assert_eq!(move_source(false, false), MoveSource::BadChannel);
}

#[test]
fn new_player_requests() {
    assert_eq!(new_player_gate(1, 2, false), NewPlayerGate::BadChannel);
    assert_eq!(new_player_gate(1, 2, true), NewPlayerGate::BadChannel);
    assert_eq!(new_player_gate(2, 2, true), NewPlayerGate::AlreadyExists);
    assert_eq!(new_player_gate(2, 2, false), NewPlayerGate::OpenForm);
    assert_eq!(sheet_response_kind(true), ResponseKind::UpdateMessage);
    assert_eq!(sheet_response_kind(false), ResponseKind::NewMessage);
}

#[test]
fn mentions_and_messages() {
    assert_eq!(role_mention(123), "<@&123>");
    assert_eq!(role_mention(-3), "<@&-3>");
    assert_eq!(user_mention(42), "<@42>");
    assert_eq!(rejection_message(42, "was sent back:", "too strong"), "<@42> was sent back: too strong");
    assert_eq!(welcome_message(42, "welcome!"), "<@42>, welcome!");
}
