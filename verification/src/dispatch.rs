use vstd::prelude::*;
use vstd::string::StringExecFns;
use crate::constants::{
    CREATE_UNIVERSE_COMMAND_NAME, CREATE_NEW_PLAYER_COMMAND_NAME, CREATE_PLACE_COMMAND_NAME,
    CREATE_ROAD_COMMAND_NAME, MOVE_COMMAND_LOCALE_NAME, CREATE_PLAYER_VALIDATE_BUTTON_CUSTOM_ID,
    CREATE_PLAYER_CANCEL_BUTTON_CUSTOM_ID, CREATE_PLAYER_MODIFY_BUTTON_CUSTOM_ID,
    CREATE_PLAYER_REJECT_BUTTON_CUSTOM_ID, CREATE_PLAYER_ACCEPT_BUTTON_CUSTOM_ID,
    MOVE_MODAL_CUSTOM_ID, CREATE_PLAYER_FROM_PLAYER_CUSTOM_ID, REJECT_REASON_INTERACTION_ID,
    FINAL_SETUP_PLAYER_INTERACTION_CUSTOM_ID, STOP_MOVE,
};
use crate::text::{
    text_eq, parse_u64, parsed_u64, decimal, decimal_digits, signed_decimal,
    signed_decimal_digits, push_char,
};

verus! {

/// The handler of a slash command.
#[derive(Clone, Copy, Debug, PartialEq, Eq, Structural)]
pub enum CommandRoute {
    CreateUniverse,
    CreateNewPlayer,
    CreatePlace,
    CreateRoad,
    Move,
    Unknown,
}

/// The handler of a slash command, by the command's name.
pub open spec fn command_route_of(name: Seq<char>) -> CommandRoute {
    if name == CREATE_UNIVERSE_COMMAND_NAME@ {
        CommandRoute::CreateUniverse
    } else if name == CREATE_NEW_PLAYER_COMMAND_NAME@ {
        CommandRoute::CreateNewPlayer
    } else if name == CREATE_PLACE_COMMAND_NAME@ {
        CommandRoute::CreatePlace
    } else if name == CREATE_ROAD_COMMAND_NAME@ {
        CommandRoute::CreateRoad
    } else if name == MOVE_COMMAND_LOCALE_NAME@ {
        CommandRoute::Move
    } else {
        CommandRoute::Unknown
    }
}

/// Picks the handler of a slash command.
pub fn route_command(name: &str) -> (r: CommandRoute)
    ensures
        r == command_route_of(name@),
{
    if text_eq(name, CREATE_UNIVERSE_COMMAND_NAME) {
        CommandRoute::CreateUniverse
    } else if text_eq(name, CREATE_NEW_PLAYER_COMMAND_NAME) {
        CommandRoute::CreateNewPlayer
    } else if text_eq(name, CREATE_PLACE_COMMAND_NAME) {
        CommandRoute::CreatePlace
    } else if text_eq(name, CREATE_ROAD_COMMAND_NAME) {
        CommandRoute::CreateRoad
    } else if text_eq(name, MOVE_COMMAND_LOCALE_NAME) {
        CommandRoute::Move
    } else {
        CommandRoute::Unknown
    }
}

/// The handler of a button or menu.
#[derive(Clone, Copy, Debug, PartialEq, Eq, Structural)]
pub enum ComponentRoute {
    ValidatePlayer,
    CancelPlayer,
    ModifyPlayer,
    RejectPlayer,
    AcceptPlayer,
    /// The travel menu's stop choice.
    StopMove,
    /// The travel menu's choice of a destination.
    MoveTo(u64),
    /// A travel menu choice that is neither the stop choice nor a number.
    BadMoveValue,
    /// A travel menu answer without exactly one choice.
    NoMoveChoice,
    Unknown,
}

/// The handler of a button or menu, by its custom id and the values chosen.
pub open spec fn component_route_of(custom_id: Seq<char>, values: Seq<Seq<char>>) -> ComponentRoute {
    if custom_id == CREATE_PLAYER_VALIDATE_BUTTON_CUSTOM_ID@ {
        ComponentRoute::ValidatePlayer
    } else if custom_id == CREATE_PLAYER_CANCEL_BUTTON_CUSTOM_ID@ {
        ComponentRoute::CancelPlayer
    } else if custom_id == CREATE_PLAYER_MODIFY_BUTTON_CUSTOM_ID@ {
        ComponentRoute::ModifyPlayer
    } else if custom_id == CREATE_PLAYER_REJECT_BUTTON_CUSTOM_ID@ {
        ComponentRoute::RejectPlayer
    } else if custom_id == CREATE_PLAYER_ACCEPT_BUTTON_CUSTOM_ID@ {
        ComponentRoute::AcceptPlayer
    } else if custom_id == MOVE_MODAL_CUSTOM_ID@ {
        if values.len() != 1 {
            ComponentRoute::NoMoveChoice
        } else if values[0] == STOP_MOVE@ {
            ComponentRoute::StopMove
        } else {
            match parsed_u64(values[0]) {
                Some(d) => ComponentRoute::MoveTo(d),
                None => ComponentRoute::BadMoveValue,
            }
        }
    } else {
        ComponentRoute::Unknown
    }
}

/// The texts of a list of strings.
pub open spec fn string_views(v: Seq<String>) -> Seq<Seq<char>> {
    v.map_values(|s: String| s@)
}

/// Picks the handler of a button or menu.
pub fn route_component(custom_id: &str, values: &Vec<String>) -> (r: ComponentRoute)
    ensures
        r == component_route_of(custom_id@, string_views(values@)),
{
    if text_eq(custom_id, CREATE_PLAYER_VALIDATE_BUTTON_CUSTOM_ID) {
        ComponentRoute::ValidatePlayer
    } else if text_eq(custom_id, CREATE_PLAYER_CANCEL_BUTTON_CUSTOM_ID) {
        ComponentRoute::CancelPlayer
    } else if text_eq(custom_id, CREATE_PLAYER_MODIFY_BUTTON_CUSTOM_ID) {
        ComponentRoute::ModifyPlayer
    } else if text_eq(custom_id, CREATE_PLAYER_REJECT_BUTTON_CUSTOM_ID) {
        ComponentRoute::RejectPlayer
    } else if text_eq(custom_id, CREATE_PLAYER_ACCEPT_BUTTON_CUSTOM_ID) {
        ComponentRoute::AcceptPlayer
    } else if text_eq(custom_id, MOVE_MODAL_CUSTOM_ID) {
        if values.len() != 1 {
            ComponentRoute::NoMoveChoice
        } else {
            assert(string_views(values@)[0] == values@[0]@);
            if text_eq(values[0].as_str(), STOP_MOVE) {
                ComponentRoute::StopMove
            } else {
                match parse_u64(values[0].as_str()) {
                    Some(d) => ComponentRoute::MoveTo(d),
                    None => ComponentRoute::BadMoveValue,
                }
            }
        }
    } else {
        ComponentRoute::Unknown
    }
}

/// The handler of a submitted form.
#[derive(Clone, Copy, Debug, PartialEq, Eq, Structural)]
pub enum ModalRoute {
    PlayerSheet,
    RejectReason,
    FinalSetup,
    Unknown,
}

/// The handler of a submitted form, by its custom id.
pub open spec fn modal_route_of(custom_id: Seq<char>) -> ModalRoute {
    if custom_id == CREATE_PLAYER_FROM_PLAYER_CUSTOM_ID@ {
        ModalRoute::PlayerSheet
    } else if custom_id == REJECT_REASON_INTERACTION_ID@ {
        ModalRoute::RejectReason
    } else if custom_id == FINAL_SETUP_PLAYER_INTERACTION_CUSTOM_ID@ {
        ModalRoute::FinalSetup
    } else {
        ModalRoute::Unknown
    }
}

/// Picks the handler of a submitted form.
pub fn route_modal(custom_id: &str) -> (r: ModalRoute)
    ensures
        r == modal_route_of(custom_id@),
{
    if text_eq(custom_id, CREATE_PLAYER_FROM_PLAYER_CUSTOM_ID) {
        ModalRoute::PlayerSheet
    } else if text_eq(custom_id, REJECT_REASON_INTERACTION_ID) {
        ModalRoute::RejectReason
    } else if text_eq(custom_id, FINAL_SETUP_PLAYER_INTERACTION_CUSTOM_ID) {
        ModalRoute::FinalSetup
    } else {
        ModalRoute::Unknown
    }
}

/// Each slash command that the bot registers reaches its own handler, and
/// each of the character buttons and forms reaches its own handler.
pub proof fn law_routes_reach_handlers(values: Seq<Seq<char>>)
    ensures
        command_route_of(CREATE_UNIVERSE_COMMAND_NAME@) == CommandRoute::CreateUniverse,
        command_route_of(CREATE_NEW_PLAYER_COMMAND_NAME@) == CommandRoute::CreateNewPlayer,
        command_route_of(CREATE_PLACE_COMMAND_NAME@) == CommandRoute::CreatePlace,
        command_route_of(CREATE_ROAD_COMMAND_NAME@) == CommandRoute::CreateRoad,
        command_route_of(MOVE_COMMAND_LOCALE_NAME@) == CommandRoute::Move,
        component_route_of(CREATE_PLAYER_VALIDATE_BUTTON_CUSTOM_ID@, values) == ComponentRoute::ValidatePlayer,
        component_route_of(CREATE_PLAYER_CANCEL_BUTTON_CUSTOM_ID@, values) == ComponentRoute::CancelPlayer,
        component_route_of(CREATE_PLAYER_MODIFY_BUTTON_CUSTOM_ID@, values) == ComponentRoute::ModifyPlayer,
        component_route_of(CREATE_PLAYER_REJECT_BUTTON_CUSTOM_ID@, values) == ComponentRoute::RejectPlayer,
        component_route_of(CREATE_PLAYER_ACCEPT_BUTTON_CUSTOM_ID@, values) == ComponentRoute::AcceptPlayer,
        values.len() == 1 && values[0] == STOP_MOVE@ ==> component_route_of(MOVE_MODAL_CUSTOM_ID@, values)
            == ComponentRoute::StopMove,
        values.len() != 1 ==> component_route_of(MOVE_MODAL_CUSTOM_ID@, values) == ComponentRoute::NoMoveChoice,
        modal_route_of(CREATE_PLAYER_FROM_PLAYER_CUSTOM_ID@) == ModalRoute::PlayerSheet,
        modal_route_of(REJECT_REASON_INTERACTION_ID@) == ModalRoute::RejectReason,
        modal_route_of(FINAL_SETUP_PLAYER_INTERACTION_CUSTOM_ID@) == ModalRoute::FinalSetup,
{
    reveal_strlit("create_new_universe");
    reveal_strlit("create_new_player");
    reveal_strlit("create_place");
    reveal_strlit("create_road");
    reveal_strlit("move_command_name");
    reveal_strlit("create_player_validate_button");
    reveal_strlit("create_player_cancel_button");
    reveal_strlit("create_player_modify_button");
    reveal_strlit("create_player_reject_button");
    reveal_strlit("create_player_accept_button");
    reveal_strlit("move_modal");
    reveal_strlit("create_player_from_player");
    reveal_strlit("reject_reason_interaction");
    reveal_strlit("final_setup_player_interaction");
    assert(CREATE_UNIVERSE_COMMAND_NAME@[11] != CREATE_NEW_PLAYER_COMMAND_NAME@[11]);
    assert(CREATE_UNIVERSE_COMMAND_NAME@[7] != CREATE_PLACE_COMMAND_NAME@[7]);
    assert(CREATE_UNIVERSE_COMMAND_NAME@[7] != CREATE_ROAD_COMMAND_NAME@[7]);
    assert(CREATE_NEW_PLAYER_COMMAND_NAME@[7] != CREATE_PLACE_COMMAND_NAME@[7]);
    assert(CREATE_NEW_PLAYER_COMMAND_NAME@[7] != CREATE_ROAD_COMMAND_NAME@[7]);
    assert(CREATE_PLACE_COMMAND_NAME@[7] != CREATE_ROAD_COMMAND_NAME@[7]);
    assert(MOVE_COMMAND_LOCALE_NAME@[0] != CREATE_UNIVERSE_COMMAND_NAME@[0]);
    assert(MOVE_COMMAND_LOCALE_NAME@[0] != CREATE_NEW_PLAYER_COMMAND_NAME@[0]);
    assert(MOVE_COMMAND_LOCALE_NAME@[0] != CREATE_PLACE_COMMAND_NAME@[0]);
    assert(MOVE_COMMAND_LOCALE_NAME@[0] != CREATE_ROAD_COMMAND_NAME@[0]);
    assert(CREATE_PLAYER_VALIDATE_BUTTON_CUSTOM_ID@[14] != CREATE_PLAYER_CANCEL_BUTTON_CUSTOM_ID@[14]);
    assert(CREATE_PLAYER_VALIDATE_BUTTON_CUSTOM_ID@[14] != CREATE_PLAYER_MODIFY_BUTTON_CUSTOM_ID@[14]);
    assert(CREATE_PLAYER_VALIDATE_BUTTON_CUSTOM_ID@[14] != CREATE_PLAYER_REJECT_BUTTON_CUSTOM_ID@[14]);
    assert(CREATE_PLAYER_VALIDATE_BUTTON_CUSTOM_ID@[14] != CREATE_PLAYER_ACCEPT_BUTTON_CUSTOM_ID@[14]);
    assert(CREATE_PLAYER_CANCEL_BUTTON_CUSTOM_ID@[14] != CREATE_PLAYER_MODIFY_BUTTON_CUSTOM_ID@[14]);
    assert(CREATE_PLAYER_CANCEL_BUTTON_CUSTOM_ID@[14] != CREATE_PLAYER_REJECT_BUTTON_CUSTOM_ID@[14]);
    assert(CREATE_PLAYER_CANCEL_BUTTON_CUSTOM_ID@[14] != CREATE_PLAYER_ACCEPT_BUTTON_CUSTOM_ID@[14]);
    assert(CREATE_PLAYER_MODIFY_BUTTON_CUSTOM_ID@[14] != CREATE_PLAYER_REJECT_BUTTON_CUSTOM_ID@[14]);
    assert(CREATE_PLAYER_MODIFY_BUTTON_CUSTOM_ID@[14] != CREATE_PLAYER_ACCEPT_BUTTON_CUSTOM_ID@[14]);
    assert(CREATE_PLAYER_REJECT_BUTTON_CUSTOM_ID@[14] != CREATE_PLAYER_ACCEPT_BUTTON_CUSTOM_ID@[14]);
    assert(MOVE_MODAL_CUSTOM_ID@[0] != CREATE_PLAYER_VALIDATE_BUTTON_CUSTOM_ID@[0]);
    assert(MOVE_MODAL_CUSTOM_ID@[0] != CREATE_PLAYER_CANCEL_BUTTON_CUSTOM_ID@[0]);
    assert(MOVE_MODAL_CUSTOM_ID@[0] != CREATE_PLAYER_MODIFY_BUTTON_CUSTOM_ID@[0]);
    assert(MOVE_MODAL_CUSTOM_ID@[0] != CREATE_PLAYER_REJECT_BUTTON_CUSTOM_ID@[0]);
    assert(MOVE_MODAL_CUSTOM_ID@[0] != CREATE_PLAYER_ACCEPT_BUTTON_CUSTOM_ID@[0]);
    assert(CREATE_PLAYER_FROM_PLAYER_CUSTOM_ID@[0] != REJECT_REASON_INTERACTION_ID@[0]);
    assert(CREATE_PLAYER_FROM_PLAYER_CUSTOM_ID@[0] != FINAL_SETUP_PLAYER_INTERACTION_CUSTOM_ID@[0]);
    assert(REJECT_REASON_INTERACTION_ID@[0] != FINAL_SETUP_PLAYER_INTERACTION_CUSTOM_ID@[0]);
}

/// A destination offered in a travel menu, once chosen, comes back as a
/// move to that very destination.
pub proof fn law_menu_choice_round_trip(destination: u64)
    ensures
        decimal_digits(destination as nat) != STOP_MOVE@ ==> component_route_of(
            MOVE_MODAL_CUSTOM_ID@,
            seq![decimal_digits(destination as nat)],
        ) == ComponentRoute::MoveTo(destination),
{
    crate::text::law_parse_decimal(destination);
    reveal_strlit("move_modal");
    reveal_strlit("create_player_validate_button");
    reveal_strlit("create_player_cancel_button");
    reveal_strlit("create_player_modify_button");
    reveal_strlit("create_player_reject_button");
    reveal_strlit("create_player_accept_button");
    assert(MOVE_MODAL_CUSTOM_ID@[0] != CREATE_PLAYER_VALIDATE_BUTTON_CUSTOM_ID@[0]);
    assert(MOVE_MODAL_CUSTOM_ID@[0] != CREATE_PLAYER_CANCEL_BUTTON_CUSTOM_ID@[0]);
    assert(MOVE_MODAL_CUSTOM_ID@[0] != CREATE_PLAYER_MODIFY_BUTTON_CUSTOM_ID@[0]);
    assert(MOVE_MODAL_CUSTOM_ID@[0] != CREATE_PLAYER_REJECT_BUTTON_CUSTOM_ID@[0]);
    assert(MOVE_MODAL_CUSTOM_ID@[0] != CREATE_PLAYER_ACCEPT_BUTTON_CUSTOM_ID@[0]);
}

/// What the travel command does for a player.
#[derive(Clone, Copy, Debug, PartialEq, Eq, Structural)]
pub enum MoveCommandRoute {
    /// No destination given, player travelling: offer to stop or turn back.
    InMoveMenu,
    /// No destination given, player standing: offer the destinations.
    StoppedMenu,
    /// Destination given while travelling: refused.
    AlreadyInMove,
    /// Destination given while standing: travel there.
    MoveWithOption,
}

/// Decides what the travel command does.
pub fn move_command_route(has_options: bool, is_in_move: bool) -> (r: MoveCommandRoute)
    ensures
        !has_options && is_in_move ==> r == MoveCommandRoute::InMoveMenu,
        !has_options && !is_in_move ==> r == MoveCommandRoute::StoppedMenu,
        has_options && is_in_move ==> r == MoveCommandRoute::AlreadyInMove,
        has_options && !is_in_move ==> r == MoveCommandRoute::MoveWithOption,
{
    if !has_options {
        if is_in_move {
            MoveCommandRoute::InMoveMenu
        } else {
            MoveCommandRoute::StoppedMenu
        }
    } else if is_in_move {
        MoveCommandRoute::AlreadyInMove
    } else {
        MoveCommandRoute::MoveWithOption
    }
}

/// Where a standing player opens the travel menu from.
#[derive(Clone, Copy, Debug, PartialEq, Eq, Structural)]
pub enum MoveSource {
    FromPlace,
    FromRoad,
    BadChannel,
}

/// Where a standing player travels from: a place's channel is checked
/// first, then a road's.
pub fn move_source(channel_is_place: bool, channel_is_road: bool) -> (r: MoveSource)
    ensures
        channel_is_place ==> r == MoveSource::FromPlace,
        !channel_is_place && channel_is_road ==> r == MoveSource::FromRoad,
        !channel_is_place && !channel_is_road ==> r == MoveSource::BadChannel,
{
    if channel_is_place {
        MoveSource::FromPlace
    } else if channel_is_road {
        MoveSource::FromRoad
    } else {
        MoveSource::BadChannel
    }
}

/// What a request for a new character leads to.
#[derive(Clone, Copy, Debug, PartialEq, Eq, Structural)]
pub enum NewPlayerGate {
    /// Asked outside the characters' channel.
    BadChannel,
    /// The player already has a character in the universe.
    AlreadyExists,
    /// Open the character form.
    OpenForm,
}

/// Decides a request for a new character. The channel is checked first, so
/// `player_exists` only matters in the characters' channel.
pub fn new_player_gate(channel_id: u64, characters_channel_id: u64, player_exists: bool) -> (r: NewPlayerGate)
    ensures
        channel_id != characters_channel_id ==> r == NewPlayerGate::BadChannel,
        channel_id == characters_channel_id && player_exists ==> r == NewPlayerGate::AlreadyExists,
        channel_id == characters_channel_id && !player_exists ==> r == NewPlayerGate::OpenForm,
{
    if channel_id != characters_channel_id {
        NewPlayerGate::BadChannel
    } else if player_exists {
        NewPlayerGate::AlreadyExists
    } else {
        NewPlayerGate::OpenForm
    }
}

/// How a character form is answered.
#[derive(Clone, Copy, Debug, PartialEq, Eq, Structural)]
pub enum ResponseKind {
    /// A new message carries the character sheet.
    NewMessage,
    /// The message that the form came from is replaced.
    UpdateMessage,
}

/// A form sent from a message updates that message; otherwise a new message
/// is sent.
pub fn sheet_response_kind(from_message: bool) -> (r: ResponseKind)
    ensures
        r == if from_message {
            ResponseKind::UpdateMessage
        } else {
            ResponseKind::NewMessage
        },
{
    if from_message {
        ResponseKind::UpdateMessage
    } else {
        ResponseKind::NewMessage
    }
}

/// A mention of a role: `<@&id>`, with the id as stored (signed).
pub fn role_mention(role_id: i64) -> (text: String)
    ensures
        text@ == seq!['<', '@', '&'] + signed_decimal_digits(role_id as int) + seq!['>'],
{
    let mut text = String::new();
    push_char(&mut text, '<');
    push_char(&mut text, '@');
    push_char(&mut text, '&');
    let digits = signed_decimal(role_id);
    text.append(digits.as_str());
    push_char(&mut text, '>');
    assert(text@ =~= seq!['<', '@', '&'] + signed_decimal_digits(role_id as int) + seq!['>']);
    text
}

/// A mention of a user: `<@id>`.
pub fn user_mention(user_id: u64) -> (text: String)
    ensures
        text@ == seq!['<', '@'] + decimal_digits(user_id as nat) + seq!['>'],
{
    let mut text = String::new();
    push_char(&mut text, '<');
    push_char(&mut text, '@');
    let digits = decimal(user_id);
    text.append(digits.as_str());
    push_char(&mut text, '>');
    assert(text@ =~= seq!['<', '@'] + decimal_digits(user_id as nat) + seq!['>']);
    text
}

/// The message that sends a character back to its player: the player's
/// mention, the localized lead-in and the moderator's reason, separated by
/// spaces.
pub fn rejection_message(player_id: u64, lead_in: &str, reason: &str) -> (text: String)
    ensures
        text@ == seq!['<', '@'] + decimal_digits(player_id as nat) + seq!['>', ' '] + lead_in@ + seq![' ']
            + reason@,
{
    let mut text = user_mention(player_id);
    push_char(&mut text, ' ');
    text.append(lead_in);
    push_char(&mut text, ' ');
    text.append(reason);
    assert(text@ =~= seq!['<', '@'] + decimal_digits(player_id as nat) + seq!['>', ' '] + lead_in@
        + seq![' '] + reason@);
    text
}

/// The message that welcomes a new character: the player's mention, a comma
/// and the localized message.
pub fn welcome_message(player_id: u64, message: &str) -> (text: String)
    ensures
        text@ == seq!['<', '@'] + decimal_digits(player_id as nat) + seq!['>', ',', ' '] + message@,
{
    let mut text = user_mention(player_id);
    push_char(&mut text, ',');
    push_char(&mut text, ' ');
    text.append(message);
    assert(text@ =~= seq!['<', '@'] + decimal_digits(player_id as nat) + seq!['>', ',', ' '] + message@);
    text
}

} // verus!
