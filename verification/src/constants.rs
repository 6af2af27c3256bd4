use vstd::prelude::*;

verus! {

/// Locale used when a requested locale or key is missing.
pub const DEFAULT_LANG: &'static str = "en-US";
/// The French locale.
pub const FR_LANG: &'static str = "fr";

pub const RED_COLOR: u64 = 0xFF0000;
pub const GREEN_COLOR: u64 = 0x00FF00;
pub const BLUE_COLOR: u64 = 0x0000FF;
pub const LIGHT_BLUE_COLOR: u64 = 0x04EEE6;
/// Embed color of warnings; the same orange as warning lines in the log.
pub const ORANGE_COLOR: u64 = 0xFFA000;

} // verus!

verus! {

// Role names.
pub const ADMIN_ROLE: &'static str = "Admin";
pub const MODO_ROLE: &'static str = "Modo";
/// The moderators' role.
pub const MODERATOR_ROLE: &'static str = MODO_ROLE;
pub const SPECTATOR_ROLE: &'static str = "Spectator";
pub const PLAYER_ROLE: &'static str = "Player";

// Category and channel names.
pub const ADMIN_CATEGORY_NAME: &'static str = "Admin";
pub const RP_CATEGORY_NAME: &'static str = "RP";
pub const NRP_CATEGORY_NAME: &'static str = "NO RP";
pub const ROAD_CATEGORY_NAME: &'static str = "Roads";

pub const ADMIN_MODERATION_CHANNEL_NAME: &'static str = "moderation";
pub const ADMIN_COMMANDS_CHANNEL_NAME: &'static str = "commands";

pub const NRP_GENERAL_CHANNEL_NAME: &'static str = "general";
pub const NRP_GENERAL_VOICE_CHANNEL_NAME: &'static str = "general";
pub const NRP_GENERAL_RULES_CHANNEL_NAME: &'static str = "rules";
pub const NRP_RP_EXCHANGES_CHANNEL_NAME: &'static str = "rp-exchanges";

pub const RP_STORY_CHANNEL_NAME: &'static str = "story";
pub const RP_PLAYER_CHARACTERS_CHANNEL_NAME: &'static str = "player-characters";
pub const RP_INDEX_CHANNEL_NAME: &'static str = "index";
pub const RP_RULES_CHANNEL_NAME: &'static str = "rules";
pub const RP_QA_CHANNEL_NAME: &'static str = "questions-answers";

/// The server feature that allows forum channels.
pub const COMMUNITY_FEATURE: &'static str = "COMMUNITY";

// Names of the slash commands.
pub const CREATE_UNIVERSE_COMMAND_NAME: &'static str = "create_new_universe";
pub const CREATE_NEW_PLAYER_COMMAND_NAME: &'static str = "create_new_player";
pub const CREATE_PLACE_COMMAND_NAME: &'static str = "create_place";
pub const CREATE_ROAD_COMMAND_NAME: &'static str = "create_road";
pub const MOVE_COMMAND_LOCALE_NAME: &'static str = "move_command_name";

// Custom ids of buttons, menus and forms.
pub const CREATE_PLAYER_VALIDATE_BUTTON_CUSTOM_ID: &'static str = "create_player_validate_button";
pub const CREATE_PLAYER_CANCEL_BUTTON_CUSTOM_ID: &'static str = "create_player_cancel_button";
pub const CREATE_PLAYER_MODIFY_BUTTON_CUSTOM_ID: &'static str = "create_player_modify_button";
pub const CREATE_PLAYER_REJECT_BUTTON_CUSTOM_ID: &'static str = "create_player_reject_button";
pub const CREATE_PLAYER_ACCEPT_BUTTON_CUSTOM_ID: &'static str = "create_player_accept_button";
pub const MOVE_MODAL_CUSTOM_ID: &'static str = "move_modal";
pub const CREATE_PLAYER_FROM_PLAYER_CUSTOM_ID: &'static str = "create_player_from_player";
pub const REJECT_REASON_INTERACTION_ID: &'static str = "reject_reason_interaction";
pub const FINAL_SETUP_PLAYER_INTERACTION_CUSTOM_ID: &'static str = "final_setup_player_interaction";
/// The menu value that stops a travelling player.
pub const STOP_MOVE: &'static str = "stop_move";

/// Time modifier of a universe created without one.
pub const DEFAULT_TIME_MODIFIER: u64 = 60;

} // verus!

verus! {

// Role colors.
pub const ADMIN_ROLE_COLOR: u64 = 0x77FFFF;
pub const MODO_ROLE_COLOR: u64 = 0xFFA836;
pub const PLAYER_ROLE_COLOR: u64 = 0x37FF66;
pub const SPECTATOR_ROLE_COLOR: u64 = 0xFFF666;

// Permission bits, as the chat service numbers them.
pub const KICK_MEMBERS: u64 = 1 << 1;
pub const BAN_MEMBERS: u64 = 1 << 2;
pub const ADMINISTRATOR: u64 = 1 << 3;
pub const VIEW_CHANNEL: u64 = 1 << 10;
pub const SEND_MESSAGES: u64 = 1 << 11;
pub const MANAGE_MESSAGES: u64 = 1 << 13;
pub const READ_MESSAGE_HISTORY: u64 = 1 << 16;
pub const CONNECT: u64 = 1 << 20;
pub const SPEAK: u64 = 1 << 21;
pub const MANAGE_ROLES: u64 = 1 << 28;
pub const USE_SLASH_COMMANDS: u64 = 1 << 31;
pub const CREATE_PUBLIC_THREADS: u64 = 1 << 35;
pub const SEND_MESSAGES_IN_THREADS: u64 = 1 << 38;
/// Every permission bit.
pub const ALL_PERMISSIONS: u64 = 0x1FF_FFFF_FFFF;

} // verus!
