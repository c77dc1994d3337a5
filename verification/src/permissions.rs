//! Permission bitmasks and their per-flag accessors.

use vstd::prelude::*;
use crate::decimal;

verus! {

/// Whether the flag at `offset` is set in `value`.
pub open spec fn flag_set(value: i64, offset: u64) -> bool {
    (value & (1i64 << offset)) > 0
}

/// Tests one flag of a permission bitmask.
pub fn is_flag_set(value: i64, offset: u64) -> (r: bool)
    requires
        offset < 63,
    ensures
        r == flag_set(value, offset),
{
    (value & (1i64 << offset)) > 0
}

/// Setting one flag makes exactly that flag read back as set and leaves
/// every other flag as it was.
pub proof fn lemma_flag_set_isolated(bits: i64, k: u64, j: u64)
    requires
        k < 63,
        j < 63,
    ensures
        flag_set(bits | (1i64 << k), k),
        j != k ==> flag_set(bits | (1i64 << k), j) == flag_set(bits, j),
{
    assert(((bits | (1i64 << k)) & (1i64 << k)) > 0) by (bit_vector)
        requires
            k < 63,
    ;
    assert(j != k ==> (((bits | (1i64 << k)) & (1i64 << j)) > 0) == ((bits & (1i64 << j)) > 0))
        by (bit_vector)
        requires
            k < 63 && j < 63,
    ;
}

/// A read-only permission bitmask.
#[derive(Debug, Clone)]
pub struct Permissions(i64);

/// A permission bitmask under construction.
#[derive(Debug)]
pub struct PermissionsMut(i64);

/// Read access to a permission bitmask, one accessor per documented flag.
pub trait PermissionsProvider {
    spec fn bits(&self) -> i64;

    fn number_string(&self) -> (s: String)
        ensures
            s@ == decimal::int_string(self.bits() as int),
    ;

    fn number(&self) -> (n: i64)
        ensures
            n == self.bits(),
    ;

    fn allowed_to_create_instant_invite(&self) -> (r: bool)
        ensures
            r == flag_set(self.bits(), 0),
    ;

    fn allowed_to_kick_members(&self) -> (r: bool)
        ensures
            r == flag_set(self.bits(), 1),
    ;

    fn allowed_to_ban_members(&self) -> (r: bool)
        ensures
            r == flag_set(self.bits(), 2),
    ;

    fn allowed_to_administrator(&self) -> (r: bool)
        ensures
            r == flag_set(self.bits(), 3),
    ;

    fn allowed_to_manage_channels(&self) -> (r: bool)
        ensures
            r == flag_set(self.bits(), 4),
    ;

    fn allowed_to_manage_guild(&self) -> (r: bool)
        ensures
            r == flag_set(self.bits(), 5),
    ;

    fn allowed_to_add_reactions(&self) -> (r: bool)
        ensures
            r == flag_set(self.bits(), 6),
    ;

    fn allowed_to_view_audit_log(&self) -> (r: bool)
        ensures
            r == flag_set(self.bits(), 7),
    ;

    fn allowed_to_priority_speaker(&self) -> (r: bool)
        ensures
            r == flag_set(self.bits(), 8),
    ;

    fn allowed_to_stream(&self) -> (r: bool)
        ensures
            r == flag_set(self.bits(), 9),
    ;

    fn allowed_to_view_channel(&self) -> (r: bool)
        ensures
            r == flag_set(self.bits(), 10),
    ;

    fn allowed_to_send_messages(&self) -> (r: bool)
        ensures
            r == flag_set(self.bits(), 11),
    ;

    fn allowed_to_send_tts_messages(&self) -> (r: bool)
        ensures
            r == flag_set(self.bits(), 12),
    ;

    fn allowed_to_manage_messages(&self) -> (r: bool)
        ensures
            r == flag_set(self.bits(), 13),
    ;

    fn allowed_to_embed_links(&self) -> (r: bool)
        ensures
            r == flag_set(self.bits(), 14),
    ;

    fn allowed_to_attach_files(&self) -> (r: bool)
        ensures
            r == flag_set(self.bits(), 15),
    ;

    fn allowed_to_read_message_history(&self) -> (r: bool)
        ensures
            r == flag_set(self.bits(), 16),
    ;

    fn allowed_to_mention_everyone(&self) -> (r: bool)
        ensures
            r == flag_set(self.bits(), 17),
    ;

    fn allowed_to_use_external_emojis(&self) -> (r: bool)
        ensures
            r == flag_set(self.bits(), 18),
    ;

    fn allowed_to_view_guild_insights(&self) -> (r: bool)
        ensures
            r == flag_set(self.bits(), 19),
    ;

    fn allowed_to_connect(&self) -> (r: bool)
        ensures
            r == flag_set(self.bits(), 20),
    ;

    fn allowed_to_speak(&self) -> (r: bool)
        ensures
            r == flag_set(self.bits(), 21),
    ;

    fn allowed_to_mute_members(&self) -> (r: bool)
        ensures
            r == flag_set(self.bits(), 22),
    ;

    fn allowed_to_deafen_members(&self) -> (r: bool)
        ensures
            r == flag_set(self.bits(), 23),
    ;

    fn allowed_to_move_members(&self) -> (r: bool)
        ensures
            r == flag_set(self.bits(), 24),
    ;

    fn allowed_to_use_vad(&self) -> (r: bool)
        ensures
            r == flag_set(self.bits(), 25),
    ;

    fn allowed_to_change_nickname(&self) -> (r: bool)
        ensures
            r == flag_set(self.bits(), 26),
    ;

    fn allowed_to_manage_nicknames(&self) -> (r: bool)
        ensures
            r == flag_set(self.bits(), 27),
    ;

    fn allowed_to_manage_roles(&self) -> (r: bool)
        ensures
            r == flag_set(self.bits(), 28),
    ;

    fn allowed_to_manage_webhooks(&self) -> (r: bool)
        ensures
            r == flag_set(self.bits(), 29),
    ;

    fn allowed_to_manage_emojis_and_stickers(&self) -> (r: bool)
        ensures
            r == flag_set(self.bits(), 30),
    ;

    fn allowed_to_use_application_commands(&self) -> (r: bool)
        ensures
            r == flag_set(self.bits(), 31),
    ;

    fn allowed_to_request_to_speak(&self) -> (r: bool)
        ensures
            r == flag_set(self.bits(), 32),
    ;

    fn allowed_to_manage_events(&self) -> (r: bool)
        ensures
            r == flag_set(self.bits(), 33),
    ;

    fn allowed_to_manage_threads(&self) -> (r: bool)
        ensures
            r == flag_set(self.bits(), 34),
    ;

    fn allowed_to_create_lic_threads(&self) -> (r: bool)
        ensures
            r == flag_set(self.bits(), 35),
    ;

    fn allowed_to_create_private_threads(&self) -> (r: bool)
        ensures
            r == flag_set(self.bits(), 36),
    ;

    fn allowed_to_use_external_stickers(&self) -> (r: bool)
        ensures
            r == flag_set(self.bits(), 37),
    ;

    fn allowed_to_send_messages_in_threads(&self) -> (r: bool)
        ensures
            r == flag_set(self.bits(), 38),
    ;

    fn allowed_to_use_embedded_activities(&self) -> (r: bool)
        ensures
            r == flag_set(self.bits(), 39),
    ;

    fn allowed_to_moderate_members(&self) -> (r: bool)
        ensures
            r == flag_set(self.bits(), 40),
    ;

}

impl PermissionsProvider for Permissions {
    closed spec fn bits(&self) -> i64 {
        self.0
    }

    fn number_string(&self) -> (s: String) {
        decimal::i64_to_string(self.0)
    }

    fn number(&self) -> (n: i64) {
        self.0
    }

    fn allowed_to_create_instant_invite(&self) -> (r: bool) {
        is_flag_set(self.0, 0)
    }

    fn allowed_to_kick_members(&self) -> (r: bool) {
        is_flag_set(self.0, 1)
    }

    fn allowed_to_ban_members(&self) -> (r: bool) {
        is_flag_set(self.0, 2)
    }

    fn allowed_to_administrator(&self) -> (r: bool) {
        is_flag_set(self.0, 3)
    }

    fn allowed_to_manage_channels(&self) -> (r: bool) {
        is_flag_set(self.0, 4)
    }

    fn allowed_to_manage_guild(&self) -> (r: bool) {
        is_flag_set(self.0, 5)
    }

    fn allowed_to_add_reactions(&self) -> (r: bool) {
        is_flag_set(self.0, 6)
    }

    fn allowed_to_view_audit_log(&self) -> (r: bool) {
        is_flag_set(self.0, 7)
    }

    fn allowed_to_priority_speaker(&self) -> (r: bool) {
        is_flag_set(self.0, 8)
    }

    fn allowed_to_stream(&self) -> (r: bool) {
        is_flag_set(self.0, 9)
    }

    fn allowed_to_view_channel(&self) -> (r: bool) {
        is_flag_set(self.0, 10)
    }

    fn allowed_to_send_messages(&self) -> (r: bool) {
        is_flag_set(self.0, 11)
    }

    fn allowed_to_send_tts_messages(&self) -> (r: bool) {
        is_flag_set(self.0, 12)
    }

    fn allowed_to_manage_messages(&self) -> (r: bool) {
        is_flag_set(self.0, 13)
    }

    fn allowed_to_embed_links(&self) -> (r: bool) {
        is_flag_set(self.0, 14)
    }

    fn allowed_to_attach_files(&self) -> (r: bool) {
        is_flag_set(self.0, 15)
    }

    fn allowed_to_read_message_history(&self) -> (r: bool) {
        is_flag_set(self.0, 16)
    }

    fn allowed_to_mention_everyone(&self) -> (r: bool) {
        is_flag_set(self.0, 17)
    }

    fn allowed_to_use_external_emojis(&self) -> (r: bool) {
        is_flag_set(self.0, 18)
    }

    fn allowed_to_view_guild_insights(&self) -> (r: bool) {
        is_flag_set(self.0, 19)
    }

    fn allowed_to_connect(&self) -> (r: bool) {
        is_flag_set(self.0, 20)
    }

    fn allowed_to_speak(&self) -> (r: bool) {
        is_flag_set(self.0, 21)
    }

    fn allowed_to_mute_members(&self) -> (r: bool) {
        is_flag_set(self.0, 22)
    }

    fn allowed_to_deafen_members(&self) -> (r: bool) {
        is_flag_set(self.0, 23)
    }

    fn allowed_to_move_members(&self) -> (r: bool) {
        is_flag_set(self.0, 24)
    }

    fn allowed_to_use_vad(&self) -> (r: bool) {
        is_flag_set(self.0, 25)
    }

    fn allowed_to_change_nickname(&self) -> (r: bool) {
        is_flag_set(self.0, 26)
    }

    fn allowed_to_manage_nicknames(&self) -> (r: bool) {
        is_flag_set(self.0, 27)
    }

    fn allowed_to_manage_roles(&self) -> (r: bool) {
        is_flag_set(self.0, 28)
    }

    fn allowed_to_manage_webhooks(&self) -> (r: bool) {
        is_flag_set(self.0, 29)
    }

    fn allowed_to_manage_emojis_and_stickers(&self) -> (r: bool) {
        is_flag_set(self.0, 30)
    }

    fn allowed_to_use_application_commands(&self) -> (r: bool) {
        is_flag_set(self.0, 31)
    }

    fn allowed_to_request_to_speak(&self) -> (r: bool) {
        is_flag_set(self.0, 32)
    }

    fn allowed_to_manage_events(&self) -> (r: bool) {
        is_flag_set(self.0, 33)
    }

    fn allowed_to_manage_threads(&self) -> (r: bool) {
        is_flag_set(self.0, 34)
    }

    fn allowed_to_create_lic_threads(&self) -> (r: bool) {
        is_flag_set(self.0, 35)
    }

    fn allowed_to_create_private_threads(&self) -> (r: bool) {
        is_flag_set(self.0, 36)
    }

    fn allowed_to_use_external_stickers(&self) -> (r: bool) {
        is_flag_set(self.0, 37)
    }

    fn allowed_to_send_messages_in_threads(&self) -> (r: bool) {
        is_flag_set(self.0, 38)
    }

    fn allowed_to_use_embedded_activities(&self) -> (r: bool) {
        is_flag_set(self.0, 39)
    }

    fn allowed_to_moderate_members(&self) -> (r: bool) {
        is_flag_set(self.0, 40)
    }

}

impl PermissionsProvider for PermissionsMut {
    closed spec fn bits(&self) -> i64 {
        self.0
    }

    fn number_string(&self) -> (s: String) {
        decimal::i64_to_string(self.0)
    }

    fn number(&self) -> (n: i64) {
        self.0
    }

    fn allowed_to_create_instant_invite(&self) -> (r: bool) {
        is_flag_set(self.0, 0)
    }

    fn allowed_to_kick_members(&self) -> (r: bool) {
        is_flag_set(self.0, 1)
    }

    fn allowed_to_ban_members(&self) -> (r: bool) {
        is_flag_set(self.0, 2)
    }

    fn allowed_to_administrator(&self) -> (r: bool) {
        is_flag_set(self.0, 3)
    }

    fn allowed_to_manage_channels(&self) -> (r: bool) {
        is_flag_set(self.0, 4)
    }

    fn allowed_to_manage_guild(&self) -> (r: bool) {
        is_flag_set(self.0, 5)
    }

    fn allowed_to_add_reactions(&self) -> (r: bool) {
        is_flag_set(self.0, 6)
    }

    fn allowed_to_view_audit_log(&self) -> (r: bool) {
        is_flag_set(self.0, 7)
    }

    fn allowed_to_priority_speaker(&self) -> (r: bool) {
        is_flag_set(self.0, 8)
    }

    fn allowed_to_stream(&self) -> (r: bool) {
        is_flag_set(self.0, 9)
    }

    fn allowed_to_view_channel(&self) -> (r: bool) {
        is_flag_set(self.0, 10)
    }

    fn allowed_to_send_messages(&self) -> (r: bool) {
        is_flag_set(self.0, 11)
    }

    fn allowed_to_send_tts_messages(&self) -> (r: bool) {
        is_flag_set(self.0, 12)
    }

    fn allowed_to_manage_messages(&self) -> (r: bool) {
        is_flag_set(self.0, 13)
    }

    fn allowed_to_embed_links(&self) -> (r: bool) {
        is_flag_set(self.0, 14)
    }

    fn allowed_to_attach_files(&self) -> (r: bool) {
        is_flag_set(self.0, 15)
    }

    fn allowed_to_read_message_history(&self) -> (r: bool) {
        is_flag_set(self.0, 16)
    }

    fn allowed_to_mention_everyone(&self) -> (r: bool) {
        is_flag_set(self.0, 17)
    }

    fn allowed_to_use_external_emojis(&self) -> (r: bool) {
        is_flag_set(self.0, 18)
    }

    fn allowed_to_view_guild_insights(&self) -> (r: bool) {
        is_flag_set(self.0, 19)
    }

    fn allowed_to_connect(&self) -> (r: bool) {
        is_flag_set(self.0, 20)
    }

    fn allowed_to_speak(&self) -> (r: bool) {
        is_flag_set(self.0, 21)
    }

    fn allowed_to_mute_members(&self) -> (r: bool) {
        is_flag_set(self.0, 22)
    }

    fn allowed_to_deafen_members(&self) -> (r: bool) {
        is_flag_set(self.0, 23)
    }

    fn allowed_to_move_members(&self) -> (r: bool) {
        is_flag_set(self.0, 24)
    }

    fn allowed_to_use_vad(&self) -> (r: bool) {
        is_flag_set(self.0, 25)
    }

    fn allowed_to_change_nickname(&self) -> (r: bool) {
        is_flag_set(self.0, 26)
    }

    fn allowed_to_manage_nicknames(&self) -> (r: bool) {
        is_flag_set(self.0, 27)
    }

    fn allowed_to_manage_roles(&self) -> (r: bool) {
        is_flag_set(self.0, 28)
    }

    fn allowed_to_manage_webhooks(&self) -> (r: bool) {
        is_flag_set(self.0, 29)
    }

    fn allowed_to_manage_emojis_and_stickers(&self) -> (r: bool) {
        is_flag_set(self.0, 30)
    }

    fn allowed_to_use_application_commands(&self) -> (r: bool) {
        is_flag_set(self.0, 31)
    }

    fn allowed_to_request_to_speak(&self) -> (r: bool) {
        is_flag_set(self.0, 32)
    }

    fn allowed_to_manage_events(&self) -> (r: bool) {
        is_flag_set(self.0, 33)
    }

    fn allowed_to_manage_threads(&self) -> (r: bool) {
        is_flag_set(self.0, 34)
    }

    fn allowed_to_create_lic_threads(&self) -> (r: bool) {
        is_flag_set(self.0, 35)
    }

    fn allowed_to_create_private_threads(&self) -> (r: bool) {
        is_flag_set(self.0, 36)
    }

    fn allowed_to_use_external_stickers(&self) -> (r: bool) {
        is_flag_set(self.0, 37)
    }

    fn allowed_to_send_messages_in_threads(&self) -> (r: bool) {
        is_flag_set(self.0, 38)
    }

    fn allowed_to_use_embedded_activities(&self) -> (r: bool) {
        is_flag_set(self.0, 39)
    }

    fn allowed_to_moderate_members(&self) -> (r: bool) {
        is_flag_set(self.0, 40)
    }

}

impl Default for PermissionsMut {
    fn default() -> (r: Self)
        ensures
            r.bits() == 0,
    {
        PermissionsMut::new()
    }
}

impl PermissionsMut {
    pub fn new() -> (r: Self)
        ensures
            r.bits() == 0,
    {
        PermissionsMut(0)
    }

    /// Finishes construction, keeping every flag as set so far.
    pub fn freeze(self) -> (r: Permissions)
        ensures
            r.bits() == self.bits(),
    {
        Permissions(self.0)
    }

    pub fn allow_to_create_instant_invite(&mut self)
        ensures
            final(self).bits() == old(self).bits() | (1i64 << 0),
    {
        self.0 = self.0 | (1i64 << 0);
    }

    pub fn allow_to_kick_members(&mut self)
        ensures
            final(self).bits() == old(self).bits() | (1i64 << 1),
    {
        self.0 = self.0 | (1i64 << 1);
    }

    pub fn allow_to_ban_members(&mut self)
        ensures
            final(self).bits() == old(self).bits() | (1i64 << 2),
    {
        self.0 = self.0 | (1i64 << 2);
    }

    pub fn allow_to_administrator(&mut self)
        ensures
            final(self).bits() == old(self).bits() | (1i64 << 3),
    {
        self.0 = self.0 | (1i64 << 3);
    }

    pub fn allow_to_manage_channels(&mut self)
        ensures
            final(self).bits() == old(self).bits() | (1i64 << 4),
    {
        self.0 = self.0 | (1i64 << 4);
    }

    pub fn allow_to_manage_guild(&mut self)
        ensures
            final(self).bits() == old(self).bits() | (1i64 << 5),
    {
        self.0 = self.0 | (1i64 << 5);
    }

    pub fn allow_to_add_reactions(&mut self)
        ensures
            final(self).bits() == old(self).bits() | (1i64 << 6),
    {
        self.0 = self.0 | (1i64 << 6);
    }

    pub fn allow_to_view_audit_log(&mut self)
        ensures
            final(self).bits() == old(self).bits() | (1i64 << 7),
    {
        self.0 = self.0 | (1i64 << 7);
    }

    pub fn allow_to_priority_speaker(&mut self)
        ensures
            final(self).bits() == old(self).bits() | (1i64 << 8),
    {
        self.0 = self.0 | (1i64 << 8);
    }

    pub fn allow_to_stream(&mut self)
        ensures
            final(self).bits() == old(self).bits() | (1i64 << 9),
    {
        self.0 = self.0 | (1i64 << 9);
    }

    pub fn allow_to_view_channel(&mut self)
        ensures
            final(self).bits() == old(self).bits() | (1i64 << 10),
    {
        self.0 = self.0 | (1i64 << 10);
    }

    pub fn allow_to_send_messages(&mut self)
        ensures
            final(self).bits() == old(self).bits() | (1i64 << 11),
    {
        self.0 = self.0 | (1i64 << 11);
    }

    pub fn allow_to_send_tts_messages(&mut self)
        ensures
            final(self).bits() == old(self).bits() | (1i64 << 12),
    {
        self.0 = self.0 | (1i64 << 12);
    }

    pub fn allow_to_manage_messages(&mut self)
        ensures
            final(self).bits() == old(self).bits() | (1i64 << 13),
    {
        self.0 = self.0 | (1i64 << 13);
    }

    pub fn allow_to_embed_links(&mut self)
        ensures
            final(self).bits() == old(self).bits() | (1i64 << 14),
    {
        self.0 = self.0 | (1i64 << 14);
    }

    pub fn allow_to_attach_files(&mut self)
        ensures
            final(self).bits() == old(self).bits() | (1i64 << 15),
    {
        self.0 = self.0 | (1i64 << 15);
    }

    pub fn allow_to_read_message_history(&mut self)
        ensures
            final(self).bits() == old(self).bits() | (1i64 << 16),
    {
        self.0 = self.0 | (1i64 << 16);
    }

    pub fn allow_to_mention_everyone(&mut self)
        ensures
            final(self).bits() == old(self).bits() | (1i64 << 17),
    {
        self.0 = self.0 | (1i64 << 17);
    }

    pub fn allow_to_use_external_emojis(&mut self)
        ensures
            final(self).bits() == old(self).bits() | (1i64 << 18),
    {
        self.0 = self.0 | (1i64 << 18);
    }

    pub fn allow_to_view_guild_insights(&mut self)
        ensures
            final(self).bits() == old(self).bits() | (1i64 << 19),
    {
        self.0 = self.0 | (1i64 << 19);
    }

    pub fn allow_to_connect(&mut self)
        ensures
            final(self).bits() == old(self).bits() | (1i64 << 20),
    {
        self.0 = self.0 | (1i64 << 20);
    }

    pub fn allow_to_speak(&mut self)
        ensures
            final(self).bits() == old(self).bits() | (1i64 << 21),
    {
        self.0 = self.0 | (1i64 << 21);
    }

    pub fn allow_to_mute_members(&mut self)
        ensures
            final(self).bits() == old(self).bits() | (1i64 << 22),
    {
        self.0 = self.0 | (1i64 << 22);
    }

    pub fn allow_to_deafen_members(&mut self)
        ensures
            final(self).bits() == old(self).bits() | (1i64 << 23),
    {
        self.0 = self.0 | (1i64 << 23);
    }

    pub fn allow_to_move_members(&mut self)
        ensures
            final(self).bits() == old(self).bits() | (1i64 << 24),
    {
        self.0 = self.0 | (1i64 << 24);
    }

    pub fn allow_to_use_vad(&mut self)
        ensures
            final(self).bits() == old(self).bits() | (1i64 << 25),
    {
        self.0 = self.0 | (1i64 << 25);
    }

    pub fn allow_to_change_nickname(&mut self)
        ensures
            final(self).bits() == old(self).bits() | (1i64 << 26),
    {
        self.0 = self.0 | (1i64 << 26);
    }

    pub fn allow_to_manage_nicknames(&mut self)
        ensures
            final(self).bits() == old(self).bits() | (1i64 << 27),
    {
        self.0 = self.0 | (1i64 << 27);
    }

    pub fn allow_to_manage_roles(&mut self)
        ensures
            final(self).bits() == old(self).bits() | (1i64 << 28),
    {
        self.0 = self.0 | (1i64 << 28);
    }

    pub fn allow_to_manage_webhooks(&mut self)
        ensures
            final(self).bits() == old(self).bits() | (1i64 << 29),
    {
        self.0 = self.0 | (1i64 << 29);
    }

    pub fn allow_to_manage_emojis_and_stickers(&mut self)
        ensures
            final(self).bits() == old(self).bits() | (1i64 << 30),
    {
        self.0 = self.0 | (1i64 << 30);
    }

    pub fn allow_to_use_application_commands(&mut self)
        ensures
            final(self).bits() == old(self).bits() | (1i64 << 31),
    {
        self.0 = self.0 | (1i64 << 31);
    }

    pub fn allow_to_request_to_speak(&mut self)
        ensures
            final(self).bits() == old(self).bits() | (1i64 << 32),
    {
        self.0 = self.0 | (1i64 << 32);
    }

    pub fn allow_to_manage_events(&mut self)
        ensures
            final(self).bits() == old(self).bits() | (1i64 << 33),
    {
        self.0 = self.0 | (1i64 << 33);
    }

    pub fn allow_to_manage_threads(&mut self)
        ensures
            final(self).bits() == old(self).bits() | (1i64 << 34),
    {
        self.0 = self.0 | (1i64 << 34);
    }

    pub fn allow_to_create_public_threads(&mut self)
        ensures
            final(self).bits() == old(self).bits() | (1i64 << 35),
    {
        self.0 = self.0 | (1i64 << 35);
    }

    pub fn allow_to_create_private_threads(&mut self)
        ensures
            final(self).bits() == old(self).bits() | (1i64 << 36),
    {
        self.0 = self.0 | (1i64 << 36);
    }

    pub fn allow_to_use_external_stickers(&mut self)
        ensures
            final(self).bits() == old(self).bits() | (1i64 << 37),
    {
        self.0 = self.0 | (1i64 << 37);
    }

    pub fn allow_to_send_messages_in_threads(&mut self)
        ensures
            final(self).bits() == old(self).bits() | (1i64 << 38),
    {
        self.0 = self.0 | (1i64 << 38);
    }

    pub fn allow_to_use_embedded_activities(&mut self)
        ensures
            final(self).bits() == old(self).bits() | (1i64 << 39),
    {
        self.0 = self.0 | (1i64 << 39);
    }

    pub fn allow_to_moderate_members(&mut self)
        ensures
            final(self).bits() == old(self).bits() | (1i64 << 40),
    {
        self.0 = self.0 | (1i64 << 40);
    }

}

} // verus!
