//! Participant presence: a local terminal has no other participants, and its user has full
//! control.

use vstd::prelude::*;

use crate::color::{neutral_gray, ColorU};
use crate::session_types::{ParticipantId, Role, Selection};

verus! {

/// The color of a participant who is muted: opaque mid-gray.
pub fn muted_participant_color() -> (c: ColorU)
    ensures
        c == neutral_gray(),
{
    ColorU::new(128, 128, 128, 255)
}

/// Tracks who is present in a shared session; nobody else ever is.
#[derive(Clone, Copy, Debug, Default)]
pub struct PresenceManager;

impl PresenceManager {
    /// Whether the session is reconnecting to the sharing server: never.
    pub fn is_reconnecting(&self) -> (r: bool)
        ensures
            !r,
    {
        false
    }

    /// The participants present in the session: none.
    pub fn all_present_participants(&self) -> (r: Vec<Participant>)
        ensures
            r@.len() == 0,
    {
        Vec::new()
    }

    /// The participant with the given id: there is none.
    pub fn get_participant(&self, _id: &ParticipantId) -> (r: Option<Participant>)
        ensures
            r is None,
    {
        None
    }

    /// The local user's role: full control.
    pub fn role(&self) -> (r: Role)
        ensures
            r == Role::Full,
    {
        Role::Full
    }
}

/// A participant of a shared session.
#[derive(Clone, Debug)]
pub struct Participant {
    pub color: ColorU,
    pub info: ParticipantInfo,
    pub role: Option<Role>,
}

/// What identifies a participant and what it has selected.
#[derive(Clone, Debug)]
pub struct ParticipantInfo {
    pub id: ParticipantId,
    pub selection: Selection,
    pub profile_data: ParticipantProfileData,
}

/// A participant's profile as shown to others.
#[derive(Clone, Debug)]
pub struct ParticipantProfileData {
    pub display_name: String,
    pub photo_url: Option<String>,
}

/// The color in which a participant's text selection is drawn: the participant's own color.
pub fn text_selection_color(color: ColorU) -> (r: ColorU)
    ensures
        r == color,
{
    color
}

} // verus!
