//! What a session holds for the service.

use vstd::prelude::*;
use crate::authentication::UserId;
use crate::fresh::{fresh_id, is_random_id};

verus! {

/// A session: its identifier, the user who is logged in, if any, and the
/// message for the next page, if one is waiting. A message is shown once:
/// the page that shows it takes it out of the session.
#[derive(Debug)]
pub struct TypedSession {
    pub id: u128,
    pub user_id: Option<UserId>,
    pub flash: Option<String>,
}

/// The key under which the session holds the user.
pub const USER_ID_KEY: &'static str = "user_id";

/// The key under which the session holds the message for the next page.
pub const FLASH_KEY: &'static str = "_flash";

impl TypedSession {
    /// The message that waits for the next page, as text.
    pub open spec fn message(self) -> Option<Seq<char>> {
        match self.flash {
            Some(text) => Some(text@),
            None => None,
        }
    }

    /// A session with a fresh random identifier, nobody logged in and no
    /// message waiting.
    pub fn new() -> (session: TypedSession)
        ensures
            session.user_id is None,
            session.flash is None,
            is_random_id(session.id),
    {
        TypedSession { id: fresh_id(), user_id: None, flash: None }
    }

    /// Logs the user in.
    pub fn insert_iser_id(&mut self, user_id: UserId)
        ensures
            final(self).user_id == Some(user_id),
            final(self).id == old(self).id,
            final(self).flash == old(self).flash,
    {
        self.user_id = Some(user_id);
    }

    /// The user who is logged in, if any.
    pub fn get_user_id(&self) -> (user_id: Option<UserId>)
        ensures
            user_id == self.user_id,
    {
        self.user_id
    }

    /// Gives the session a fresh random identifier in place of the one it
    /// had, and keeps what it holds.
    pub fn cycle_id(&mut self)
        ensures
            final(self).user_id == old(self).user_id,
            final(self).flash == old(self).flash,
            is_random_id(final(self).id),
    {
        self.id = fresh_id();
    }

    /// Logs out: the session holds nothing any longer.
    pub fn log_out(&mut self)
        ensures
            final(self).user_id is None,
            final(self).flash is None,
            final(self).id == old(self).id,
    {
        self.user_id = None;
        self.flash = None;
    }

    /// Leaves a message for the next page, in place of one that may be
    /// waiting.
    pub fn set_flash(&mut self, message: String)
        ensures
            final(self).flash == Some(message),
            final(self).user_id == old(self).user_id,
            final(self).id == old(self).id,
    {
        self.flash = Some(message);
    }

    /// Takes the waiting message out of the session, so that it is shown
    /// once and no more.
    pub fn take_flash(&mut self) -> (message: Option<String>)
        ensures
            message == old(self).flash,
            final(self).flash is None,
            final(self).user_id == old(self).user_id,
            final(self).id == old(self).id,
    {
        self.flash.take()
    }
}

} // verus!
