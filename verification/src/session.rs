use vstd::prelude::*;

use crate::bot_type::BotType;

verus! {

/// The posting provider a cached credential belongs to.
#[derive(Clone, Copy, Debug, PartialEq, Eq, Structural)]
pub enum AuthProvider {
    X,
}

/// The mathematical value of a [`Session`].
pub struct SessionData {
    pub provider: AuthProvider,
    pub bot_type: BotType,
    pub access_token: Seq<char>,
}

/// A persisted authorization session: one row per (provider, category) pair.
/// Once written it is reused on every later run, so the interactive
/// authorization flow happens at most once per category.
#[derive(Debug)]
pub struct Session {
    pub provider: AuthProvider,
    pub bot_type: BotType,
    pub access_token: String,
}

impl View for Session {
    type V = SessionData;

    open spec fn view(&self) -> SessionData {
        SessionData {
            provider: self.provider,
            bot_type: self.bot_type,
            access_token: self.access_token@,
        }
    }
}

impl DeepView for Session {
    type V = SessionData;

    open spec fn deep_view(&self) -> SessionData {
        self.view()
    }
}

impl Clone for Session {
    fn clone(&self) -> (r: Self)
        ensures
            r@ == self@,
    {
        Session {
            provider: self.provider,
            bot_type: self.bot_type,
            access_token: self.access_token.clone(),
        }
    }
}

} // verus!
