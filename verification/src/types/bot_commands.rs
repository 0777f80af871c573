//! Contains a list of bot commands

use vstd::prelude::*;

use crate::types::{new_extra, RObject};
use crate::types::support::{BotCommand};

verus! {

fn clone_commands(v: &Vec<BotCommand>) -> (r: Vec<BotCommand>)
    ensures
        r@ == v@,
{
    let mut out: Vec<BotCommand> = Vec::new();
    let mut i: usize = 0;
    while i < v.len()
        invariant
            i <= v@.len(),
            out@ == v@.take(i as int),
        decreases v@.len() - i,
    {
        out.push(v[i].clone());
        i = i + 1;
        assert(v@.take(i as int) =~= v@.take(i as int - 1).push(v@[i as int - 1]));
    }
    assert(v@.take(v@.len() as int) == v@);
    out
}

/// Contains a list of bot commands
#[derive(Debug)]
pub struct BotCommands {
    pub td_name: String,
    pub extra: Option<String>,
    /// Bot's user identifier
    pub bot_user_id: i64,
    /// List of bot commands
    pub commands: Vec<BotCommand>,
}

impl Clone for BotCommands {
    fn clone(&self) -> (r: Self)
        ensures
            r.td_name == self.td_name,
            r.extra == self.extra,
            r.bot_user_id == self.bot_user_id,
            r.commands@ == self.commands@,
    {
        BotCommands {
            td_name: self.td_name.clone(),
            extra: match &self.extra {
                Some(s) => Some(s.clone()),
                None => None,
            },
            bot_user_id: self.bot_user_id,
            commands: clone_commands(&self.commands),
        }
    }
}

impl Default for BotCommands {
    fn default() -> (r: Self)
        ensures
            r.td_name@ == Seq::<char>::empty(),
            r.extra is None,
            r.bot_user_id == 0,
            r.commands@ == Seq::<BotCommand>::empty(),
    {
        BotCommands { td_name: String::new(), extra: None, bot_user_id: 0, commands: Vec::new() }
    }
}

impl RObject for BotCommands {
    fn td_name(&self) -> &'static str {
        "botCommands"
    }

    fn extra(&self) -> Option<String> {
        match &self.extra {
            Some(s) => Some(s.clone()),
            None => None,
        }
    }
}

impl BotCommands {
    pub fn builder() -> (r: RTDBotCommandsBuilder)
        ensures
            r.inner.td_name@ == "botCommands"@,
            r.inner.extra is Some,
            r.inner.bot_user_id == 0,
            r.inner.commands@ == Seq::<BotCommand>::empty(),
    {
        let mut inner = BotCommands::default();
        inner.td_name = "botCommands".to_owned();
        inner.extra = Some(new_extra());
        RTDBotCommandsBuilder { inner }
    }

    /// Bot's user identifier
    pub fn bot_user_id(&self) -> (r: i64)
        ensures
            r == self.bot_user_id,
    {
        self.bot_user_id
    }

    /// List of bot commands
    pub fn commands(&self) -> (r: &Vec<BotCommand>)
        ensures
            r == self.commands,
    {
        &self.commands
    }
}

pub struct RTDBotCommandsBuilder {
    pub inner: BotCommands,
}

impl RTDBotCommandsBuilder {
    pub fn build(&self) -> (r: BotCommands)
        ensures
            r.td_name == self.inner.td_name,
            r.extra == self.inner.extra,
            r.bot_user_id == self.inner.bot_user_id,
            r.commands@ == self.inner.commands@,
    {
        self.inner.clone()
    }

    pub fn bot_user_id(&mut self, bot_user_id: i64)
        ensures
            final(self).inner.bot_user_id == bot_user_id,
            final(self).inner.commands == old(self).inner.commands,
            final(self).inner.td_name == old(self).inner.td_name,
            final(self).inner.extra == old(self).inner.extra,
    {
        self.inner.bot_user_id = bot_user_id;
    }

    pub fn commands(&mut self, commands: Vec<BotCommand>)
        ensures
            final(self).inner.commands == commands,
            final(self).inner.bot_user_id == old(self).inner.bot_user_id,
            final(self).inner.td_name == old(self).inner.td_name,
            final(self).inner.extra == old(self).inner.extra,
    {
        self.inner.commands = commands;
    }
}

} // verus!
