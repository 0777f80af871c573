//! Contains full information about a basic group

use vstd::prelude::*;

use crate::types::{new_extra, RObject};
use crate::types::support::{ChatInviteLink, ChatMember, ChatPhoto};
use crate::types::bot_commands::BotCommands;

verus! {

fn clone_members(v: &Vec<ChatMember>) -> (r: Vec<ChatMember>)
    ensures
        r@ == v@,
{
    let mut out: Vec<ChatMember> = Vec::new();
    let mut i: usize = 0;
    while i < v.len()
        invariant
            i <= v@.len(),
            out@ == v@.take(i as int),
        decreases v@.len() - i,
    {
        out.push(v[i].clone());
        i = i + 1;
        assert(v@.take(i as int) =~= v@.take(i as int - 1).push(v@[i as int - 1]));
    }
    assert(v@.take(v@.len() as int) == v@);
    out
}

fn clone_bot_commands(v: &Vec<BotCommands>) -> (r: Vec<BotCommands>)
    ensures
        r@.len() == v@.len(),
        forall|i: int| 0 <= i < v@.len() ==> ((#[trigger] r@[i]).td_name == v@[i].td_name && r@[i].extra == v@[i].extra && r@[i].bot_user_id == v@[i].bot_user_id && r@[i].commands@ == v@[i].commands@),
{
    let mut out: Vec<BotCommands> = Vec::new();
    let mut i: usize = 0;
    while i < v.len()
        invariant
            i <= v@.len(),
            out@.len() == i && forall|j: int| 0 <= j < i ==> ((#[trigger] out@[j]).td_name == v@[j].td_name && out@[j].extra == v@[j].extra && out@[j].bot_user_id == v@[j].bot_user_id && out@[j].commands@ == v@[j].commands@),
        decreases v@.len() - i,
    {
        out.push(v[i].clone());
        i = i + 1;
        assert(v@.take(i as int) =~= v@.take(i as int - 1).push(v@[i as int - 1]));
    }
    
    out
}

/// Contains full information about a basic group
#[derive(Debug)]
pub struct BasicGroupFullInfo {
    pub td_name: String,
    pub extra: Option<String>,
    /// Chat photo; may be null
    pub photo: Option<ChatPhoto>,
    /// Contains full information about a basic group
    pub description: String,
    /// User identifier of the creator of the group; 0 if unknown
    pub creator_user_id: i64,
    /// Group members
    pub members: Vec<ChatMember>,
    /// Primary invite link for this group; may be null. For chat administrators with can_invite_users right only. Updated only after the basic group is opened
    pub invite_link: Option<ChatInviteLink>,
    /// List of commands of bots in the group
    pub bot_commands: Vec<BotCommands>,
}

impl Clone for BasicGroupFullInfo {
    fn clone(&self) -> (r: Self)
        ensures
            r.td_name == self.td_name,
            r.extra == self.extra,
            r.photo == self.photo,
            r.description == self.description,
            r.creator_user_id == self.creator_user_id,
            r.members@ == self.members@,
            r.invite_link == self.invite_link,
            r.bot_commands@.len() == self.bot_commands@.len(),
            forall|i: int| 0 <= i < self.bot_commands@.len() ==> ((#[trigger] r.bot_commands@[i]).td_name == self.bot_commands@[i].td_name && (#[trigger] r.bot_commands@[i]).extra == self.bot_commands@[i].extra && (#[trigger] r.bot_commands@[i]).bot_user_id == self.bot_commands@[i].bot_user_id && (#[trigger] r.bot_commands@[i]).commands@ == self.bot_commands@[i].commands@),
    {
        BasicGroupFullInfo {
            td_name: self.td_name.clone(),
            extra: match &self.extra {
                Some(s) => Some(s.clone()),
                None => None,
            },
            photo: match &self.photo {
                Some(v) => Some(v.clone()),
                None => None,
            },
            description: self.description.clone(),
            creator_user_id: self.creator_user_id,
            members: clone_members(&self.members),
            invite_link: match &self.invite_link {
                Some(v) => Some(v.clone()),
                None => None,
            },
            bot_commands: clone_bot_commands(&self.bot_commands),
        }
    }
}

impl Default for BasicGroupFullInfo {
    fn default() -> (r: Self)
        ensures
            r.td_name@ == Seq::<char>::empty(),
            r.extra is None,
            r.photo is None,
            r.description@ == Seq::<char>::empty(),
            r.creator_user_id == 0,
            r.members@ == Seq::<ChatMember>::empty(),
            r.invite_link is None,
            r.bot_commands@ == Seq::<BotCommands>::empty(),
    {
        BasicGroupFullInfo { td_name: String::new(), extra: None, photo: None, description: String::new(), creator_user_id: 0, members: Vec::new(), invite_link: None, bot_commands: Vec::new() }
    }
}

impl RObject for BasicGroupFullInfo {
    fn td_name(&self) -> &'static str {
        "basicGroupFullInfo"
    }

    fn extra(&self) -> Option<String> {
        match &self.extra {
            Some(s) => Some(s.clone()),
            None => None,
        }
    }
}

impl BasicGroupFullInfo {
    pub fn builder() -> (r: RTDBasicGroupFullInfoBuilder)
        ensures
            r.inner.td_name@ == "basicGroupFullInfo"@,
            r.inner.extra is Some,
            r.inner.photo is None,
            r.inner.description@ == Seq::<char>::empty(),
            r.inner.creator_user_id == 0,
            r.inner.members@ == Seq::<ChatMember>::empty(),
            r.inner.invite_link is None,
            r.inner.bot_commands@ == Seq::<BotCommands>::empty(),
    {
        let mut inner = BasicGroupFullInfo::default();
        inner.td_name = "basicGroupFullInfo".to_owned();
        inner.extra = Some(new_extra());
        RTDBasicGroupFullInfoBuilder { inner }
    }

    /// Chat photo; may be null
    pub fn photo(&self) -> (r: &Option<ChatPhoto>)
        ensures
            r == self.photo,
    {
        &self.photo
    }

    /// Contains full information about a basic group
    pub fn description(&self) -> (r: &String)
        ensures
            r == self.description,
    {
        &self.description
    }

    /// User identifier of the creator of the group; 0 if unknown
    pub fn creator_user_id(&self) -> (r: i64)
        ensures
            r == self.creator_user_id,
    {
        self.creator_user_id
    }

    /// Group members
    pub fn members(&self) -> (r: &Vec<ChatMember>)
        ensures
            r == self.members,
    {
        &self.members
    }

    /// Primary invite link for this group; may be null. For chat administrators with can_invite_users right only. Updated only after the basic group is opened
    pub fn invite_link(&self) -> (r: &Option<ChatInviteLink>)
        ensures
            r == self.invite_link,
    {
        &self.invite_link
    }

    /// List of commands of bots in the group
    pub fn bot_commands(&self) -> (r: &Vec<BotCommands>)
        ensures
            r == self.bot_commands,
    {
        &self.bot_commands
    }
}

pub struct RTDBasicGroupFullInfoBuilder {
    pub inner: BasicGroupFullInfo,
}

impl RTDBasicGroupFullInfoBuilder {
    pub fn build(&self) -> (r: BasicGroupFullInfo)
        ensures
            r.td_name == self.inner.td_name,
            r.extra == self.inner.extra,
            r.photo == self.inner.photo,
            r.description == self.inner.description,
            r.creator_user_id == self.inner.creator_user_id,
            r.members@ == self.inner.members@,
            r.invite_link == self.inner.invite_link,
            r.bot_commands@.len() == self.inner.bot_commands@.len(),
            forall|i: int| 0 <= i < self.inner.bot_commands@.len() ==> ((#[trigger] r.bot_commands@[i]).td_name == self.inner.bot_commands@[i].td_name && (#[trigger] r.bot_commands@[i]).extra == self.inner.bot_commands@[i].extra && (#[trigger] r.bot_commands@[i]).bot_user_id == self.inner.bot_commands@[i].bot_user_id && (#[trigger] r.bot_commands@[i]).commands@ == self.inner.bot_commands@[i].commands@),
    {
        self.inner.clone()
    }

    pub fn photo(&mut self, photo: &ChatPhoto)
        ensures
            final(self).inner.photo == Some(*photo),
            final(self).inner.description == old(self).inner.description,
            final(self).inner.creator_user_id == old(self).inner.creator_user_id,
            final(self).inner.members == old(self).inner.members,
            final(self).inner.invite_link == old(self).inner.invite_link,
            final(self).inner.bot_commands == old(self).inner.bot_commands,
            final(self).inner.td_name == old(self).inner.td_name,
            final(self).inner.extra == old(self).inner.extra,
    {
        self.inner.photo = Some(photo.clone());
    }

    pub fn description(&mut self, description: &str)
        ensures
            final(self).inner.description@ == description@,
            final(self).inner.photo == old(self).inner.photo,
            final(self).inner.creator_user_id == old(self).inner.creator_user_id,
            final(self).inner.members == old(self).inner.members,
            final(self).inner.invite_link == old(self).inner.invite_link,
            final(self).inner.bot_commands == old(self).inner.bot_commands,
            final(self).inner.td_name == old(self).inner.td_name,
            final(self).inner.extra == old(self).inner.extra,
    {
        self.inner.description = description.to_owned();
    }

    pub fn creator_user_id(&mut self, creator_user_id: i64)
        ensures
            final(self).inner.creator_user_id == creator_user_id,
            final(self).inner.photo == old(self).inner.photo,
            final(self).inner.description == old(self).inner.description,
            final(self).inner.members == old(self).inner.members,
            final(self).inner.invite_link == old(self).inner.invite_link,
            final(self).inner.bot_commands == old(self).inner.bot_commands,
            final(self).inner.td_name == old(self).inner.td_name,
            final(self).inner.extra == old(self).inner.extra,
    {
        self.inner.creator_user_id = creator_user_id;
    }

    pub fn members(&mut self, members: Vec<ChatMember>)
        ensures
            final(self).inner.members == members,
            final(self).inner.photo == old(self).inner.photo,
            final(self).inner.description == old(self).inner.description,
            final(self).inner.creator_user_id == old(self).inner.creator_user_id,
            final(self).inner.invite_link == old(self).inner.invite_link,
            final(self).inner.bot_commands == old(self).inner.bot_commands,
            final(self).inner.td_name == old(self).inner.td_name,
            final(self).inner.extra == old(self).inner.extra,
    {
        self.inner.members = members;
    }

    pub fn invite_link(&mut self, invite_link: &ChatInviteLink)
        ensures
            final(self).inner.invite_link == Some(*invite_link),
            final(self).inner.photo == old(self).inner.photo,
            final(self).inner.description == old(self).inner.description,
            final(self).inner.creator_user_id == old(self).inner.creator_user_id,
            final(self).inner.members == old(self).inner.members,
            final(self).inner.bot_commands == old(self).inner.bot_commands,
            final(self).inner.td_name == old(self).inner.td_name,
            final(self).inner.extra == old(self).inner.extra,
    {
        self.inner.invite_link = Some(invite_link.clone());
    }

    pub fn bot_commands(&mut self, bot_commands: Vec<BotCommands>)
        ensures
            final(self).inner.bot_commands == bot_commands,
            final(self).inner.photo == old(self).inner.photo,
            final(self).inner.description == old(self).inner.description,
            final(self).inner.creator_user_id == old(self).inner.creator_user_id,
            final(self).inner.members == old(self).inner.members,
            final(self).inner.invite_link == old(self).inner.invite_link,
            final(self).inner.td_name == old(self).inner.td_name,
            final(self).inner.extra == old(self).inner.extra,
    {
        self.inner.bot_commands = bot_commands;
    }
}

} // verus!
