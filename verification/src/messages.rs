//! What the daemon sends, saves and asks for while it carries out a command.

use vstd::prelude::*;
use vstd::string::*;

verus! {

/// The colour of an embed.
#[derive(Clone, Copy, Debug, PartialEq, Eq, Structural)]
pub enum Colour {
    Gold,
    Red,
    DarkGreen,
}

/// A field of an embed.
#[derive(Debug)]
pub struct EmbedField {
    pub name: String,
    pub value: String,
    pub inline: bool,
}

/// What a field shows.
pub struct EmbedFieldView {
    pub name: Seq<char>,
    pub value: Seq<char>,
    pub inline: bool,
}

impl View for EmbedField {
    type V = EmbedFieldView;

    open spec fn view(&self) -> EmbedFieldView {
        EmbedFieldView { name: self.name@, value: self.value@, inline: self.inline }
    }
}

/// A rich message, stamped with the time at which it is sent.
#[derive(Debug)]
pub struct Embed {
    pub title: String,
    pub description: String,
    pub colour: Colour,
    pub fields: Vec<EmbedField>,
}

/// What a rich message shows.
pub struct EmbedView {
    pub title: Seq<char>,
    pub description: Seq<char>,
    pub colour: Colour,
    pub fields: Seq<EmbedFieldView>,
}

impl View for Embed {
    type V = EmbedView;

    open spec fn view(&self) -> EmbedView {
        EmbedView {
            title: self.title@,
            description: self.description@,
            colour: self.colour,
            fields: self.fields@.map_values(|f: EmbedField| f@),
        }
    }
}

impl EmbedView {
    /// The embed with one field more.
    pub open spec fn with_field(self, name: Seq<char>, value: Seq<char>, inline: bool)
        -> EmbedView {
        EmbedView { fields: self.fields.push(EmbedFieldView { name, value, inline }), ..self }
    }
}

impl Embed {
    /// An embed without fields.
    pub fn new(title: &str, description: String, colour: Colour) -> (embed: Embed)
        ensures
            embed@ == (EmbedView {
                title: title@,
                description: description@,
                colour,
                fields: Seq::empty(),
            }),
    {
        let embed = Embed { title: title.to_owned(), description, colour, fields: Vec::new() };
        assert(embed@.fields =~= Seq::empty());
        embed
    }

    /// Appends a field.
    pub fn add_field(&mut self, name: &str, value: String, inline: bool)
        ensures
            final(self)@ == old(self)@.with_field(name@, value@, inline),
    {
        self.fields.push(EmbedField { name: name.to_owned(), value, inline });
        assert(self@.fields =~= old(self)@.with_field(name@, value@, inline).fields);
    }
}

/// What the enforcement task is asked to look at.
#[derive(Clone, Debug)]
pub enum EnforcementCheckRequest {
    CheckUser { user_id: u64, guild_id: u64 },
    CheckEnforcement { enforcement_id: String },
}

/// What a request to the enforcement task names.
pub enum CheckView {
    CheckUser { user_id: u64, guild_id: u64 },
    CheckEnforcement { enforcement_id: Seq<char> },
}

impl View for EnforcementCheckRequest {
    type V = CheckView;

    open spec fn view(&self) -> CheckView {
        match self {
            EnforcementCheckRequest::CheckUser { user_id, guild_id } => CheckView::CheckUser {
                user_id: *user_id,
                guild_id: *guild_id,
            },
            EnforcementCheckRequest::CheckEnforcement { enforcement_id } =>
                CheckView::CheckEnforcement { enforcement_id: enforcement_id@ },
        }
    }
}

/// Something that a command has done outside of the daemon's memory.
#[derive(Debug)]
pub enum Effect {
    /// Send a rich message to a channel.
    SendToChannel { channel_id: u64, embed: Embed },
    /// Open a private channel to a user and send the notice of a warning there.
    DirectMessage { user_id: u64, reason: String },
    /// Answer the command with a rich message.
    Reply { embed: Embed },
    /// Write all that the daemon remembers to disk.
    Save,
    /// Ask the enforcement task, where one runs, for a check.
    RequestCheck { request: EnforcementCheckRequest },
    /// Answer the command with a plain message.
    Say { text: String },
}

/// What an effect amounts to.
pub enum EffectView {
    SendToChannel { channel_id: u64, embed: EmbedView },
    DirectMessage { user_id: u64, reason: Seq<char> },
    Reply { embed: EmbedView },
    Save,
    RequestCheck { request: CheckView },
    Say { text: Seq<char> },
}

impl View for Effect {
    type V = EffectView;

    open spec fn view(&self) -> EffectView {
        match self {
            Effect::SendToChannel { channel_id, embed } => EffectView::SendToChannel {
                channel_id: *channel_id,
                embed: embed@,
            },
            Effect::DirectMessage { user_id, reason } => EffectView::DirectMessage {
                user_id: *user_id,
                reason: reason@,
            },
            Effect::Reply { embed } => EffectView::Reply { embed: embed@ },
            Effect::Save => EffectView::Save,
            Effect::RequestCheck { request } => EffectView::RequestCheck { request: request@ },
            Effect::Say { text } => EffectView::Say { text: text@ },
        }
    }
}

} // verus!
