//! The chat platform's wire types: what an interaction carries in and what
//! a reply carries out.

use crate::text::opt_text;
use vstd::prelude::*;

verus! {

/// A failure as the bot reports it: a status and a description.
#[derive(Debug, PartialEq, Eq)]
pub struct BotError {
    pub status_code: u64,
    pub body: String,
}

/// The mathematical content of a [`BotError`].
pub struct BotErrorView {
    pub status_code: u64,
    pub body: Seq<char>,
}

impl View for BotError {
    type V = BotErrorView;

    open spec fn view(&self) -> BotErrorView {
        BotErrorView {
            status_code: self.status_code,
            body: self.body@,
        }
    }
}

/// The headers of a reply.
#[derive(Debug, PartialEq, Eq)]
pub struct Headers {
    pub content_type: String,
}

/// The mathematical content of a [`Headers`].
pub struct HeadersView {
    pub content_type: Seq<char>,
}

impl View for Headers {
    type V = HeadersView;

    open spec fn view(&self) -> HeadersView {
        HeadersView {
            content_type: self.content_type@,
        }
    }
}

/// One suggestion offered while a text option is being typed.
#[derive(Debug, PartialEq, Eq)]
pub struct StringChoice {
    pub name: String,
    pub value: String,
}

/// The mathematical content of a [`StringChoice`].
pub struct StringChoiceView {
    pub name: Seq<char>,
    pub value: Seq<char>,
}

impl View for StringChoice {
    type V = StringChoiceView;

    open spec fn view(&self) -> StringChoiceView {
        StringChoiceView {
            name: self.name@,
            value: self.value@,
        }
    }
}

/// The payload of a reply: a message, or suggestions.
#[derive(Debug, PartialEq, Eq)]
pub struct Data {
    pub tts: Option<bool>,
    pub content: Option<String>,
    pub choices: Option<Vec<StringChoice>>,
}

/// The mathematical content of a [`Data`].
pub struct DataView {
    pub tts: Option<bool>,
    pub content: Option<Seq<char>>,
    pub choices: Option<Seq<StringChoiceView>>,
}

impl View for Data {
    type V = DataView;

    open spec fn view(&self) -> DataView {
        DataView {
            tts: self.tts,
            content: opt_text(self.content),
            choices: match self.choices {
                Some(list) => Some(list@.map_values(|item: StringChoice| item@)),
                None => None,
            },
        }
    }
}

/// The body of a reply: its kind and, for most kinds, a payload.
#[derive(Debug, PartialEq, Eq)]
pub struct Body {
    pub type_field: u64,
    pub data: Option<Data>,
}

/// The mathematical content of a [`Body`].
pub struct BodyView {
    pub type_field: u64,
    pub data: Option<DataView>,
}

impl View for Body {
    type V = BodyView;

    open spec fn view(&self) -> BodyView {
        BodyView {
            type_field: self.type_field,
            data: match self.data {
                Some(value) => Some(value@),
                None => None,
            },
        }
    }
}

/// A reply to an interaction.
#[derive(Debug, PartialEq, Eq)]
pub struct BotResponse {
    pub headers: Headers,
    pub status_code: u64,
    pub body: Body,
}

/// The mathematical content of a [`BotResponse`].
pub struct BotResponseView {
    pub headers: HeadersView,
    pub status_code: u64,
    pub body: BodyView,
}

impl View for BotResponse {
    type V = BotResponseView;

    open spec fn view(&self) -> BotResponseView {
        BotResponseView {
            headers: self.headers@,
            status_code: self.status_code,
            body: self.body@,
        }
    }
}

/// A reply in the shape the hosting platform expects: the body already
/// written out as text.
#[derive(Debug, PartialEq, Eq)]
pub struct LambdaBotResponse {
    pub headers: Headers,
    pub status_code: u64,
    pub body: String,
}

/// The mathematical content of a [`LambdaBotResponse`].
pub struct LambdaBotResponseView {
    pub headers: HeadersView,
    pub status_code: u64,
    pub body: Seq<char>,
}

impl View for LambdaBotResponse {
    type V = LambdaBotResponseView;

    open spec fn view(&self) -> LambdaBotResponseView {
        LambdaBotResponseView {
            headers: self.headers@,
            status_code: self.status_code,
            body: self.body@,
        }
    }
}

/// A command option whose value is text.
#[derive(Debug, PartialEq, Eq)]
pub struct StringCommandOption {
    pub type_field: u64,
    pub name: String,
    pub value: String,
    pub focused: Option<bool>,
}

/// The mathematical content of a [`StringCommandOption`].
pub struct StringCommandOptionView {
    pub type_field: u64,
    pub name: Seq<char>,
    pub value: Seq<char>,
    pub focused: Option<bool>,
}

impl View for StringCommandOption {
    type V = StringCommandOptionView;

    open spec fn view(&self) -> StringCommandOptionView {
        StringCommandOptionView {
            type_field: self.type_field,
            name: self.name@,
            value: self.value@,
            focused: self.focused,
        }
    }
}

/// A command option whose value is a number.
#[derive(Debug, PartialEq, Eq)]
pub struct NumberCommandOption {
    pub type_field: u64,
    pub name: String,
    pub value: u64,
    pub focused: Option<bool>,
}

/// The mathematical content of a [`NumberCommandOption`].
pub struct NumberCommandOptionView {
    pub type_field: u64,
    pub name: Seq<char>,
    pub value: u64,
    pub focused: Option<bool>,
}

impl View for NumberCommandOption {
    type V = NumberCommandOptionView;

    open spec fn view(&self) -> NumberCommandOptionView {
        NumberCommandOptionView {
            type_field: self.type_field,
            name: self.name@,
            value: self.value,
            focused: self.focused,
        }
    }
}

/// One option of a command.
#[derive(Debug, PartialEq, Eq)]
pub enum CommandOption {
    NumberCommandOption(NumberCommandOption),
    StringCommandOption(StringCommandOption),
}

/// The mathematical content of a [`CommandOption`].
pub enum CommandOptionView {
    NumberCommandOption(NumberCommandOptionView),
    StringCommandOption(StringCommandOptionView),
}

impl View for CommandOption {
    type V = CommandOptionView;

    open spec fn view(&self) -> CommandOptionView {
        match self {
            CommandOption::NumberCommandOption(option) => CommandOptionView::NumberCommandOption(
                option@,
            ),
            CommandOption::StringCommandOption(option) => CommandOptionView::StringCommandOption(
                option@,
            ),
        }
    }
}

/// The content of each option of a list.
pub open spec fn options_view(options: Seq<CommandOption>) -> Seq<CommandOptionView> {
    options.map_values(|item: CommandOption| item@)
}

/// A command as a user issued it.
#[derive(Debug, PartialEq, Eq)]
pub struct Command {
    pub id: String,
    pub name: String,
    pub options: Vec<CommandOption>,
}

/// The mathematical content of a [`Command`].
pub struct CommandView {
    pub id: Seq<char>,
    pub name: Seq<char>,
    pub options: Seq<CommandOptionView>,
}

impl View for Command {
    type V = CommandView;

    open spec fn view(&self) -> CommandView {
        CommandView {
            id: self.id@,
            name: self.name@,
            options: self.options@.map_values(|item: CommandOption| item@),
        }
    }
}

/// A user of the chat platform.
#[derive(Debug, PartialEq, Eq)]
pub struct User {
    pub id: String,
    pub username: String,
}

/// The mathematical content of a [`User`].
pub struct UserView {
    pub id: Seq<char>,
    pub username: Seq<char>,
}

impl View for User {
    type V = UserView;

    open spec fn view(&self) -> UserView {
        UserView {
            id: self.id@,
            username: self.username@,
        }
    }
}

/// The member of a guild who issued an interaction.
#[derive(Debug, PartialEq, Eq)]
pub struct Member {
    pub user: User,
}

/// The mathematical content of a [`Member`].
pub struct MemberView {
    pub user: UserView,
}

impl View for Member {
    type V = MemberView;

    open spec fn view(&self) -> MemberView {
        MemberView {
            user: self.user@,
        }
    }
}

/// An interaction as the chat platform delivers it.
#[derive(Debug, PartialEq, Eq)]
pub struct DiscordReceivedCommand {
    pub type_field: u64,
    pub token: String,
    pub application_id: String,
    pub data: Option<Command>,
    pub member: Option<Member>,
}

/// The mathematical content of a [`DiscordReceivedCommand`].
pub struct DiscordReceivedCommandView {
    pub type_field: u64,
    pub token: Seq<char>,
    pub application_id: Seq<char>,
    pub data: Option<CommandView>,
    pub member: Option<MemberView>,
}

impl View for DiscordReceivedCommand {
    type V = DiscordReceivedCommandView;

    open spec fn view(&self) -> DiscordReceivedCommandView {
        DiscordReceivedCommandView {
            type_field: self.type_field,
            token: self.token@,
            application_id: self.application_id@,
            data: match self.data {
                Some(value) => Some(value@),
                None => None,
            },
            member: match self.member {
                Some(value) => Some(value@),
                None => None,
            },
        }
    }
}

/// A request for a player's recent activity, as it travels from the intake
/// to the worker.
#[derive(Debug, PartialEq, Eq)]
pub struct PlayedCommand {
    pub token: String,
    pub application_id: String,
    pub discord_user_id: String,
    pub player_name: String,
    pub days: u64,
    pub game_type: Option<String>,
}

/// The mathematical content of a [`PlayedCommand`].
pub struct PlayedCommandView {
    pub token: Seq<char>,
    pub application_id: Seq<char>,
    pub discord_user_id: Seq<char>,
    pub player_name: Seq<char>,
    pub days: u64,
    pub game_type: Option<Seq<char>>,
}

impl View for PlayedCommand {
    type V = PlayedCommandView;

    open spec fn view(&self) -> PlayedCommandView {
        PlayedCommandView {
            token: self.token@,
            application_id: self.application_id@,
            discord_user_id: self.discord_user_id@,
            player_name: self.player_name@,
            days: self.days,
            game_type: opt_text(self.game_type),
        }
    }
}

} // verus!
