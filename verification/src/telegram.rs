//! The chat bot: how a message is read as a command, what a query comes to,
//! and the rules that a new chat starts with.
use crate::decimal::{append_decimal, decimal_text};
use crate::notification::{NotificationPeriodType, NotificationTypeCode};
use crate::query::{Query, QueryType};
use crate::store::texts_of;
use crate::text::{trim, trim_str};
use vstd::prelude::*;
use vstd::string::*;

verus! {

/// Whether the regular expression `pattern` matches somewhere in `text`; none
/// where `pattern` is no regular expression.
pub uninterp spec fn regex_matches(pattern: Seq<char>, text: Seq<char>) -> Option<bool>;

/// The pieces of `text` between the matches of the regular expression
/// `pattern`; none where `pattern` is no regular expression.
pub uninterp spec fn regex_pieces(pattern: Seq<char>, text: Seq<char>) -> Option<Seq<Seq<char>>>;

/// `regex::Regex::new` and `Regex::is_match`: whether the expression matches
/// somewhere in the text, or nothing where the expression does not compile.
#[verifier::external_body]
pub(crate) fn regex_is_match(pattern: &str, text: &str) -> (found: Option<bool>)
    ensures
        found == regex_matches(pattern@, text@),
{
    match regex::Regex::new(pattern) {
        Ok(regex) => Some(regex.is_match(text)),
        Err(_) => None,
    }
}

/// `regex::Regex::new` and `Regex::split`: the pieces of the text between the
/// matches of the expression, or nothing where the expression does not compile.
#[verifier::external_body]
pub(crate) fn regex_split(pattern: &str, text: &str) -> (pieces: Option<Vec<String>>)
    ensures
        match pieces {
            Some(found) => regex_pieces(pattern@, text@) == Some(texts_of(found@)),
            None => regex_pieces(pattern@, text@) is None,
        },
{
    match regex::Regex::new(pattern) {
        Ok(regex) => Some(regex.split(text).map(String::from).collect()),
        Err(_) => None,
    }
}

/// A command: a slash and a name, then arguments after white space.
pub const CMD_REGEX: &'static str = r"^/([a-zA-Z0-9_]+)(\s+[a-zA-Z0-9_-]+)*";

/// An argument of a command.
pub const CMD_ARG_REGEX: &'static str = r"^[a-zA-Z0-9_-]+$";

/// What parts a command from its arguments.
pub const SPLITTER_REGEX: &'static str = r"\s+";

/// A command with its arguments.
#[derive(Debug)]
pub struct Command {
    pub name: String,
    pub arguments: Vec<String>,
}

/// The pieces among the first `upto` after the first that are arguments.
pub open spec fn arguments_among(pieces: Seq<Seq<char>>, upto: int) -> Seq<Seq<char>>
    decreases upto,
{
    if upto <= 1 || upto > pieces.len() {
        Seq::empty()
    } else if regex_matches(CMD_ARG_REGEX@, pieces[upto - 1]) == Some(true) {
        arguments_among(pieces, upto - 1).push(pieces[upto - 1])
    } else {
        arguments_among(pieces, upto - 1)
    }
}

/// What a text denotes as a command: once trimmed it must match the expression
/// of commands; its first piece is the name, and the pieces after it that match
/// the expression of arguments are the arguments.
pub open spec fn command_of(text: Seq<char>) -> Option<(Seq<char>, Seq<Seq<char>>)> {
    let trimmed = trim(text);
    if regex_matches(CMD_REGEX@, trimmed) == Some(true) {
        match regex_pieces(SPLITTER_REGEX@, trimmed) {
            Some(pieces) => if pieces.len() > 0 {
                Some((pieces[0], arguments_among(pieces, pieces.len() as int)))
            } else {
                None
            },
            None => None,
        }
    } else {
        None
    }
}

/// Takes a command out of pieces: the first is the name, and those after it
/// that match the expression of arguments are the arguments.
pub fn command_from_pieces(pieces: &Vec<String>) -> (command: Option<Command>)
    ensures
        match command {
            Some(read) => pieces@.len() > 0 && read.name@ == pieces@[0]@ && texts_of(
                read.arguments@,
            ) == arguments_among(texts_of(pieces@), pieces@.len() as int),
            None => pieces@.len() == 0,
        },
{
    if pieces.len() == 0 {
        return None;
    }
    let mut arguments: Vec<String> = Vec::new();
    let mut i: usize = 1;
    assert(texts_of(arguments@) =~= arguments_among(texts_of(pieces@), 1));
    while i < pieces.len()
        invariant
            1 <= i <= pieces@.len(),
            texts_of(arguments@) == arguments_among(texts_of(pieces@), i as int),
        decreases pieces@.len() - i,
    {
        let ghost before = texts_of(arguments@);
        assert(texts_of(pieces@)[i as int] == pieces@[i as int]@);
        match regex_is_match(CMD_ARG_REGEX, pieces[i].as_str()) {
            Some(true) => {
                arguments.push(pieces[i].clone());
                assert(texts_of(arguments@) =~= before.push(pieces@[i as int]@));
            },
            _ => {},
        }
        i += 1;
    }
    Some(Command { name: pieces[0].clone(), arguments })
}

/// Reads a text as a command, if it is one.
pub fn parse_command(text: &str) -> (command: Option<Command>)
    ensures
        match command_of(text@) {
            Some((name, arguments)) => command matches Some(read) && read.name@ == name
                && texts_of(read.arguments@) == arguments,
            None => command is None,
        },
{
    let trimmed = trim_str(text);
    match regex_is_match(CMD_REGEX, trimmed) {
        Some(true) => {},
        _ => {
            return None;
        },
    }
    match regex_split(SPLITTER_REGEX, trimmed) {
        Some(pieces) => {
            let command = command_from_pieces(&pieces);
            proof {
                if pieces@.len() > 0 {
                    assert(texts_of(pieces@)[0] == pieces@[0]@);
                }
            }
            command
        },
        None => None,
    }
}

/// What is known of the chat of a message before the message is looked at.
#[derive(Clone, Copy, Debug, PartialEq, Eq, Structural)]
pub enum ChatStanding {
    /// The chat is known and was not deleted.
    Known,
    /// The chat was known once and then deleted.
    Deleted,
    /// The chat is new.
    Unknown,
}

/// What is done about the chat of a message before the message is looked at.
#[derive(Clone, Copy, Debug, PartialEq, Eq, Structural)]
pub enum ChatStep {
    /// Nothing.
    Keep,
    /// The chat, its user and the rules of the user are restored.
    Restore,
    /// A user is made for the chat, with a channel and the rules that every chat
    /// starts with, and the chat is saved.
    Create,
}

/// Decides what is done about the chat of a message.
pub fn chat_step(standing: ChatStanding) -> (step: ChatStep)
    ensures
        step == match standing {
            ChatStanding::Known => ChatStep::Keep,
            ChatStanding::Deleted => ChatStep::Restore,
            ChatStanding::Unknown => ChatStep::Create,
        },
{
    match standing {
        ChatStanding::Known => ChatStep::Keep,
        ChatStanding::Deleted => ChatStep::Restore,
        ChatStanding::Unknown => ChatStep::Create,
    }
}

/// The state of a chat: what the bot expects its next message to be.
#[derive(Clone, Copy, Debug, PartialEq, Eq, Structural)]
pub enum TelegramChatState {
    Default,
    AddValidator,
}

/// What a message comes to once its chat is taken care of.
#[derive(Debug)]
pub enum MessageStep {
    /// The chat is a group that was just made: send the introduction.
    SendIntroduction,
    /// The state of the chat is put back to the default, and the command is run.
    RunCommand(Command),
    /// The text is the address that was asked for: the state of the chat is put
    /// back to the default, and the validator is added.
    AddValidator(String),
    /// The text was to be an address and is none: ask again.
    SendInvalidAddress(String),
    /// The message makes no sense: say so.
    SendBadRequest,
    /// The message makes no sense in a chat of several, where it may not be
    /// meant for the bot: say nothing.
    Ignore,
}

/// Whether `step` is what a message comes to: the introduction for a group that
/// was just made; for a text, the command that it is, or, where the chat waits
/// for an address, the address that it is or the word that it is none; and for
/// anything else the word that the request is bad, which a text in a chat of
/// several is spared.
pub open spec fn message_step_of(
    group_chat_created: Option<bool>,
    text: Option<Seq<char>>,
    state: Option<TelegramChatState>,
    is_private: bool,
    is_address: bool,
    step: MessageStep,
) -> bool {
    if group_chat_created == Some(true) {
        step is SendIntroduction
    } else {
        match text {
            None => step is SendBadRequest,
            Some(words) => match command_of(words) {
                Some((name, arguments)) => step matches MessageStep::RunCommand(command)
                    && command.name@ == name && texts_of(command.arguments@) == arguments,
                None => if state == Some(TelegramChatState::AddValidator) {
                    if is_address {
                        step matches MessageStep::AddValidator(address) && address@ == trim(words)
                    } else {
                        step matches MessageStep::SendInvalidAddress(address) && address@ == trim(
                            words,
                        )
                    }
                } else if is_private {
                    step is SendBadRequest
                } else {
                    step is Ignore
                },
            },
        }
    }
}

/// Decides what a message comes to. Whether the text is an address is for the
/// caller to find out, since it takes the chain's way of writing addresses.
pub fn process_message(
    group_chat_created: Option<bool>,
    text: Option<&str>,
    state: Option<TelegramChatState>,
    is_private: bool,
    is_address: bool,
) -> (step: MessageStep)
    ensures
        message_step_of(
            group_chat_created,
            match text {
                Some(words) => Some(words@),
                None => None,
            },
            state,
            is_private,
            is_address,
            step,
        ),
{
    match group_chat_created {
        Some(true) => {
            return MessageStep::SendIntroduction;
        },
        _ => {},
    }
    let words = match text {
        Some(words) => words,
        None => {
            return MessageStep::SendBadRequest;
        },
    };
    match parse_command(words) {
        Some(command) => MessageStep::RunCommand(command),
        None => match state {
            Some(TelegramChatState::AddValidator) => {
                let address = String::from_str(trim_str(words));
                if is_address {
                    MessageStep::AddValidator(address)
                } else {
                    MessageStep::SendInvalidAddress(address)
                }
            },
            _ => if is_private {
                MessageStep::SendBadRequest
            } else {
                MessageStep::Ignore
            },
        },
    }
}

/// What the bot sends, or does, at the end of a query.
#[derive(Clone, Copy, Debug, PartialEq, Eq, Structural)]
pub enum QueryOutcome {
    /// Nothing at all.
    Nothing,
    /// The broadcast goes to every chat.
    Broadcast,
    SendValidatorInfo,
    SendNominationSummary,
    SendNominationDetails,
    SendValidatorNotFound,
    SendValidatorRemoved,
    SendGenericError,
}

/// What a query comes to, given what the stores hold: whether the chat has the
/// validator that the parameter names, whether the details of that validator
/// are published, and, for a removal, whether the store has removed it.
pub open spec fn query_outcome(
    query_type: QueryType,
    has_parameter: bool,
    validator_found: bool,
    details_found: bool,
    removed: bool,
) -> QueryOutcome {
    match query_type {
        QueryType::ConfirmBroadcast => QueryOutcome::Broadcast,
        QueryType::Cancel => QueryOutcome::Nothing,
        _ => if !has_parameter {
            QueryOutcome::Nothing
        } else if !validator_found {
            QueryOutcome::SendValidatorNotFound
        } else {
            match query_type {
                QueryType::ValidatorInfo => QueryOutcome::SendValidatorInfo,
                QueryType::NominationSummary => if details_found {
                    QueryOutcome::SendNominationSummary
                } else {
                    QueryOutcome::SendValidatorNotFound
                },
                QueryType::NominationDetails => if details_found {
                    QueryOutcome::SendNominationDetails
                } else {
                    QueryOutcome::SendValidatorNotFound
                },
                _ => if removed {
                    QueryOutcome::SendValidatorRemoved
                } else {
                    QueryOutcome::SendGenericError
                },
            }
        },
    }
}

/// Decides what a query comes to.
pub fn process_query(query: &Query, validator_found: bool, details_found: bool, removed: bool) -> (outcome:
    QueryOutcome)
    ensures
        outcome == query_outcome(
            query.query_type,
            query.parameter is Some,
            validator_found,
            details_found,
            removed,
        ),
{
    match query.query_type {
        QueryType::ConfirmBroadcast => QueryOutcome::Broadcast,
        QueryType::Cancel => QueryOutcome::Nothing,
        QueryType::ValidatorInfo => if query.parameter.is_none() {
            QueryOutcome::Nothing
        } else if !validator_found {
            QueryOutcome::SendValidatorNotFound
        } else {
            QueryOutcome::SendValidatorInfo
        },
        QueryType::NominationSummary => if query.parameter.is_none() {
            QueryOutcome::Nothing
        } else if validator_found && details_found {
            QueryOutcome::SendNominationSummary
        } else {
            QueryOutcome::SendValidatorNotFound
        },
        QueryType::NominationDetails => if query.parameter.is_none() {
            QueryOutcome::Nothing
        } else if validator_found && details_found {
            QueryOutcome::SendNominationDetails
        } else {
            QueryOutcome::SendValidatorNotFound
        },
        QueryType::RemoveValidator => if query.parameter.is_none() {
            QueryOutcome::Nothing
        } else if !validator_found {
            QueryOutcome::SendValidatorNotFound
        } else if removed {
            QueryOutcome::SendValidatorRemoved
        } else {
            QueryOutcome::SendGenericError
        },
    }
}

/// What the command that removes a validator comes to.
#[derive(Debug)]
pub enum RemoveValidatorStep {
    /// The validator that the argument names is in the chat: run the query that
    /// removes it.
    RunQuery(Query),
    /// Show the validators of the chat to choose from.
    ShowValidators,
}

/// Decides what the command that removes a validator comes to, given the
/// identifier of the validator of the chat that the first argument names, if
/// there is an argument and it names one.
pub fn process_remove_validator_command(chat_validator_id: Option<u64>) -> (step: RemoveValidatorStep)
    ensures
        match chat_validator_id {
            Some(id) => step matches RemoveValidatorStep::RunQuery(query) && query.query_type
                == QueryType::RemoveValidator && (query.parameter matches Some(parameter)
                && parameter@ == decimal_text(id as nat)),
            None => step is ShowValidators,
        },
{
    match chat_validator_id {
        Some(id) => {
            let mut parameter = String::new();
            append_decimal(&mut parameter, id as u128);
            assert(parameter@ =~= decimal_text(id as nat));
            RemoveValidatorStep::RunQuery(
                Query { query_type: QueryType::RemoveValidator, parameter: Some(parameter) },
            )
        },
        None => RemoveValidatorStep::ShowValidators,
    }
}

} // verus!

verus! {

/// A rule that every new chat starts with: what it watches, how often it tells,
/// and the number of its period.
#[derive(Clone, Copy, Debug, PartialEq, Eq, Structural)]
pub struct DefaultRule {
    pub notification_type: NotificationTypeCode,
    pub period_type: NotificationPeriodType,
    pub period: u16,
}

/// The period type of the rule that a new chat gets for a notification type:
/// the authorship of blocks is told by the hour; cancelled, delegated, proposed
/// and undelegated in democracy are switched off; everything else is told at once.
pub open spec fn default_period_type(notification_type: NotificationTypeCode) -> NotificationPeriodType {
    match notification_type {
        NotificationTypeCode::ChainValidatorBlockAuthorship => NotificationPeriodType::Hour,
        NotificationTypeCode::DemocracyCancelled => NotificationPeriodType::Off,
        NotificationTypeCode::DemocracyDelegated => NotificationPeriodType::Off,
        NotificationTypeCode::DemocracyProposed => NotificationPeriodType::Off,
        NotificationTypeCode::DemocracyUndelegated => NotificationPeriodType::Off,
        _ => NotificationPeriodType::Immediate,
    }
}

/// The rule that a new chat gets for a notification type.
pub open spec fn default_rule(notification_type: NotificationTypeCode) -> DefaultRule {
    DefaultRule {
        notification_type,
        period_type: default_period_type(notification_type),
        period: if notification_type is ChainValidatorBlockAuthorship {
            1
        } else {
            0
        },
    }
}

/// The notification types that a new chat gets rules for, in their order.
pub open spec fn default_rule_types() -> Seq<NotificationTypeCode> {
    seq![
        NotificationTypeCode::ChainValidateExtrinsic,
        NotificationTypeCode::ChainValidatorActive,
        NotificationTypeCode::ChainValidatorActiveNextSession,
        NotificationTypeCode::ChainValidatorBlockAuthorship,
        NotificationTypeCode::ChainValidatorChilled,
        NotificationTypeCode::ChainValidatorIdentityChanged,
        NotificationTypeCode::ChainValidatorInactive,
        NotificationTypeCode::ChainValidatorInactiveNextSession,
        NotificationTypeCode::ChainValidatorLostNomination,
        NotificationTypeCode::ChainValidatorNewNomination,
        NotificationTypeCode::ChainValidatorOfflineOffence,
        NotificationTypeCode::ChainValidatorPayoutStakers,
        NotificationTypeCode::ChainValidatorSessionKeysChanged,
        NotificationTypeCode::ChainValidatorSetController,
        NotificationTypeCode::ChainValidatorUnclaimedPayout,
        NotificationTypeCode::OneKVValidatorBinaryVersionChange,
        NotificationTypeCode::OneKVValidatorLocationChange,
        NotificationTypeCode::OneKVValidatorRankChange,
        NotificationTypeCode::OneKVValidatorValidityChange,
        NotificationTypeCode::DemocracyCancelled,
        NotificationTypeCode::DemocracyDelegated,
        NotificationTypeCode::DemocracyNotPassed,
        NotificationTypeCode::DemocracyPassed,
        NotificationTypeCode::DemocracyProposed,
        NotificationTypeCode::DemocracySeconded,
        NotificationTypeCode::DemocracyStarted,
        NotificationTypeCode::DemocracyUndelegated,
        NotificationTypeCode::DemocracyVoted,
    ]
}

/// The period type and the period of the rule for a notification type.
fn rule_for(notification_type: NotificationTypeCode) -> (rule: DefaultRule)
    ensures
        rule == default_rule(notification_type),
{
    match notification_type {
        NotificationTypeCode::ChainValidatorBlockAuthorship => DefaultRule {
            notification_type,
            period_type: NotificationPeriodType::Hour,
            period: 1,
        },
        NotificationTypeCode::DemocracyCancelled => DefaultRule {
            notification_type,
            period_type: NotificationPeriodType::Off,
            period: 0,
        },
        NotificationTypeCode::DemocracyDelegated => DefaultRule {
            notification_type,
            period_type: NotificationPeriodType::Off,
            period: 0,
        },
        NotificationTypeCode::DemocracyProposed => DefaultRule {
            notification_type,
            period_type: NotificationPeriodType::Off,
            period: 0,
        },
        NotificationTypeCode::DemocracyUndelegated => DefaultRule {
            notification_type,
            period_type: NotificationPeriodType::Off,
            period: 0,
        },
        _ => DefaultRule { notification_type, period_type: NotificationPeriodType::Immediate, period: 0 },
    }
}

/// The rules that every new chat starts with.
pub fn default_rules() -> (rules: Vec<DefaultRule>)
    ensures
        rules@.len() == default_rule_types().len(),
        forall|i: int|
            0 <= i < rules@.len() ==> #[trigger] rules@[i] == default_rule(default_rule_types()[i]),
{
    let mut rules: Vec<DefaultRule> = Vec::new();
    rules.push(rule_for(NotificationTypeCode::ChainValidateExtrinsic));
    rules.push(rule_for(NotificationTypeCode::ChainValidatorActive));
    rules.push(rule_for(NotificationTypeCode::ChainValidatorActiveNextSession));
    rules.push(rule_for(NotificationTypeCode::ChainValidatorBlockAuthorship));
    rules.push(rule_for(NotificationTypeCode::ChainValidatorChilled));
    rules.push(rule_for(NotificationTypeCode::ChainValidatorIdentityChanged));
    rules.push(rule_for(NotificationTypeCode::ChainValidatorInactive));
    rules.push(rule_for(NotificationTypeCode::ChainValidatorInactiveNextSession));
    rules.push(rule_for(NotificationTypeCode::ChainValidatorLostNomination));
    rules.push(rule_for(NotificationTypeCode::ChainValidatorNewNomination));
    rules.push(rule_for(NotificationTypeCode::ChainValidatorOfflineOffence));
    rules.push(rule_for(NotificationTypeCode::ChainValidatorPayoutStakers));
    rules.push(rule_for(NotificationTypeCode::ChainValidatorSessionKeysChanged));
    rules.push(rule_for(NotificationTypeCode::ChainValidatorSetController));
    rules.push(rule_for(NotificationTypeCode::ChainValidatorUnclaimedPayout));
    rules.push(rule_for(NotificationTypeCode::OneKVValidatorBinaryVersionChange));
    rules.push(rule_for(NotificationTypeCode::OneKVValidatorLocationChange));
    rules.push(rule_for(NotificationTypeCode::OneKVValidatorRankChange));
    rules.push(rule_for(NotificationTypeCode::OneKVValidatorValidityChange));
    rules.push(rule_for(NotificationTypeCode::DemocracyCancelled));
    rules.push(rule_for(NotificationTypeCode::DemocracyDelegated));
    rules.push(rule_for(NotificationTypeCode::DemocracyNotPassed));
    rules.push(rule_for(NotificationTypeCode::DemocracyPassed));
    rules.push(rule_for(NotificationTypeCode::DemocracyProposed));
    rules.push(rule_for(NotificationTypeCode::DemocracySeconded));
    rules.push(rule_for(NotificationTypeCode::DemocracyStarted));
    rules.push(rule_for(NotificationTypeCode::DemocracyUndelegated));
    rules.push(rule_for(NotificationTypeCode::DemocracyVoted));
    rules
}

/// The kinds of message that the bot sends.
#[derive(Clone, Copy, Debug, PartialEq, Eq, Structural)]
pub enum MessageType {
    Intro,
    Done,
    BadRequest,
    GenericError,
    Broadcast,
    BroadcastConfirm,
    UnknownCommand,
    InvalidAddress,
    InvalidAddressTryAgain,
    ValidatorNotFound,
    AddValidatorNotFound,
    ValidatorExistsOnChat,
    TooManyValidatorsOnChat,
    NoValidatorsOnChat,
    ValidatorAdded,
    AddValidator,
    ValidatorList,
    ValidatorInfo,
    NominationSummary,
    NominationDetails,
    ValidatorRemoved,
    Settings,
    NetworkStatus,
}

impl MessageType {
    /// The name of the template that a message of this kind is written with.
    pub open spec fn template(self) -> Seq<char> {
        match self {
            MessageType::Intro => "introduction.html"@,
            MessageType::Done => "ok.html"@,
            MessageType::BadRequest => "bad_request.html"@,
            MessageType::GenericError => "generic_error.html"@,
            MessageType::Broadcast => "broadcast.html"@,
            MessageType::BroadcastConfirm => "broadcast_confirm.html"@,
            MessageType::UnknownCommand => "unknown_command.html"@,
            MessageType::InvalidAddress => "invalid_address.html"@,
            MessageType::InvalidAddressTryAgain => "invalid_address_try_again.html"@,
            MessageType::ValidatorNotFound => "validator_not_found.html"@,
            MessageType::AddValidatorNotFound => "add_validator_not_found.html"@,
            MessageType::ValidatorExistsOnChat => "validator_exists_on_chat.html"@,
            MessageType::TooManyValidatorsOnChat => "too_many_validators_on_chat.html"@,
            MessageType::NoValidatorsOnChat => "no_validators_on_chat.html"@,
            MessageType::ValidatorAdded => "validator_added.html"@,
            MessageType::AddValidator => "add_validator.html"@,
            MessageType::ValidatorList => "select_validator.html"@,
            MessageType::ValidatorInfo => "validator_info.html"@,
            MessageType::NominationSummary => "nomination_summary.html"@,
            MessageType::NominationDetails => "nomination_details.html"@,
            MessageType::ValidatorRemoved => "validator_removed.html"@,
            MessageType::Settings => "settings_prompt.html"@,
            MessageType::NetworkStatus => "network_status.html"@,
        }
    }

    /// The name of the template that a message of this kind is written with.
    pub fn get_template_name(self) -> (name: &'static str)
        ensures
            name@ == self.template(),
    {
        match self {
            MessageType::Intro => "introduction.html",
            MessageType::Done => "ok.html",
            MessageType::BadRequest => "bad_request.html",
            MessageType::GenericError => "generic_error.html",
            MessageType::Broadcast => "broadcast.html",
            MessageType::BroadcastConfirm => "broadcast_confirm.html",
            MessageType::UnknownCommand => "unknown_command.html",
            MessageType::InvalidAddress => "invalid_address.html",
            MessageType::InvalidAddressTryAgain => "invalid_address_try_again.html",
            MessageType::ValidatorNotFound => "validator_not_found.html",
            MessageType::AddValidatorNotFound => "add_validator_not_found.html",
            MessageType::ValidatorExistsOnChat => "validator_exists_on_chat.html",
            MessageType::TooManyValidatorsOnChat => "too_many_validators_on_chat.html",
            MessageType::NoValidatorsOnChat => "no_validators_on_chat.html",
            MessageType::ValidatorAdded => "validator_added.html",
            MessageType::AddValidator => "add_validator.html",
            MessageType::ValidatorList => "select_validator.html",
            MessageType::ValidatorInfo => "validator_info.html",
            MessageType::NominationSummary => "nomination_summary.html",
            MessageType::NominationDetails => "nomination_details.html",
            MessageType::ValidatorRemoved => "validator_removed.html",
            MessageType::Settings => "settings_prompt.html",
            MessageType::NetworkStatus => "network_status.html",
        }
    }
}

/// One entry of what the validator programme finds of a validator.
#[derive(Debug)]
pub struct ValidityItem {
    pub details: String,
    pub is_valid: bool,
}

/// The details of the entries among the first `upto` that are not valid.
pub open spec fn reasons_among(items: Seq<ValidityItem>, upto: int) -> Seq<Seq<char>>
    decreases upto,
{
    if upto <= 0 || upto > items.len() {
        Seq::empty()
    } else if !items[upto - 1].is_valid {
        reasons_among(items, upto - 1).push(items[upto - 1].details@)
    } else {
        reasons_among(items, upto - 1)
    }
}

/// Why a validator is not valid: the details of the entries that are not.
pub fn invalidity_reasons(items: &Vec<ValidityItem>) -> (reasons: Vec<String>)
    ensures
        texts_of(reasons@) == reasons_among(items@, items@.len() as int),
{
    let mut reasons: Vec<String> = Vec::new();
    let mut i: usize = 0;
    assert(texts_of(reasons@) =~= reasons_among(items@, 0));
    while i < items.len()
        invariant
            i <= items@.len(),
            texts_of(reasons@) == reasons_among(items@, i as int),
        decreases items@.len() - i,
    {
        let ghost before = texts_of(reasons@);
        if !items[i].is_valid {
            reasons.push(items[i].details.clone());
            assert(texts_of(reasons@) =~= before.push(items@[i as int].details@));
        }
        i += 1;
    }
    reasons
}

/// The short name of a month of the year, counted from 0.
pub open spec fn month_name(month0: int) -> Seq<char> {
    if month0 == 0 {
        "Jan"@
    } else if month0 == 1 {
        "Feb"@
    } else if month0 == 2 {
        "Mar"@
    } else if month0 == 3 {
        "Apr"@
    } else if month0 == 4 {
        "May"@
    } else if month0 == 5 {
        "Jun"@
    } else if month0 == 6 {
        "Jul"@
    } else if month0 == 7 {
        "Aug"@
    } else if month0 == 8 {
        "Sep"@
    } else if month0 == 9 {
        "Oct"@
    } else if month0 == 10 {
        "Nov"@
    } else {
        "Dec"@
    }
}

/// The label of a month on the reward chart: its short name, a blank, and the
/// year within its century.
pub fn month_label(month_index: u32) -> (label: String)
    ensures
        label@ == month_name((month_index % 12) as int) + seq![' '] + decimal_text(
            ((month_index / 12) % 100) as nat,
        ),
{
    let month0 = month_index % 12;
    let name = if month0 == 0 {
        "Jan"
    } else if month0 == 1 {
        "Feb"
    } else if month0 == 2 {
        "Mar"
    } else if month0 == 3 {
        "Apr"
    } else if month0 == 4 {
        "May"
    } else if month0 == 5 {
        "Jun"
    } else if month0 == 6 {
        "Jul"
    } else if month0 == 7 {
        "Aug"
    } else if month0 == 8 {
        "Sep"
    } else if month0 == 9 {
        "Oct"
    } else if month0 == 10 {
        "Nov"
    } else {
        "Dec"
    };
    proof {
        reveal_strlit(" ");
        assert(" "@ =~= seq![' ']);
    }
    let mut label = String::from_str(name);
    label.append(" ");
    append_decimal(&mut label, ((month_index / 12) % 100) as u128);
    label
}

} // verus!
