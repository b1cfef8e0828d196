//! Queries that the chat bot's inline keyboards send back.
use vstd::prelude::*;
use vstd::string::*;

verus! {

/// Failure of the chat bot.
#[derive(Clone, Debug)]
pub enum TelegramBotError {
    Error(String),
}

impl TelegramBotError {
    /// The message of the failure.
    pub fn to_string(&self) -> (text: String)
        ensures
            text@ == self->Error_0@,
    {
        match self {
            TelegramBotError::Error(message) => message.clone(),
        }
    }
}

/// What a query asks for.
#[derive(Clone, Copy, Debug, PartialEq, Eq, Structural)]
pub enum QueryType {
    ValidatorInfo,
    NominationSummary,
    NominationDetails,
    RemoveValidator,
    ConfirmBroadcast,
    Cancel,
}

impl QueryType {
    /// The name of the query type.
    pub open spec fn name(self) -> Seq<char> {
        match self {
            QueryType::ValidatorInfo => "ValidatorInfo"@,
            QueryType::NominationSummary => "NominationSummary"@,
            QueryType::NominationDetails => "NominationDetails"@,
            QueryType::RemoveValidator => "RemoveValidator"@,
            QueryType::ConfirmBroadcast => "ConfirmBroadcast"@,
            QueryType::Cancel => "Cancel"@,
        }
    }

    /// The short code that stands for the query type on the wire.
    pub open spec fn code(self) -> Seq<char> {
        match self {
            QueryType::ValidatorInfo => "VI"@,
            QueryType::NominationSummary => "NS"@,
            QueryType::NominationDetails => "ND"@,
            QueryType::RemoveValidator => "RV"@,
            QueryType::ConfirmBroadcast => "CB"@,
            QueryType::Cancel => "X"@,
        }
    }

    /// The name of the query type.
    pub fn to_string(&self) -> (text: String)
        ensures
            text@ == self.name(),
    {
        let name = match self {
            QueryType::ValidatorInfo => "ValidatorInfo",
            QueryType::NominationSummary => "NominationSummary",
            QueryType::NominationDetails => "NominationDetails",
            QueryType::RemoveValidator => "RemoveValidator",
            QueryType::ConfirmBroadcast => "ConfirmBroadcast",
            QueryType::Cancel => "Cancel",
        };
        String::from_str(name)
    }

    /// The short code that stands for the query type on the wire.
    pub fn wire_code(&self) -> (text: &'static str)
        ensures
            text@ == self.code(),
    {
        match self {
            QueryType::ValidatorInfo => "VI",
            QueryType::NominationSummary => "NS",
            QueryType::NominationDetails => "ND",
            QueryType::RemoveValidator => "RV",
            QueryType::ConfirmBroadcast => "CB",
            QueryType::Cancel => "X",
        }
    }

    /// Whether a query of this type does nothing without a parameter.
    pub open spec fn spec_needs_parameter(self) -> bool {
        !(self is ConfirmBroadcast || self is Cancel)
    }

    /// Whether a query of this type does nothing without a parameter.
    #[verifier::when_used_as_spec(spec_needs_parameter)]
    pub fn needs_parameter(self) -> (needed: bool)
        ensures
            needed == self.spec_needs_parameter(),
    {
        match self {
            QueryType::ConfirmBroadcast => false,
            QueryType::Cancel => false,
            _ => true,
        }
    }
}

/// A query with its parameter.
#[derive(Clone, Debug)]
pub struct Query {
    pub query_type: QueryType,
    pub parameter: Option<String>,
}

impl Query {
    /// The query that cancels whatever was being asked.
    pub fn get_cancel_query() -> (query: Query)
        ensures
            query.query_type == QueryType::Cancel,
            query.parameter is None,
    {
        Query { query_type: QueryType::Cancel, parameter: None }
    }
}

} // verus!
