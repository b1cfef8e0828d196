use subvt::era::Era;
use subvt::notification::{NotificationPeriodType, NotificationTypeCode};
use subvt::query::{Query, QueryType, TelegramBotError};
use subvt::rewards::{
    get_monthly_rewards, month_index, month_of, monthly_rewards, reward_months, PlotterError,
};
use subvt::decimal::{decimal_string, parse_u32};
use subvt::telegram::{
    chat_step, command_from_pieces, default_rules, invalidity_reasons, month_label,
    parse_command, process_message, process_query, process_remove_validator_command,
    ChatStanding, ChatStep, MessageStep, MessageType, QueryOutcome, RemoveValidatorStep,
    TelegramChatState, ValidityItem,
};
use subvt::text::{char_is_space, trim_str};

fn era_starting(millis: u64) -> Era {
    Era { index: 1, start_timestamp: millis, end_timestamp: millis + 1 }
}

#[test]
fn cancel_query_has_no_parameter() {
    let query = Query::get_cancel_query();
    assert_eq!(query.query_type, QueryType::Cancel);
    assert_eq!(query.parameter, None);
    assert_eq!(QueryType::Cancel.to_string(), "Cancel");
    assert_eq!(QueryType::NominationSummary.to_string(), "NominationSummary");
    assert_eq!(QueryType::Cancel.wire_code(), "X");
    assert_eq!(QueryType::ValidatorInfo.wire_code(), "VI");
    assert_eq!(QueryType::ConfirmBroadcast.wire_code(), "CB");
    assert!(QueryType::RemoveValidator.needs_parameter());
    assert!(!QueryType::ConfirmBroadcast.needs_parameter());
    assert_eq!(TelegramBotError::Error("no".to_string()).to_string(), "no");
}

#[test]
fn reads_commands() {
    let command = parse_command("  /add  1abc-DEF_2 \t second  ").unwrap();
    assert_eq!(command.name, "/add");
    assert_eq!(command.arguments, vec!["1abc-DEF_2", "second"]);
    let bare = parse_command("/help").unwrap();
    assert_eq!(bare.name, "/help");
    assert!(bare.arguments.is_empty());
    let odd = parse_command("/remove ok not!ok fine").unwrap();
    assert_eq!(odd.name, "/remove");
    assert_eq!(odd.arguments, vec!["ok", "fine"]);
    assert!(parse_command("help").is_none());
    assert!(parse_command("").is_none());
    assert!(parse_command("/").is_none());
    assert!(parse_command("hello /add").is_none());
    assert!(command_from_pieces(&vec![]).is_none());
    let pieces = vec!["/x".to_string(), "a b".to_string(), "c".to_string()];
    assert_eq!(command_from_pieces(&pieces).unwrap().arguments, vec!["c"]);
}

#[test]
fn messages_come_to_steps() {
    assert_eq!(chat_step(ChatStanding::Known), ChatStep::Keep);
    assert_eq!(chat_step(ChatStanding::Deleted), ChatStep::Restore);
    assert_eq!(chat_step(ChatStanding::Unknown), ChatStep::Create);
    assert!(matches!(
        process_message(Some(true), Some("/help"), None, true, false),
        MessageStep::SendIntroduction
    ));
    assert!(matches!(
        process_message(Some(false), Some(" /help "), None, true, false),
        MessageStep::RunCommand(command) if command.name == "/help"
    ));
    assert!(matches!(
        process_message(None, None, None, false, false),
        MessageStep::SendBadRequest
    ));
    assert!(matches!(
        process_message(None, Some(" Hxyz "), Some(TelegramChatState::AddValidator), false, true),
        MessageStep::AddValidator(address) if address == "Hxyz"
    ));
    assert!(matches!(
        process_message(None, Some("nope"), Some(TelegramChatState::AddValidator), true, false),
        MessageStep::SendInvalidAddress(address) if address == "nope"
    ));
    assert!(matches!(
        process_message(None, Some("hello"), Some(TelegramChatState::Default), true, true),
        MessageStep::SendBadRequest
    ));
    assert!(matches!(
        process_message(None, Some("hello"), None, false, false),
        MessageStep::Ignore
    ));
}

#[test]
fn queries_come_to_outcomes() {
    let query = |query_type, parameter: Option<&str>| Query {
        query_type,
        parameter: parameter.map(String::from),
    };
    assert_eq!(
        process_query(&query(QueryType::ConfirmBroadcast, None), false, false, false),
        QueryOutcome::Broadcast
    );
    assert_eq!(
        process_query(&query(QueryType::Cancel, Some("1")), true, true, true),
        QueryOutcome::Nothing
    );
    assert_eq!(
        process_query(&query(QueryType::ValidatorInfo, None), true, true, true),
        QueryOutcome::Nothing
    );
    assert_eq!(
        process_query(&query(QueryType::ValidatorInfo, Some("1")), true, false, false),
        QueryOutcome::SendValidatorInfo
    );
    assert_eq!(
        process_query(&query(QueryType::ValidatorInfo, Some("1")), false, true, false),
        QueryOutcome::SendValidatorNotFound
    );
    assert_eq!(
        process_query(&query(QueryType::NominationSummary, Some("1")), true, true, false),
        QueryOutcome::SendNominationSummary
    );
    assert_eq!(
        process_query(&query(QueryType::NominationSummary, Some("1")), true, false, false),
        QueryOutcome::SendValidatorNotFound
    );
    assert_eq!(
        process_query(&query(QueryType::NominationDetails, Some("1")), true, true, false),
        QueryOutcome::SendNominationDetails
    );
    assert_eq!(
        process_query(&query(QueryType::RemoveValidator, Some("1")), true, false, true),
        QueryOutcome::SendValidatorRemoved
    );
    assert_eq!(
        process_query(&query(QueryType::RemoveValidator, Some("1")), true, false, false),
        QueryOutcome::SendGenericError
    );
    assert_eq!(
        process_query(&query(QueryType::RemoveValidator, Some("1")), false, false, true),
        QueryOutcome::SendValidatorNotFound
    );
    assert!(matches!(
        process_remove_validator_command(Some(42)),
        RemoveValidatorStep::RunQuery(Query { query_type: QueryType::RemoveValidator, parameter: Some(id) }) if id == "42"
    ));
    assert!(matches!(
        process_remove_validator_command(None),
        RemoveValidatorStep::ShowValidators
    ));
}

#[test]
fn new_chats_start_with_the_default_rules() {
    let rules = default_rules();
    assert_eq!(rules.len(), 28);
    assert_eq!(rules[0].notification_type, NotificationTypeCode::ChainValidateExtrinsic);
    assert_eq!(rules[0].period_type, NotificationPeriodType::Immediate);
    assert_eq!(rules[0].period, 0);
    assert_eq!(rules[3].notification_type, NotificationTypeCode::ChainValidatorBlockAuthorship);
    assert_eq!(rules[3].period_type, NotificationPeriodType::Hour);
    assert_eq!(rules[3].period, 1);
    assert_eq!(rules[27].notification_type, NotificationTypeCode::DemocracyVoted);
    let off: Vec<NotificationTypeCode> = rules
        .iter()
        .filter(|rule| rule.period_type == NotificationPeriodType::Off)
        .map(|rule| rule.notification_type)
        .collect();
    assert_eq!(
        off,
        vec![
            NotificationTypeCode::DemocracyCancelled,
            NotificationTypeCode::DemocracyDelegated,
            NotificationTypeCode::DemocracyProposed,
            NotificationTypeCode::DemocracyUndelegated,
        ]
    );
    assert_eq!(
        rules.iter().filter(|rule| rule.period_type == NotificationPeriodType::Immediate).count(),
        23
    );
}

#[test]
fn templates_and_reasons() {
    assert_eq!(MessageType::Intro.get_template_name(), "introduction.html");
    assert_eq!(MessageType::ValidatorList.get_template_name(), "select_validator.html");
    assert_eq!(MessageType::Settings.get_template_name(), "settings_prompt.html");
    assert_eq!(MessageType::Done.get_template_name(), "ok.html");
    let items = vec![
        ValidityItem { details: "fine".to_string(), is_valid: true },
        ValidityItem { details: "offline".to_string(), is_valid: false },
        ValidityItem { details: "old client".to_string(), is_valid: false },
    ];
    assert_eq!(invalidity_reasons(&items), vec!["offline", "old client"]);
    assert!(invalidity_reasons(&vec![]).is_empty());
}

#[test]
fn months_are_counted_from_the_year_0() {
    assert_eq!(month_index(1970, 0), Some(23_640));
    assert_eq!(month_index(2021, 5), Some(24_257));
    assert_eq!(month_index(0, 0), Some(0));
    assert_eq!(month_index(-1, 0), None);
    assert_eq!(month_index(2021, 12), None);
    assert_eq!(month_index(i32::MAX, 11), Some(25_769_803_775u64 as u32).filter(|_| false));
    assert_eq!(month_of(0), Some(23_640));
    assert_eq!(month_of(1_623_715_200_000), Some(24_257));
    assert_eq!(month_of(1_625_097_599_999), Some(24_257));
    assert_eq!(month_of(1_625_097_600_000), Some(24_258));
    assert_eq!(month_of(u64::MAX), None);
    assert_eq!(month_of(i64::MAX as u64), None);
    assert_eq!(month_label(24_257), "Jun 21");
    assert_eq!(month_label(23_640), "Jan 70");
    assert_eq!(month_label(24_000 + 11), "Dec 0");
}

#[test]
fn rewards_are_summed_by_month_and_gaps_are_filled() {
    let by_month = monthly_rewards(&vec![(10, 5), (13, 1), (10, 7), (12, 2)]).unwrap();
    assert_eq!(by_month.len(), 4);
    assert_eq!(by_month.get(&10), Some(&12));
    assert_eq!(by_month.get(&11), Some(&0));
    assert_eq!(by_month.get(&12), Some(&2));
    assert_eq!(by_month.get(&13), Some(&1));
    assert_eq!(by_month.get(&9), None);
    let one = monthly_rewards(&vec![(u32::MAX, 1)]).unwrap();
    assert_eq!(one.len(), 1);
    assert_eq!(one.get(&u32::MAX), Some(&1));
    assert_eq!(monthly_rewards(&vec![]), Err(PlotterError::EmptyData));
    assert_eq!(
        monthly_rewards(&vec![(1, u128::MAX), (2, 5), (1, 1)]),
        Err(PlotterError::Overflow)
    );
}

#[test]
fn rewards_of_eras_fall_in_the_month_their_era_starts_in() {
    let rewards = vec![
        (era_starting(1_623_715_200_000), 10),
        (era_starting(1_623_736_800_000), 5),
        (era_starting(1_630_000_000_000), 1),
    ];
    assert_eq!(
        reward_months(&rewards),
        Some(vec![(24_257, 10), (24_257, 5), (24_259, 1)])
    );
    let by_month = get_monthly_rewards(&rewards).unwrap();
    assert_eq!(by_month.len(), 3);
    assert_eq!(by_month.get(&24_257), Some(&15));
    assert_eq!(by_month.get(&24_258), Some(&0));
    assert_eq!(by_month.get(&24_259), Some(&1));
    assert_eq!(get_monthly_rewards(&vec![]), Err(PlotterError::EmptyData));
    assert_eq!(
        get_monthly_rewards(&vec![(era_starting(u64::MAX - 1), 1)]),
        Err(PlotterError::InvalidDate)
    );
    assert_eq!(reward_months(&vec![(era_starting(u64::MAX - 1), 1)]), None);
}

#[test]
fn decimal_text_goes_both_ways() {
    assert_eq!(decimal_string(0), "0");
    assert_eq!(decimal_string(10), "10");
    assert_eq!(decimal_string(u128::MAX), u128::MAX.to_string());
    assert_eq!(parse_u32("0"), Some(0));
    assert_eq!(parse_u32("007"), Some(7));
    assert_eq!(parse_u32("+12"), Some(12));
    assert_eq!(parse_u32("4294967295"), Some(u32::MAX));
    assert_eq!(parse_u32("4294967296"), None);
    assert_eq!(parse_u32("99999999999999999999999"), None);
    assert_eq!(parse_u32(""), None);
    assert_eq!(parse_u32("+"), None);
    assert_eq!(parse_u32("-1"), None);
    assert_eq!(parse_u32("1 "), None);
    assert_eq!(parse_u32("١"), None);
}

#[test]
fn trimming_takes_white_space_off_both_ends() {
    assert_eq!(trim_str("  a b \t\n"), "a b");
    assert_eq!(trim_str("\u{3000}x\u{a0}"), "x");
    assert_eq!(trim_str("   "), "");
    assert_eq!(trim_str(""), "");
    assert_eq!(trim_str("x"), "x");
    for c in ['\u{9}', ' ', '\u{85}', '\u{1680}', '\u{2000}', '\u{200a}', '\u{2028}', '\u{205f}'] {
        assert!(char_is_space(c));
        assert!(c.is_whitespace());
    }
    for c in ['a', '\u{200b}', '\u{8}', '\u{e}', '0'] {
        assert!(!char_is_space(c));
        assert!(!c.is_whitespace());
    }
}
