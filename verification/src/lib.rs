pub mod account;
pub mod app_event;
pub mod argument;
pub mod argument_meta;
pub mod chain_types;
pub mod chain_values;
pub mod cursor;
pub mod decimal;
pub mod era;
pub mod event;
pub mod event_record;
pub mod extrinsic;
pub mod fingerprint;
pub mod hex_codec;
pub mod identity;
pub mod inspect;
pub mod materializer;
pub mod metadata;
pub mod metadata_convert;
pub mod metadata_read;
pub mod network_status;
pub mod nomination_sort;
pub mod notification;
pub mod nominations;
pub mod network_status_server;
pub mod paging;
pub mod period;
pub mod query;
pub mod reconstruction;
pub mod relational;
pub mod rewards;
pub mod scale;
pub mod services;
pub mod storage;
pub mod store;
pub mod telegram;
pub mod text;
pub mod validator;
pub mod validator_details;
pub mod validator_details_server;
pub mod validator_set;
