//! Client-side protocol adapter for a remote chat-model service.
//!
//! The library assembles typed conversations into the request envelope the
//! model endpoint expects, and interprets the model's free-text reply,
//! recognising an embedded `LOOKUP(...)` command that asks for an account
//! balance.  Everything here is a pure transformation; the remote calls
//! themselves are performed by the surrounding application.

mod codec;
mod gateway;
mod hex;
mod interpreter;
mod numeral;

pub use codec::chat_request;
pub use codec::lookup_agent_request;
pub use codec::model_name;
pub use codec::prompt_request;
pub use codec::role_tag;
pub use codec::system_instruction;
pub use codec::system_instruction_text;
pub use codec::ChatMessage;
pub use codec::Model;
pub use codec::Request;
pub use codec::Role;
pub use codec::WireMessage;
pub use codec::WireRequest;
pub use gateway::ledger_canister_id;
pub use gateway::ledger_canister_text;
pub use gateway::llm_canister_id;
pub use gateway::llm_canister_text;
pub use gateway::text_is_principal;
pub use hex::all_hex;
pub use hex::hex_decode;
pub use hex::hex_digit_char;
pub use hex::hex_digit_value;
pub use hex::hex_render;
pub use hex::is_hex_digit;
pub use hex::lemma_decode_of_render;
pub use hex::lemma_render_of_decode;
pub use hex::lower_hex_char;
pub use hex::AccountId;
pub use interpreter::balance_reply;
pub use interpreter::balance_text;
pub use interpreter::has_valid_account;
pub use interpreter::interpret_step;
pub use interpreter::is_lookup_reply;
pub use interpreter::lemma_balance_text_shape;
pub use interpreter::lookup_candidate;
pub use interpreter::Outcome;
pub use numeral::dec_digit_char;
pub use numeral::dec_render;
pub use numeral::lemma_dec_render_nonempty;
pub use numeral::u64_to_decimal;
