//! Interpretation of the model's free-text reply.
//!
//! A reply that has the shape `LOOKUP(...)` — the literal prefix `LOOKUP(`
//! and a closing `)` as the last character — is a command asking for an
//! account balance; anything else is the model's final answer and is passed
//! through verbatim.  The argument between the parentheses is taken as it
//! stands, with no escaping rules: a stray `)` inside it simply makes the
//! candidate longer and is caught by the length check, as the lenient
//! strip-prefix/strip-suffix reading has it.  The balance query itself is a
//! remote call, so interpretation is split in two pure halves: deciding what
//! the reply asks for, and formatting the final text once the queried amount
//! is in hand.
use crate::hex::all_hex;
use crate::hex::hex_decode;
use crate::hex::hex_render;
use crate::hex::AccountId;
use crate::numeral::dec_render;
use crate::numeral::lemma_dec_render_nonempty;
use crate::numeral::u64_to_decimal;
use vstd::prelude::*;

verus! {

/// Whether a reply has the command shape: it begins with the literal
/// `LOOKUP(` and its last character is `)`.
pub open spec fn is_lookup_reply(r: Seq<char>) -> bool {
    r.len() >= 8 && r.subrange(0, 7) == "LOOKUP("@ && r[r.len() - 1] == ')'
}

/// The candidate argument of a command-shaped reply: everything between the
/// prefix and the final `)`.
pub open spec fn lookup_candidate(r: Seq<char>) -> Seq<char>
    recommends
        is_lookup_reply(r),
{
    r.subrange(7, r.len() - 1)
}

/// What an interpreted reply asks the caller to do: answer with a final
/// text, or query the ledger for one account's balance first.
pub enum Outcome {
    Reply(String),
    QueryBalance(AccountId),
}

/// Whether a command-shaped reply carries a valid account: a 64-character
/// strict-hexadecimal candidate.
pub open spec fn has_valid_account(r: Seq<char>) -> bool {
    is_lookup_reply(r) && lookup_candidate(r).len() == 64 && all_hex(lookup_candidate(r))
}

/// Whether a reply has the command shape.
fn has_lookup_shape(s: &str) -> (b: bool)
    ensures
        b == is_lookup_reply(s@),
{
    let n = s.unicode_len();
    if n < 8 {
        return false;
    }
    let c0 = s.get_char(0);
    let c1 = s.get_char(1);
    let c2 = s.get_char(2);
    let c3 = s.get_char(3);
    let c4 = s.get_char(4);
    let c5 = s.get_char(5);
    let c6 = s.get_char(6);
    let last = s.get_char(n - 1);
    let b = c0 == 'L' && c1 == 'O' && c2 == 'O' && c3 == 'K' && c4 == 'U' && c5 == 'P' && c6 == '('
        && last == ')';
    proof {
        reveal_strlit("LOOKUP(");
        assert("LOOKUP("@ =~= seq!['L', 'O', 'O', 'K', 'U', 'P', '(']);
        assert(forall|k: int| 0 <= k < 7 ==> #[trigger] s@.subrange(0, 7)[k] == s@[k]);
        if b {
            assert(s@.subrange(0, 7) =~= "LOOKUP("@);
        } else {
            if is_lookup_reply(s@) {
                assert(s@[0] == 'L' && s@[1] == 'O' && s@[2] == 'O' && s@[3] == 'K' && s@[4] == 'U'
                    && s@[5] == 'P' && s@[6] == '(');
                assert(false);
            }
        }
    }
    b
}

/// Decides what the model's reply asks for.
///
/// A reply without the command shape is the final answer and comes back
/// unchanged.  A command-shaped reply is validated: a candidate of the wrong
/// length or with a non-hexadecimal character yields the fixed error text,
/// and in neither case is a balance query asked for; only a 64-character
/// strict-hexadecimal candidate yields a `QueryBalance` outcome, carrying
/// exactly the bytes the candidate names.
pub fn interpret_step(reply: String) -> (r: Outcome)
    ensures
        !is_lookup_reply(reply@) ==> (r matches Outcome::Reply(t) && t@ == reply@),
        is_lookup_reply(reply@) && lookup_candidate(reply@).len() != 64 ==> (r matches
            Outcome::Reply(t) && t@ == "Account must be 64 characters long"@),
        is_lookup_reply(reply@) && lookup_candidate(reply@).len() == 64 && !all_hex(
            lookup_candidate(reply@),
        ) ==> (r matches Outcome::Reply(t) && t@ == "Invalid account"@),
        has_valid_account(reply@) ==> (r matches Outcome::QueryBalance(a) && a.wf() && a@
            == hex_decode(lookup_candidate(reply@))),
        r is QueryBalance <==> has_valid_account(reply@),
{
    if !has_lookup_shape(reply.as_str()) {
        return Outcome::Reply(reply);
    }
    let n = reply.as_str().unicode_len();
    let candidate = reply.as_str().substring_char(7, n - 1);
    if candidate.unicode_len() != 64 {
        return Outcome::Reply(String::from_str("Account must be 64 characters long"));
    }
    match AccountId::from_hex(candidate) {
        Some(account) => Outcome::QueryBalance(account),
        None => Outcome::Reply(String::from_str("Invalid account")),
    }
}

/// The final text of a successful lookup: the canonical rendering of the
/// account, then the amount in decimal, with the fixed unit suffix.
pub open spec fn balance_text(account: Seq<u8>, amount: nat) -> Seq<char> {
    "Balance of "@ + hex_render(account) + " is "@ + dec_render(amount) + " ICP"@
}

/// Formats the reply to a completed balance query.
pub fn balance_reply(account: &AccountId, amount: u64) -> (r: String)
    requires
        account.wf(),
    ensures
        r@ == balance_text(account@, amount as nat),
{
    let mut out = String::from_str("Balance of ");
    let rendered = account.to_hex();
    out.append(rendered.as_str());
    out.append(" is ");
    let dec = u64_to_decimal(amount);
    out.append(dec.as_str());
    out.append(" ICP");
    proof {
        assert(out@ =~= balance_text(account@, amount as nat));
    }
    out
}

/// The reply to a completed lookup always begins with `Balance of ` and
/// ends with ` ICP`, whatever the account and the amount.
pub proof fn lemma_balance_text_shape(account: Seq<u8>, amount: nat)
    ensures
        balance_text(account, amount).len() >= 16,
        balance_text(account, amount).subrange(0, 11) == "Balance of "@,
        balance_text(account, amount).subrange(
            balance_text(account, amount).len() - 4,
            balance_text(account, amount).len() as int,
        ) == " ICP"@,
{
    reveal_strlit("Balance of ");
    reveal_strlit(" is ");
    reveal_strlit(" ICP");
    lemma_dec_render_nonempty(amount);
    let t = balance_text(account, amount);
    assert(t.subrange(0, 11) =~= "Balance of "@);
    assert(t.subrange(t.len() - 4, t.len() as int) =~= " ICP"@);
}

} // verus!
