//! The JSON text form of a document: a pretty-printed tagged object, two
//! spaces per level, the discriminant first, one line per entry, byte arrays
//! as numeric sequences. The renderer is exact: each function's contract
//! gives the full character sequence it emits.

use vstd::prelude::*;

use crate::any::{AnyQueryDocument, AnyTransactionDocModel, AnyTransactionDocument};
use crate::codec::{dec_encode, dec_str, hex_char};
use crate::contract_execute::{ContractExecuteDocModel, ContractExecuteDocument};
use crate::entity::{entity_str, AccountAddress, ContractId, ScheduleId};
use crate::fees::{CustomFee, Fee};
use crate::key::{key_text, Key, KeyModel};
use crate::schedule_info::ScheduleInfoDocument;
use crate::token_create::{TokenCreateDocModel, TokenCreateDocument};
use crate::token_types::{supply_type_text, token_type_text, TokenSupplyType, TokenType};

verus! {

// ---------------------------------------------------------------------------
// Strings and numbers
// ---------------------------------------------------------------------------

/// Whether a character passes into a JSON string unchanged.
pub open spec fn is_plain(c: char) -> bool {
    c as u32 != 34 && c as u32 != 92 && (c as u32) >= 32
}

/// The JSON escape of one character.
pub open spec fn escape_char(c: char) -> Seq<char> {
    if c as u32 == 34 {
        "\\\""@
    } else if c as u32 == 92 {
        "\\\\"@
    } else if c as u32 == 8 {
        "\\b"@
    } else if c as u32 == 9 {
        "\\t"@
    } else if c as u32 == 10 {
        "\\n"@
    } else if c as u32 == 12 {
        "\\f"@
    } else if c as u32 == 13 {
        "\\r"@
    } else if (c as u32) < 32 {
        "\\u00"@ + seq![hex_char(((c as u32) as int) / 16), hex_char(((c as u32) as int) % 16)]
    } else {
        seq![c]
    }
}

/// The JSON escape of a string's characters, in order.
pub open spec fn escape_str(s: Seq<char>) -> Seq<char>
    decreases s.len(),
{
    if s.len() == 0 {
        Seq::empty()
    } else {
        escape_str(s.drop_last()) + escape_char(s.last())
    }
}

/// A JSON string: quoted, escaped.
pub open spec fn json_quoted(s: Seq<char>) -> Seq<char> {
    "\""@ + escape_str(s) + "\""@
}

/// One escaping step: a prefix one character longer.
proof fn lemma_escape_take_succ(s: Seq<char>, j: int)
    requires
        0 <= j < s.len(),
    ensures
        escape_str(s.take(j + 1)) == escape_str(s.take(j)) + escape_char(s[j]),
{
    assert(s.take(j + 1).drop_last() =~= s.take(j));
    assert(s.take(j + 1).last() == s[j]);
}

/// A run of plain characters escapes to itself.
proof fn lemma_escape_plain_run(s: Seq<char>, a: int, b: int)
    requires
        0 <= a <= b <= s.len(),
        forall|k: int| a <= k < b ==> is_plain(s[k]),
    ensures
        escape_str(s.take(b)) == escape_str(s.take(a)) + s.subrange(a, b),
    decreases b - a,
{
    if a == b {
        assert(escape_str(s.take(a)) + s.subrange(a, b) =~= escape_str(s.take(a)));
    } else {
        lemma_escape_plain_run(s, a, b - 1);
        lemma_escape_take_succ(s, b - 1);
        assert(escape_char(s[b - 1]) =~= seq![s[b - 1]]);
        assert(escape_str(s.take(a)) + s.subrange(a, b - 1) + seq![s[b - 1]] =~= escape_str(
            s.take(a),
        ) + s.subrange(a, b));
    }
}

/// Renders a JSON string: quoted, with every character escaped as the
/// format requires.
pub fn json_quoted_text(s: &str) -> (r: String)
    ensures
        r@ == json_quoted(s@),
{
    let mut out = String::from_str("\"");
    let n = s.unicode_len();
    let mut start: usize = 0;
    let mut j: usize = 0;
    while j < n
        invariant
            n == s@.len(),
            0 <= start <= j <= n,
            out@ == "\""@ + escape_str(s@.take(start as int)),
            forall|k: int| start <= k < j ==> is_plain(s@[k]),
        decreases n - j,
    {
        let c = s.get_char(j);
        let v = c as u32;
        if v == 34 || v == 92 || v < 32 {
            let run = s.substring_char(start, j);
            out.append(run);
            proof {
                lemma_escape_plain_run(s@, start as int, j as int);
                assert(out@ =~= "\""@ + escape_str(s@.take(j as int)));
            }
            if v == 34 {
                out.append("\\\"");
            } else if v == 92 {
                out.append("\\\\");
            } else if v == 8 {
                out.append("\\b");
            } else if v == 9 {
                out.append("\\t");
            } else if v == 10 {
                out.append("\\n");
            } else if v == 12 {
                out.append("\\f");
            } else if v == 13 {
                out.append("\\r");
            } else {
                out.append("\\u00");
                out.append(crate::codec::hex_digit_str((v / 16) as u8));
                out.append(crate::codec::hex_digit_str((v % 16) as u8));
            }
            proof {
                lemma_escape_take_succ(s@, j as int);
                assert(out@ =~= "\""@ + escape_str(s@.take(j + 1)));
            }
            start = j + 1;
            j = j + 1;
        } else {
            j = j + 1;
        }
    }
    let run = s.substring_char(start, n);
    out.append(run);
    out.append("\"");
    proof {
        lemma_escape_plain_run(s@, start as int, n as int);
        assert(s@.take(n as int) =~= s@);
        assert(out@ =~= json_quoted(s@));
    }
    out
}

/// The decimal numeral of a signed value.
pub open spec fn sint_str(n: int) -> Seq<char> {
    if n < 0 {
        "-"@ + dec_str((-n) as nat)
    } else {
        dec_str(n as nat)
    }
}

/// Renders a signed 64-bit value as its decimal numeral.
pub fn i64_text(n: i64) -> (r: String)
    ensures
        r@ == sint_str(n as int),
{
    if n >= 0 {
        let r = dec_encode(n as u64);
        proof {
            assert((n as u64) as nat == (n as int) as nat);
        }
        r
    } else {
        let m: u64 = ((-(n + 1)) as u64) + 1;
        let mut out = String::from_str("-");
        let digits = dec_encode(m);
        out.append(digits.as_str());
        proof {
            assert(m as nat == (-(n as int)) as nat);
        }
        out
    }
}

// ---------------------------------------------------------------------------
// Fields
// ---------------------------------------------------------------------------

/// What opens every entry after the discriminant: the separator, the next
/// line's indent, and the quoted entry name.
pub open spec fn field_prefix(name: Seq<char>) -> Seq<char> {
    ",\n  \""@ + name + "\": "@
}

/// Renders an entry opening.
pub fn field_prefix_text(name: &str) -> (r: String)
    ensures
        r@ == field_prefix(name@),
{
    let mut out = String::from_str(",\n  \"");
    out.append(name);
    out.append("\": ");
    out
}

/// An optional unsigned entry; absent values are omitted entirely.
pub open spec fn opt_u64_field(name: Seq<char>, v: Option<u64>) -> Seq<char> {
    match v {
        Some(x) => field_prefix(name) + dec_str(x as nat),
        None => Seq::empty(),
    }
}

/// Renders an optional unsigned entry.
pub fn opt_u64_field_text(name: &str, v: Option<u64>) -> (r: String)
    ensures
        r@ == opt_u64_field(name@, v),
{
    match v {
        Some(x) => {
            let mut out = field_prefix_text(name);
            let digits = dec_encode(x);
            out.append(digits.as_str());
            out
        },
        None => String::new(),
    }
}

/// An optional 32-bit unsigned entry.
pub open spec fn opt_u32_field(name: Seq<char>, v: Option<u32>) -> Seq<char> {
    match v {
        Some(x) => field_prefix(name) + dec_str(x as nat),
        None => Seq::empty(),
    }
}

/// Renders an optional 32-bit unsigned entry.
pub fn opt_u32_field_text(name: &str, v: Option<u32>) -> (r: String)
    ensures
        r@ == opt_u32_field(name@, v),
{
    match v {
        Some(x) => {
            let mut out = field_prefix_text(name);
            let digits = dec_encode(x as u64);
            out.append(digits.as_str());
            proof {
                assert((x as u64) as nat == x as nat);
            }
            out
        },
        None => String::new(),
    }
}

/// An optional signed entry.
pub open spec fn opt_i64_field(name: Seq<char>, v: Option<i64>) -> Seq<char> {
    match v {
        Some(x) => field_prefix(name) + sint_str(x as int),
        None => Seq::empty(),
    }
}

/// Renders an optional signed entry.
pub fn opt_i64_field_text(name: &str, v: Option<i64>) -> (r: String)
    ensures
        r@ == opt_i64_field(name@, v),
{
    match v {
        Some(x) => {
            let mut out = field_prefix_text(name);
            let digits = i64_text(x);
            out.append(digits.as_str());
            out
        },
        None => String::new(),
    }
}

/// An optional boolean entry.
pub open spec fn opt_bool_field(name: Seq<char>, v: Option<bool>) -> Seq<char> {
    match v {
        Some(x) => field_prefix(name) + (if x {
            "true"@
        } else {
            "false"@
        }),
        None => Seq::empty(),
    }
}

/// Renders an optional boolean entry.
pub fn opt_bool_field_text(name: &str, v: Option<bool>) -> (r: String)
    ensures
        r@ == opt_bool_field(name@, v),
{
    match v {
        Some(x) => {
            let mut out = field_prefix_text(name);
            if x {
                out.append("true");
            } else {
                out.append("false");
            }
            out
        },
        None => String::new(),
    }
}

/// An optional string entry.
pub open spec fn opt_str_field(name: Seq<char>, v: Option<Seq<char>>) -> Seq<char> {
    match v {
        Some(s) => field_prefix(name) + json_quoted(s),
        None => Seq::empty(),
    }
}

/// Renders an optional string entry.
pub fn opt_str_field_text(name: &str, v: &Option<String>) -> (r: String)
    ensures
        r@ == opt_str_field(
            name@,
            match v {
                Some(s) => Some(s@),
                None => None,
            },
        ),
{
    match v {
        Some(s) => {
            let mut out = field_prefix_text(name);
            let quoted = json_quoted_text(s.as_str());
            out.append(quoted.as_str());
            out
        },
        None => String::new(),
    }
}

/// An optional account-address entry, written as its textual reference.
pub open spec fn opt_address_field(name: Seq<char>, v: Option<AccountAddress>) -> Seq<char> {
    match v {
        Some(AccountAddress::AccountId(id)) => field_prefix(name) + "\""@ + entity_str(
            id.shard,
            id.realm,
            id.num,
        ) + "\""@,
        None => Seq::empty(),
    }
}

/// Renders an optional account-address entry.
pub fn opt_address_field_text(name: &str, v: &Option<AccountAddress>) -> (r: String)
    ensures
        r@ == opt_address_field(name@, *v),
{
    match v {
        Some(a) => {
            let mut out = field_prefix_text(name);
            out.append("\"");
            let text = a.to_text();
            out.append(text.as_str());
            out.append("\"");
            proof {
                assert(out@ =~= opt_address_field(name@, *v));
            }
            out
        },
        None => String::new(),
    }
}

/// An optional contract-reference entry, written as its textual reference.
pub open spec fn opt_contract_field(name: Seq<char>, v: Option<ContractId>) -> Seq<char> {
    match v {
        Some(id) => field_prefix(name) + "\""@ + entity_str(id.shard, id.realm, id.num) + "\""@,
        None => Seq::empty(),
    }
}

/// Renders an optional contract-reference entry.
pub fn opt_contract_field_text(name: &str, v: Option<ContractId>) -> (r: String)
    ensures
        r@ == opt_contract_field(name@, v),
{
    match v {
        Some(id) => {
            let mut out = field_prefix_text(name);
            out.append("\"");
            let text = id.to_text();
            out.append(text.as_str());
            out.append("\"");
            proof {
                assert(out@ =~= opt_contract_field(name@, v));
            }
            out
        },
        None => String::new(),
    }
}

/// An optional schedule-reference entry, written as its textual reference.
pub open spec fn opt_schedule_field(name: Seq<char>, v: Option<ScheduleId>) -> Seq<char> {
    match v {
        Some(id) => field_prefix(name) + "\""@ + entity_str(id.shard, id.realm, id.num) + "\""@,
        None => Seq::empty(),
    }
}

/// Renders an optional schedule-reference entry.
pub fn opt_schedule_field_text(name: &str, v: Option<ScheduleId>) -> (r: String)
    ensures
        r@ == opt_schedule_field(name@, v),
{
    match v {
        Some(id) => {
            let mut out = field_prefix_text(name);
            out.append("\"");
            let text = id.to_text();
            out.append(text.as_str());
            out.append("\"");
            proof {
                assert(out@ =~= opt_schedule_field(name@, v));
            }
            out
        },
        None => String::new(),
    }
}

/// An optional token-type entry, written as its document name.
pub open spec fn opt_token_type_field(name: Seq<char>, v: Option<TokenType>) -> Seq<char> {
    match v {
        Some(t) => field_prefix(name) + "\""@ + token_type_text(t) + "\""@,
        None => Seq::empty(),
    }
}

/// Renders an optional token-type entry.
pub fn opt_token_type_field_text(name: &str, v: Option<TokenType>) -> (r: String)
    ensures
        r@ == opt_token_type_field(name@, v),
{
    match v {
        Some(t) => {
            let mut out = field_prefix_text(name);
            out.append("\"");
            out.append(t.to_text());
            out.append("\"");
            proof {
                assert(out@ =~= opt_token_type_field(name@, v));
            }
            out
        },
        None => String::new(),
    }
}

/// An optional supply-type entry, written as its document name.
pub open spec fn opt_supply_type_field(name: Seq<char>, v: Option<TokenSupplyType>) -> Seq<char> {
    match v {
        Some(t) => field_prefix(name) + "\""@ + supply_type_text(t) + "\""@,
        None => Seq::empty(),
    }
}

/// Renders an optional supply-type entry.
pub fn opt_supply_type_field_text(name: &str, v: Option<TokenSupplyType>) -> (r: String)
    ensures
        r@ == opt_supply_type_field(name@, v),
{
    match v {
        Some(t) => {
            let mut out = field_prefix_text(name);
            out.append("\"");
            out.append(t.to_text());
            out.append("\"");
            proof {
                assert(out@ =~= opt_supply_type_field(name@, v));
            }
            out
        },
        None => String::new(),
    }
}

// ---------------------------------------------------------------------------
// Byte arrays
// ---------------------------------------------------------------------------

/// The lines of a numeric byte sequence, one element per line, separated by
/// commas.
pub open spec fn byte_items(b: Seq<u8>) -> Seq<char>
    decreases b.len(),
{
    if b.len() == 0 {
        Seq::empty()
    } else if b.len() == 1 {
        "\n    "@ + dec_str(b[0] as nat)
    } else {
        byte_items(b.drop_last()) + ",\n    "@ + dec_str(b.last() as nat)
    }
}

/// A numeric byte sequence: empty brackets, or one element per line.
pub open spec fn byte_array_json(b: Seq<u8>) -> Seq<char> {
    if b.len() == 0 {
        "[]"@
    } else {
        "["@ + byte_items(b) + "\n  ]"@
    }
}

/// An optional byte-array entry.
pub open spec fn opt_bytes_field(name: Seq<char>, v: Option<Seq<u8>>) -> Seq<char> {
    match v {
        Some(b) => field_prefix(name) + byte_array_json(b),
        None => Seq::empty(),
    }
}

/// Renders the lines of a numeric byte sequence.
fn byte_items_text(b: &Vec<u8>) -> (r: String)
    ensures
        r@ == byte_items(b@),
{
    let mut out = String::new();
    let mut i: usize = 0;
    while i < b.len()
        invariant
            0 <= i <= b@.len(),
            out@ == byte_items(b@.take(i as int)),
        decreases b@.len() - i,
    {
        if i == 0 {
            out.append("\n    ");
        } else {
            out.append(",\n    ");
        }
        let digits = dec_encode(b[i] as u64);
        out.append(digits.as_str());
        proof {
            let t = b@.take(i + 1);
            assert(t.drop_last() =~= b@.take(i as int));
            assert(t.last() == b@[i as int]);
            assert(out@ =~= byte_items(b@.take(i + 1)));
        }
        i += 1;
    }
    proof {
        assert(b@.take(b@.len() as int) =~= b@);
    }
    out
}

/// Renders an optional byte-array entry.
pub fn opt_bytes_field_text(name: &str, v: &Option<Vec<u8>>) -> (r: String)
    ensures
        r@ == opt_bytes_field(
            name@,
            match v {
                Some(b) => Some(b@),
                None => None,
            },
        ),
{
    match v {
        Some(b) => {
            let mut out = field_prefix_text(name);
            if b.len() == 0 {
                out.append("[]");
            } else {
                out.append("[");
                let items = byte_items_text(b);
                out.append(items.as_str());
                out.append("\n  ]");
                proof {
                    assert(out@ =~= field_prefix(name@) + byte_array_json(b@));
                }
            }
            out
        },
        None => String::new(),
    }
}

// ---------------------------------------------------------------------------
// Keys
// ---------------------------------------------------------------------------

/// The lines of a threshold structure's key list, one quoted key per line.
pub open spec fn key_items(ks: Seq<Seq<u8>>) -> Seq<char>
    decreases ks.len(),
{
    if ks.len() == 0 {
        Seq::empty()
    } else if ks.len() == 1 {
        "\n        \""@ + key_text(ks[0]) + "\""@
    } else {
        key_items(ks.drop_last()) + ",\n        \""@ + key_text(ks.last()) + "\""@
    }
}

/// A threshold structure's key list: empty brackets, or one key per line.
pub open spec fn key_list_json(ks: Seq<Seq<u8>>) -> Seq<char> {
    if ks.len() == 0 {
        "[]"@
    } else {
        "["@ + key_items(ks) + "\n      ]"@
    }
}

/// The object form of a key reference: a single key's hexadecimal under
/// `single`, or a threshold structure under `threshold`.
pub open spec fn key_json(k: KeyModel) -> Seq<char> {
    match k {
        KeyModel::Single(b) => "{\n    \"single\": \""@ + key_text(b) + "\"\n  }"@,
        KeyModel::Threshold(t, ks) => "{\n    \"threshold\": {\n      \"threshold\": "@ + dec_str(
            t as nat,
        ) + ",\n      \"keys\": "@ + key_list_json(ks) + "\n    }\n  }"@,
    }
}

/// An optional key entry.
pub open spec fn opt_key_field(name: Seq<char>, v: Option<KeyModel>) -> Seq<char> {
    match v {
        Some(k) => field_prefix(name) + key_json(k),
        None => Seq::empty(),
    }
}

/// Renders the object form of a key reference.
fn key_json_text(k: &Key) -> (r: String)
    ensures
        r@ == key_json(k@),
{
    match k {
        Key::Single(pk) => {
            let mut out = String::from_str("{\n    \"single\": \"");
            let text = pk.to_text();
            out.append(text.as_str());
            out.append("\"\n  }");
            out
        },
        Key::Threshold(t) => {
            let ghost ks = Seq::new(t.keys@.len(), |i: int| t.keys@[i].bytes@);
            let mut out = String::from_str("{\n    \"threshold\": {\n      \"threshold\": ");
            let digits = dec_encode(t.threshold as u64);
            out.append(digits.as_str());
            out.append(",\n      \"keys\": ");
            proof {
                assert((t.threshold as u64) as nat == t.threshold as nat);
            }
            if t.keys.len() == 0 {
                out.append("[]");
            } else {
                out.append("[");
                let mut i: usize = 0;
                let mut items = String::new();
                while i < t.keys.len()
                    invariant
                        ks == Seq::new(t.keys@.len(), |i: int| t.keys@[i].bytes@),
                        0 <= i <= t.keys@.len(),
                        items@ == key_items(ks.take(i as int)),
                    decreases t.keys@.len() - i,
                {
                    if i == 0 {
                        items.append("\n        \"");
                    } else {
                        items.append(",\n        \"");
                    }
                    let text = t.keys[i].to_text();
                    items.append(text.as_str());
                    items.append("\"");
                    proof {
                        let u = ks.take(i + 1);
                        assert(u.drop_last() =~= ks.take(i as int));
                        assert(u.last() == ks[i as int]);
                        assert(items@ =~= key_items(ks.take(i + 1)));
                    }
                    i += 1;
                }
                proof {
                    assert(ks.take(ks.len() as int) =~= ks);
                }
                out.append(items.as_str());
                out.append("\n      ]");
            }
            out.append("\n    }\n  }");
            proof {
                assert(out@ =~= key_json(k@));
            }
            out
        },
    }
}

/// Renders an optional key entry.
pub fn opt_key_field_text(name: &str, v: &Option<Key>) -> (r: String)
    ensures
        r@ == opt_key_field(name@, crate::key::opt_key_model(*v)),
{
    match v {
        Some(k) => {
            let mut out = field_prefix_text(name);
            let object = key_json_text(k);
            out.append(object.as_str());
            out
        },
        None => String::new(),
    }
}

// ---------------------------------------------------------------------------
// Fee schedules
// ---------------------------------------------------------------------------

/// The object form of one custom fee.
pub open spec fn fee_item(f: CustomFee) -> Seq<char> {
    match f.fee {
        Fee::FixedFee(ff) => "\n    {\n      \"fee\": {\n        \"FixedFee\": {\n          \"amount\": "@
            + sint_str(ff.amount as int)
            + ",\n          \"denominating_token_id\": \""@
            + entity_str(
                ff.denominating_token_id.shard,
                ff.denominating_token_id.realm,
                ff.denominating_token_id.num,
            )
            + "\"\n        }\n      },\n      \"fee_collector_account_id\": \""@
            + entity_str(
                f.fee_collector_account_id.shard,
                f.fee_collector_account_id.realm,
                f.fee_collector_account_id.num,
            )
            + "\"\n    }"@,
    }
}

/// The lines of a fee schedule, one object per element, in input order.
pub open spec fn fee_items(fs: Seq<CustomFee>) -> Seq<char>
    decreases fs.len(),
{
    if fs.len() == 0 {
        Seq::empty()
    } else if fs.len() == 1 {
        fee_item(fs[0])
    } else {
        fee_items(fs.drop_last()) + ","@ + fee_item(fs.last())
    }
}

/// A fee schedule: empty brackets, or one object per element.
pub open spec fn fee_list_json(fs: Seq<CustomFee>) -> Seq<char> {
    if fs.len() == 0 {
        "[]"@
    } else {
        "["@ + fee_items(fs) + "\n  ]"@
    }
}

/// An optional fee-schedule entry.
pub open spec fn opt_fees_field(name: Seq<char>, v: Option<Seq<CustomFee>>) -> Seq<char> {
    match v {
        Some(fs) => field_prefix(name) + fee_list_json(fs),
        None => Seq::empty(),
    }
}

/// Renders the object form of one custom fee.
fn fee_item_text(f: &CustomFee) -> (r: String)
    ensures
        r@ == fee_item(*f),
{
    match &f.fee {
        Fee::FixedFee(ff) => {
            let mut out = String::from_str(
                "\n    {\n      \"fee\": {\n        \"FixedFee\": {\n          \"amount\": ",
            );
            let amount = i64_text(ff.amount);
            out.append(amount.as_str());
            out.append(",\n          \"denominating_token_id\": \"");
            let token = ff.denominating_token_id.to_text();
            out.append(token.as_str());
            out.append("\"\n        }\n      },\n      \"fee_collector_account_id\": \"");
            let collector = crate::entity::render_entity(
                f.fee_collector_account_id.shard,
                f.fee_collector_account_id.realm,
                f.fee_collector_account_id.num,
            );
            out.append(collector.as_str());
            out.append("\"\n    }");
            proof {
                assert(out@ =~= fee_item(*f));
            }
            out
        },
    }
}

/// Renders an optional fee-schedule entry.
pub fn opt_fees_field_text(name: &str, v: &Option<Vec<CustomFee>>) -> (r: String)
    ensures
        r@ == opt_fees_field(
            name@,
            match v {
                Some(fs) => Some(fs@),
                None => None,
            },
        ),
{
    match v {
        Some(fs) => {
            let mut out = field_prefix_text(name);
            if fs.len() == 0 {
                out.append("[]");
            } else {
                out.append("[");
                let mut items = String::new();
                let mut i: usize = 0;
                while i < fs.len()
                    invariant
                        0 <= i <= fs@.len(),
                        items@ == fee_items(fs@.take(i as int)),
                    decreases fs@.len() - i,
                {
                    if i > 0 {
                        items.append(",");
                    }
                    let item = fee_item_text(&fs[i]);
                    items.append(item.as_str());
                    proof {
                        let t = fs@.take(i + 1);
                        assert(t.drop_last() =~= fs@.take(i as int));
                        assert(t.last() == fs@[i as int]);
                        assert(items@ =~= fee_items(fs@.take(i + 1)));
                    }
                    i += 1;
                }
                proof {
                    assert(fs@.take(fs@.len() as int) =~= fs@);
                }
                out.append(items.as_str());
                out.append("\n  ]");
                proof {
                    assert(out@ =~= field_prefix(name@) + fee_list_json(fs@));
                }
            }
            out
        },
        None => String::new(),
    }
}

// ---------------------------------------------------------------------------
// Whole documents
// ---------------------------------------------------------------------------

/// The JSON text of a contract-call document.
pub open spec fn render_contract_execute_json(d: ContractExecuteDocModel) -> Seq<char> {
    "{\n  \"$type\": \"contractExecute\""@ + opt_contract_field("contractId"@, d.contract_id)
        + opt_u64_field("gas"@, d.gas) + opt_i64_field("payableAmount"@, d.payable_amount)
        + opt_bytes_field("functionParameters"@, d.function_parameters) + "\n}"@
}

impl ContractExecuteDocument {
    /// Renders the document as pretty JSON text.
    pub fn to_json(&self) -> (r: String)
        ensures
            r@ == render_contract_execute_json(self@),
    {
        let mut out = String::from_str("{\n  \"$type\": \"contractExecute\"");
        let piece = opt_contract_field_text("contractId", self.contract_id);
        out.append(piece.as_str());
        let piece = opt_u64_field_text("gas", self.gas);
        out.append(piece.as_str());
        let piece = opt_i64_field_text("payableAmount", self.payable_amount);
        out.append(piece.as_str());
        let piece = opt_bytes_field_text("functionParameters", &self.function_parameters);
        out.append(piece.as_str());
        out.append("\n}");
        out
    }
}

/// The JSON text of a token-creation document.
pub open spec fn render_token_create_json(d: TokenCreateDocModel) -> Seq<char> {
    "{\n  \"$type\": \"tokenCreate\""@ + opt_str_field("name"@, d.name) + opt_str_field(
        "symbol"@,
        d.symbol,
    ) + opt_u32_field("decimals"@, d.decimals) + opt_u64_field("initialSupply"@, d.initial_supply)
        + opt_address_field("treasuryAccountId"@, d.treasury_account_id) + opt_key_field(
        "adminKey"@,
        d.admin_key,
    ) + opt_key_field("kycKey"@, d.kyc_key) + opt_key_field("freezeKey"@, d.freeze_key)
        + opt_key_field("wipeKey"@, d.wipe_key) + opt_key_field("supplyKey"@, d.supply_key)
        + opt_bool_field("freezeDefault"@, d.freeze_default) + opt_i64_field(
        "expiresAt"@,
        d.expires_at,
    ) + opt_address_field("autoRenewAccountId"@, d.auto_renew_account_id) + opt_i64_field(
        "autoRenewPeriod"@,
        d.auto_renew_period,
    ) + opt_str_field("tokenMemo"@, d.token_memo) + opt_token_type_field(
        "tokenType"@,
        d.token_type,
    ) + opt_supply_type_field("tokenSupplyType"@, d.token_supply_type) + opt_u64_field(
        "maxSupply"@,
        d.max_supply,
    ) + opt_key_field("feeScheduleKey"@, d.fee_schedule_key) + opt_fees_field(
        "customFees"@,
        d.custom_fees,
    ) + opt_key_field("pauseKey"@, d.pause_key) + "\n}"@
}

impl TokenCreateDocument {
    /// Renders the document as pretty JSON text.
    pub fn to_json(&self) -> (r: String)
        ensures
            r@ == render_token_create_json(self@),
    {
        let mut out = String::from_str("{\n  \"$type\": \"tokenCreate\"");
        let piece = opt_str_field_text("name", &self.name);
        out.append(piece.as_str());
        let piece = opt_str_field_text("symbol", &self.symbol);
        out.append(piece.as_str());
        let piece = opt_u32_field_text("decimals", self.decimals);
        out.append(piece.as_str());
        let piece = opt_u64_field_text("initialSupply", self.initial_supply);
        out.append(piece.as_str());
        let piece = opt_address_field_text("treasuryAccountId", &self.treasury_account_id);
        out.append(piece.as_str());
        let piece = opt_key_field_text("adminKey", &self.admin_key);
        out.append(piece.as_str());
        let piece = opt_key_field_text("kycKey", &self.kyc_key);
        out.append(piece.as_str());
        let piece = opt_key_field_text("freezeKey", &self.freeze_key);
        out.append(piece.as_str());
        let piece = opt_key_field_text("wipeKey", &self.wipe_key);
        out.append(piece.as_str());
        let piece = opt_key_field_text("supplyKey", &self.supply_key);
        out.append(piece.as_str());
        let piece = opt_bool_field_text("freezeDefault", self.freeze_default);
        out.append(piece.as_str());
        let piece = opt_i64_field_text("expiresAt", self.expires_at);
        out.append(piece.as_str());
        let piece = opt_address_field_text("autoRenewAccountId", &self.auto_renew_account_id);
        out.append(piece.as_str());
        let piece = opt_i64_field_text("autoRenewPeriod", self.auto_renew_period);
        out.append(piece.as_str());
        let piece = opt_str_field_text("tokenMemo", &self.token_memo);
        out.append(piece.as_str());
        let piece = opt_token_type_field_text("tokenType", self.token_type);
        out.append(piece.as_str());
        let piece = opt_supply_type_field_text("tokenSupplyType", self.token_supply_type);
        out.append(piece.as_str());
        let piece = opt_u64_field_text("maxSupply", self.max_supply);
        out.append(piece.as_str());
        let piece = opt_key_field_text("feeScheduleKey", &self.fee_schedule_key);
        out.append(piece.as_str());
        let piece = opt_fees_field_text("customFees", &self.custom_fees);
        out.append(piece.as_str());
        let piece = opt_key_field_text("pauseKey", &self.pause_key);
        out.append(piece.as_str());
        out.append("\n}");
        out
    }
}

/// The JSON text of a schedule-information document.
pub open spec fn render_schedule_info_json(d: ScheduleInfoDocument) -> Seq<char> {
    "{\n  \"$type\": \"scheduleInfo\""@ + opt_schedule_field("scheduleId"@, d.schedule_id) + "\n}"@
}

impl ScheduleInfoDocument {
    /// Renders the document as pretty JSON text.
    pub fn to_json(&self) -> (r: String)
        ensures
            r@ == render_schedule_info_json(*self),
    {
        let mut out = String::from_str("{\n  \"$type\": \"scheduleInfo\"");
        let piece = opt_schedule_field_text("scheduleId", self.schedule_id);
        out.append(piece.as_str());
        out.append("\n}");
        out
    }
}

/// The JSON text of any transaction document: the variant's text under its
/// own discriminant.
pub open spec fn render_any_transaction_json(d: AnyTransactionDocModel) -> Seq<char> {
    match d {
        AnyTransactionDocModel::ContractExecute(v) => render_contract_execute_json(v),
        AnyTransactionDocModel::TokenCreate(v) => render_token_create_json(v),
    }
}

impl AnyTransactionDocument {
    /// Renders the document as pretty JSON text.
    pub fn to_json(&self) -> (r: String)
        ensures
            r@ == render_any_transaction_json(self@),
    {
        match self {
            AnyTransactionDocument::ContractExecute(d) => d.to_json(),
            AnyTransactionDocument::TokenCreate(d) => d.to_json(),
        }
    }
}

impl AnyQueryDocument {
    /// Renders the document as pretty JSON text.
    pub fn to_json(&self) -> (r: String)
        ensures
            r@ == match self {
                AnyQueryDocument::ScheduleInfo(d) => render_schedule_info_json(*d),
            },
    {
        match self {
            AnyQueryDocument::ScheduleInfo(d) => d.to_json(),
        }
    }
}

} // verus!
