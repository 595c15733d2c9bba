//! Recognising newly created tokens from the Pump program's transaction
//! logs, and the checks a sniper applies before buying.

use vstd::prelude::*;
use vstd::string::{StrSliceExecFns, StringSliceAdditionalSpecFns};
use vstd::utf8::encode_utf8;
use crate::constants::{
    ASSOCIATED_TOKEN_PROGRAM_ID, EVENT_AUTHORITY, FEE_RECIPIENT, MAYHEM_PROGRAM_ID,
    PUMP_FEES_PROGRAM_ID, PUMP_GLOBAL, PUMP_PROGRAM_ID, RENT_SYSVAR_ID, SPL_TOKEN_PROGRAM_ID,
    SYSTEM_PROGRAM_ID, TOKEN_2022_PROGRAM_ID,
};
use crate::outside::{associated_token_program_id, spl_token_program_id};
use crate::pubkey::{Pubkey, zero_key};
use crate::text::chars_of;
use crate::bonding_curve::{BondingCurve, CurveError};
use crate::trade::{BuyPlan, buy_plan_fits, buy_plan_fits_check, plan_buy, planned_buy};

verus! {

/// Whether a character has the Unicode `White_Space` property, beyond the
/// space, the line feed and the no-break space (which have it).
pub uninterp spec fn unicode_white_space(c: char) -> bool;

/// Whether a character is whitespace (`char::is_whitespace`): the space,
/// the line feed and the no-break space are, as `char::is_whitespace`'s
/// documentation shows; the rest of the `White_Space` property is named.
pub open spec fn white_space(c: char) -> bool {
    c == ' ' || c == '\n' || c == '\u{a0}' || unicode_white_space(c)
}

/// Whether a character is Unicode alphabetic or numeric.
pub uninterp spec fn unicode_alphanumeric(c: char) -> bool;

/// The address a base58 string stands for, when it is one.
pub uninterp spec fn parsed_pubkey(text: Seq<char>) -> Option<Seq<u8>>;

/// `char::is_whitespace`: true of the `White_Space` property, which holds
/// of the space, the line feed and the no-break space (the documentation's
/// examples).
#[verifier::external_body]
fn char_is_whitespace(c: char) -> (r: bool)
    ensures
        r == (c == ' ' || c == '\n' || c == '\u{a0}' || unicode_white_space(c)),
{
    c.is_whitespace()
}

/// `char::is_alphanumeric`.
#[verifier::external_body]
fn char_is_alphanumeric(c: char) -> (r: bool)
    ensures
        r == unicode_alphanumeric(c),
{
    c.is_alphanumeric()
}

/// `<solana_sdk::pubkey::Pubkey as FromStr>::from_str` (solana-pubkey): the
/// base58 address; strings longer than 44 bytes are refused outright.
#[verifier::external_body]
fn parse_pubkey(text: &str) -> (r: Option<Pubkey>)
    ensures
        r is Some <==> parsed_pubkey(text@) is Some,
        r matches Some(k) ==> parsed_pubkey(text@) == Some(k@),
        encode_utf8(text@).len() > 44 ==> r is None,
{
    match <solana_sdk::pubkey::Pubkey as std::str::FromStr>::from_str(text) {
        Ok(k) => Some(Pubkey(k.to_bytes())),
        Err(_) => None,
    }
}

/// The words of `s` (maximal runs of non-whitespace characters, as
/// `str::split_whitespace` yields them), given that the characters in
/// `pending` precede `s` within the current word.
pub open spec fn words_after(s: Seq<char>, pending: Seq<char>) -> Seq<Seq<char>>
    decreases s.len(),
{
    if s.len() == 0 {
        if pending.len() > 0 {
            seq![pending]
        } else {
            Seq::empty()
        }
    } else if white_space(s[0]) {
        (if pending.len() > 0 {
            seq![pending]
        } else {
            Seq::empty()
        }) + words_after(s.drop_first(), Seq::empty())
    } else {
        words_after(s.drop_first(), pending.push(s[0]))
    }
}

/// The whitespace-separated words of `s`, in order.
pub open spec fn words(s: Seq<char>) -> Seq<Seq<char>> {
    words_after(s, Seq::empty())
}

proof fn lemma_words_through_run(a: Seq<char>, rest: Seq<char>, pending: Seq<char>)
    requires
        forall|i: int| 0 <= i < a.len() ==> !white_space(#[trigger] a[i]),
    ensures
        words_after(a + rest, pending) == words_after(rest, pending + a),
    decreases a.len(),
{
    if a.len() == 0 {
        assert(a + rest =~= rest);
        assert(pending + a =~= pending);
    } else {
        let t = a.drop_first();
        assert((a + rest)[0] == a[0]);
        assert((a + rest).drop_first() =~= t + rest);
        assert forall|i: int| 0 <= i < t.len() implies !white_space(#[trigger] t[i]) by {
            assert(t[i] == a[i + 1]);
        }
        lemma_words_through_run(t, rest, pending.push(a[0]));
        assert(pending.push(a[0]) + t =~= pending + a);
    }
}

/// Two runs of non-whitespace characters joined by a space are two words.
pub proof fn law_space_separates_words(a: Seq<char>, b: Seq<char>)
    requires
        a.len() > 0,
        b.len() > 0,
        forall|i: int| 0 <= i < a.len() ==> !white_space(#[trigger] a[i]),
        forall|i: int| 0 <= i < b.len() ==> !white_space(#[trigger] b[i]),
    ensures
        words(a + seq![' '] + b) == seq![a, b],
{
    let rest = seq![' '] + b;
    assert(a + seq![' '] + b =~= a + rest);
    lemma_words_through_run(a, rest, Seq::empty());
    assert(Seq::<char>::empty() + a =~= a);
    assert(rest[0] == ' ');
    assert(rest.drop_first() =~= b);
    lemma_words_through_run(b, Seq::empty(), Seq::empty());
    assert(b + Seq::<char>::empty() =~= b);
    assert(Seq::<char>::empty() + b =~= b);
    assert(words_after(Seq::<char>::empty(), b) == seq![b]);
    assert(seq![a] + seq![b] =~= seq![a, b]);
}

/// How many characters at the start of `w` are not alphanumeric.
pub open spec fn lead_len(w: Seq<char>) -> nat
    decreases w.len(),
{
    if w.len() > 0 && !unicode_alphanumeric(w[0]) {
        1 + lead_len(w.drop_first())
    } else {
        0
    }
}

/// How many characters at the end of `w` are not alphanumeric.
pub open spec fn trail_len(w: Seq<char>) -> nat
    decreases w.len(),
{
    if w.len() > 0 && !unicode_alphanumeric(w.last()) {
        1 + trail_len(w.drop_last())
    } else {
        0
    }
}

/// `w` without its leading and trailing non-alphanumeric characters.
pub open spec fn trim_to_alphanumeric(w: Seq<char>) -> Seq<char> {
    let t = w.subrange(lead_len(w) as int, w.len() as int);
    t.subrange(0, t.len() - trail_len(t))
}

/// The addresses that the Pump program's logs mention and that are never a
/// new mint.
pub open spec fn known_log_key(k: Seq<u8>) -> bool {
    ||| k == PUMP_PROGRAM_ID@
    ||| k == PUMP_FEES_PROGRAM_ID@
    ||| k == SYSTEM_PROGRAM_ID@
    ||| k == SPL_TOKEN_PROGRAM_ID@
    ||| k == TOKEN_2022_PROGRAM_ID@
    ||| k == ASSOCIATED_TOKEN_PROGRAM_ID@
    ||| k == EVENT_AUTHORITY@
    ||| k == PUMP_GLOBAL@
}

/// The mint a log word names: the word trimmed to its alphanumeric core,
/// 32 to 44 bytes long, parsed as an address that is neither a known
/// program or account nor the all-zero address.
pub open spec fn mint_in_word(w: Seq<char>) -> Option<Seq<u8>> {
    let t = trim_to_alphanumeric(w);
    if 32 <= encode_utf8(t).len() <= 44 {
        match parsed_pubkey(t) {
            Some(k) => if !known_log_key(k) && k != zero_key() {
                Some(k)
            } else {
                None
            },
            None => None,
        }
    } else {
        None
    }
}

/// The first mint named by a list of words.
pub open spec fn first_mint_in(ws: Seq<Seq<char>>) -> Option<Seq<u8>>
    decreases ws.len(),
{
    if ws.len() == 0 {
        None
    } else {
        match mint_in_word(ws[0]) {
            Some(k) => Some(k),
            None => first_mint_in(ws.drop_first()),
        }
    }
}

/// The prefix of the program's own log lines.
pub const LOG_PREFIX: [char; 13] = ['P', 'r', 'o', 'g', 'r', 'a', 'm', ' ', 'l', 'o', 'g', ':', ' '];

/// The mint named by one log line: only `Program log: ` lines are read.
pub open spec fn mint_in_log(line: Seq<char>) -> Option<Seq<u8>> {
    if line.len() >= 13 && line.subrange(0, 13) == LOG_PREFIX@ {
        first_mint_in(words(line.subrange(13, line.len() as int)))
    } else {
        None
    }
}

/// The first mint named by a list of log lines.
pub open spec fn mint_from_logs(lines: Seq<Seq<char>>) -> Option<Seq<u8>>
    decreases lines.len(),
{
    if lines.len() == 0 {
        None
    } else {
        match mint_in_log(lines[0]) {
            Some(k) => Some(k),
            None => mint_from_logs(lines.drop_first()),
        }
    }
}

proof fn lemma_first_mint_cons(w: Seq<char>, rest: Seq<Seq<char>>)
    ensures
        first_mint_in(seq![w] + rest) == (match mint_in_word(w) {
            Some(k) => Some(k),
            None => first_mint_in(rest),
        }),
        first_mint_in(Seq::<Seq<char>>::empty() + rest) == first_mint_in(rest),
{
    assert((seq![w] + rest)[0] == w);
    assert((seq![w] + rest).drop_first() =~= rest);
    assert(Seq::<Seq<char>>::empty() + rest =~= rest);
}

proof fn lemma_lead_len(w: Seq<char>, j: int)
    requires
        0 <= j <= w.len(),
        forall|k: int| 0 <= k < j ==> !unicode_alphanumeric(#[trigger] w[k]),
        j == w.len() || unicode_alphanumeric(w[j]),
    ensures
        lead_len(w) == j,
    decreases j,
{
    if j > 0 {
        assert(!unicode_alphanumeric(w[0]));
        let d = w.drop_first();
        assert forall|k: int| 0 <= k < j - 1 implies !unicode_alphanumeric(#[trigger] d[k]) by {
            assert(d[k] == w[k + 1]);
        }
        if j < w.len() {
            assert(d[j - 1] == w[j]);
        }
        lemma_lead_len(d, j - 1);
    }
}

proof fn lemma_trail_len(w: Seq<char>, e: int)
    requires
        0 <= e <= w.len(),
        forall|k: int| e <= k < w.len() ==> !unicode_alphanumeric(#[trigger] w[k]),
        e == 0 || unicode_alphanumeric(w[e - 1]),
    ensures
        trail_len(w) == w.len() - e,
    decreases w.len() - e,
{
    if e < w.len() {
        assert(!unicode_alphanumeric(w.last()));
        let d = w.drop_last();
        assert forall|k: int| e <= k < d.len() implies !unicode_alphanumeric(#[trigger] d[k]) by {
            assert(d[k] == w[k]);
        }
        if e > 0 {
            assert(d[e - 1] == w[e - 1]);
        }
        lemma_trail_len(d, e);
    }
}

/// The addresses of `log_known_key`, compared one by one.
fn is_known_log_key(k: &Pubkey) -> (r: bool)
    ensures
        r == known_log_key(k@),
{
    let ata = associated_token_program_id();
    k.equals(&Pubkey(PUMP_PROGRAM_ID)) || k.equals(&Pubkey(PUMP_FEES_PROGRAM_ID)) || k.equals(
        &Pubkey(SYSTEM_PROGRAM_ID),
    ) || k.equals(&Pubkey(SPL_TOKEN_PROGRAM_ID)) || k.equals(&Pubkey(TOKEN_2022_PROGRAM_ID))
        || k.equals(&ata) || k.equals(&Pubkey(EVENT_AUTHORITY)) || k.equals(&Pubkey(PUMP_GLOBAL))
}

/// The mint named by the word `chars[lo..hi]` of `text`.
fn mint_in_word_at(text: &str, chars: &Vec<char>, lo: usize, hi: usize) -> (r: Option<Pubkey>)
    requires
        chars@ == text@,
        lo <= hi <= chars@.len(),
    ensures
        match r {
            Some(k) => mint_in_word(chars@.subrange(lo as int, hi as int)) == Some(k@),
            None => mint_in_word(chars@.subrange(lo as int, hi as int)) is None,
        },
{
    let ghost w = chars@.subrange(lo as int, hi as int);
    let mut j: usize = lo;
    while j < hi && !char_is_alphanumeric(chars[j])
        invariant
            lo <= j <= hi <= chars@.len(),
            forall|k: int| lo <= k < j ==> !unicode_alphanumeric(#[trigger] chars@[k]),
        decreases hi - j,
    {
        j = j + 1;
    }
    proof {
        assert forall|k: int| 0 <= k < j - lo implies !unicode_alphanumeric(#[trigger] w[k]) by {
            assert(w[k] == chars@[lo + k]);
        }
        if j < hi {
            assert(w[j - lo] == chars@[j as int]);
        }
        lemma_lead_len(w, j - lo);
    }
    let mut e: usize = hi;
    while e > j && !char_is_alphanumeric(chars[e - 1])
        invariant
            lo <= j <= e <= hi <= chars@.len(),
            forall|k: int| e <= k < hi ==> !unicode_alphanumeric(#[trigger] chars@[k]),
        decreases e - j,
    {
        e = e - 1;
    }
    proof {
        let t = w.subrange(lead_len(w) as int, w.len() as int);
        assert(t =~= chars@.subrange(j as int, hi as int));
        assert forall|k: int| e - j <= k < t.len() implies !unicode_alphanumeric(#[trigger] t[k]) by {
            assert(t[k] == chars@[j + k]);
        }
        if e > j {
            assert(t[e - j - 1] == chars@[e - 1]);
        }
        lemma_trail_len(t, e - j);
        assert(trim_to_alphanumeric(w) =~= chars@.subrange(j as int, e as int));
    }
    let trimmed: &str = text.substring_char(j, e);
    let bytes = trimmed.len();
    if 32 <= bytes && bytes <= 44 {
        match parse_pubkey(trimmed) {
            Some(k) => {
                if !is_known_log_key(&k) && !k.is_default() {
                    Some(k)
                } else {
                    None
                }
            },
            None => None,
        }
    } else {
        None
    }
}

/// The first mint named by the words of `text`.
fn first_mint_in_text(text: &str) -> (r: Option<Pubkey>)
    ensures
        match r {
            Some(k) => first_mint_in(words(text@)) == Some(k@),
            None => first_mint_in(words(text@)) is None,
        },
{
    let chars = chars_of(text);
    let n = chars.len();
    let mut start: usize = 0;
    let mut i: usize = 0;
    proof {
        assert(chars@.subrange(0, 0) =~= Seq::<char>::empty());
        assert(chars@.subrange(0, n as int) =~= chars@);
    }
    while i < n
        invariant
            n == chars@.len(),
            chars@ == text@,
            start <= i <= n,
            first_mint_in(words(text@)) == first_mint_in(
                words_after(chars@.subrange(i as int, n as int), chars@.subrange(start as int, i as int)),
            ),
        decreases n - i,
    {
        let ghost s = chars@.subrange(i as int, n as int);
        let ghost pending = chars@.subrange(start as int, i as int);
        proof {
            assert(s[0] == chars@[i as int]);
            assert(s.drop_first() =~= chars@.subrange(i + 1, n as int));
        }
        if char_is_whitespace(chars[i]) {
            let ghost rest = words_after(s.drop_first(), Seq::empty());
            proof {
                lemma_first_mint_cons(pending, rest);
            }
            if start < i {
                match mint_in_word_at(text, &chars, start, i) {
                    Some(k) => {
                        return Some(k);
                    },
                    None => {},
                }
            }
            i = i + 1;
            start = i;
            proof {
                assert(chars@.subrange(start as int, i as int) =~= Seq::<char>::empty());
            }
        } else {
            proof {
                assert(pending.push(chars@[i as int]) =~= chars@.subrange(start as int, i + 1));
            }
            i = i + 1;
        }
    }
    proof {
        let pending = chars@.subrange(start as int, n as int);
        assert(chars@.subrange(n as int, n as int).len() == 0);
        lemma_first_mint_cons(pending, Seq::empty());
        assert(seq![pending] + Seq::<Seq<char>>::empty() =~= seq![pending]);
        assert(first_mint_in(Seq::<Seq<char>>::empty()) is None);
    }
    if start < n {
        mint_in_word_at(text, &chars, start, n)
    } else {
        None
    }
}

/// The mint named by one log line.
fn mint_in_log_line(line: &str) -> (r: Option<Pubkey>)
    ensures
        match r {
            Some(k) => mint_in_log(line@) == Some(k@),
            None => mint_in_log(line@) is None,
        },
{
    let n = line.unicode_len();
    if n < 13 {
        return None;
    }
    let mut i: usize = 0;
    while i < 13
        invariant
            i <= 13 <= n,
            n == line@.len(),
            forall|k: int| 0 <= k < i ==> line@[k] == LOG_PREFIX@[k],
        decreases 13 - i,
    {
        if line.get_char(i) != LOG_PREFIX[i] {
            assert(line@.subrange(0, 13)[i as int] != LOG_PREFIX@[i as int]);
            return None;
        }
        i = i + 1;
    }
    assert(line@.subrange(0, 13) =~= LOG_PREFIX@);
    let rest: &str = line.substring_char(13, n);
    first_mint_in_text(rest)
}

/// The view of a list of strings.
pub open spec fn lines_view(lines: Seq<String>) -> Seq<Seq<char>> {
    lines.map_values(|l: String| l@)
}

/// The newly created mint named in a create transaction's logs: the first
/// word of a `Program log: ` line that, trimmed of non-alphanumeric
/// characters, is a 32 to 44 byte base58 address other than the Pump and
/// token programs, the event authority, the global account and the zero
/// address.
pub fn extract_mint_from_logs(logs: &Vec<String>) -> (r: Option<Pubkey>)
    ensures
        match r {
            Some(k) => mint_from_logs(lines_view(logs@)) == Some(k@),
            None => mint_from_logs(lines_view(logs@)) is None,
        },
{
    let n = logs.len();
    let mut i: usize = 0;
    assert(lines_view(logs@).subrange(0, n as int) =~= lines_view(logs@));
    while i < n
        invariant
            n == logs@.len(),
            i <= n,
            mint_from_logs(lines_view(logs@)) == mint_from_logs(
                lines_view(logs@).subrange(i as int, n as int),
            ),
        decreases n - i,
    {
        let ghost s = lines_view(logs@).subrange(i as int, n as int);
        proof {
            assert(s[0] == logs@[i as int]@);
            assert(s.drop_first() =~= lines_view(logs@).subrange(i + 1, n as int));
        }
        match mint_in_log_line(logs[i].as_str()) {
            Some(k) => {
                return Some(k);
            },
            None => {},
        }
        i = i + 1;
    }
    proof {
        assert(lines_view(logs@).subrange(n as int, n as int).len() == 0);
    }
    None
}

/// `s` with every occurrence of `from`, left to right and without overlap,
/// replaced by `to` (as `str::replace` does for a non-empty pattern).
pub open spec fn replace_all(s: Seq<char>, from: Seq<char>, to: Seq<char>) -> Seq<char>
    decreases s.len(),
{
    if s.len() == 0 {
        Seq::empty()
    } else if 0 < from.len() <= s.len() && s.subrange(0, from.len() as int) == from {
        to + replace_all(s.subrange(from.len() as int, s.len() as int), from, to)
    } else {
        seq![s[0]] + replace_all(s.drop_first(), from, to)
    }
}

/// Replaces every occurrence of `from` in `text` by `to`.
fn replace_text(text: &str, from: &[char], to: &str) -> (r: String)
    requires
        from@.len() > 0,
    ensures
        r@ == replace_all(text@, from@, to@),
{
    let chars = chars_of(text);
    let n = chars.len();
    let m = from.len();
    let mut out = String::new();
    let mut i: usize = 0;
    assert(chars@.subrange(0, n as int) =~= chars@);
    while i < n
        invariant
            n == chars@.len(),
            chars@ == text@,
            m == from@.len(),
            m > 0,
            i <= n,
            out@ + replace_all(chars@.subrange(i as int, n as int), from@, to@) == replace_all(
                text@,
                from@,
                to@,
            ),
        decreases n - i,
    {
        let ghost s = chars@.subrange(i as int, n as int);
        let mut matched = false;
        if m <= n - i {
            let mut j: usize = 0;
            while j < m && chars[i + j] == from[j]
                invariant
                    i + m <= n == chars@.len(),
                    m == from@.len(),
                    j <= m,
                    forall|q: int| 0 <= q < j ==> chars@[i + q] == from@[q],
                decreases m - j,
            {
                j = j + 1;
            }
            if j == m {
                matched = true;
                assert(s.subrange(0, m as int) =~= from@);
            } else {
                assert(s.subrange(0, m as int)[j as int] != from@[j as int]);
            }
        }
        if matched {
            let ghost before = out@;
            out.append(to);
            proof {
                assert(s.subrange(m as int, s.len() as int) =~= chars@.subrange(i + m, n as int));
                assert(before + (to@ + replace_all(chars@.subrange(i + m, n as int), from@, to@))
                    =~= out@ + replace_all(chars@.subrange(i + m, n as int), from@, to@));
            }
            i = i + m;
        } else {
            let ghost before = out@;
            let one: &str = text.substring_char(i, i + 1);
            out.append(one);
            proof {
                assert(one@ =~= seq![s[0]]);
                assert(s.drop_first() =~= chars@.subrange(i + 1, n as int));
                assert(before + (seq![s[0]] + replace_all(s.drop_first(), from@, to@)) =~= out@
                    + replace_all(chars@.subrange(i + 1, n as int), from@, to@));
            }
            i = i + 1;
        }
    }
    assert(chars@.subrange(n as int, n as int) =~= Seq::<char>::empty());
    assert(out@ + Seq::<char>::empty() =~= out@);
    out
}

/// `https://`
pub const HTTPS_SCHEME: [char; 8] = ['h', 't', 't', 'p', 's', ':', '/', '/'];

/// `http://`
pub const HTTP_SCHEME: [char; 7] = ['h', 't', 't', 'p', ':', '/', '/'];

/// The websocket URL of an RPC URL: `https://` becomes `wss://`, then
/// `http://` becomes `ws://`.
pub fn rpc_to_ws(rpc_url: &str) -> (r: String)
    ensures
        r@ == replace_all(
            replace_all(rpc_url@, HTTPS_SCHEME@, "wss://"@),
            HTTP_SCHEME@,
            "ws://"@,
        ),
{
    let secure = replace_text(rpc_url, &HTTPS_SCHEME, "wss://");
    replace_text(secure.as_str(), &HTTP_SCHEME, "ws://")
}

/// The log text of the Pump program's create instructions.
pub const CREATE_MARKER: [char; 19] = [
    'I', 'n', 's', 't', 'r', 'u', 'c', 't', 'i', 'o', 'n', ':', ' ', 'C', 'r', 'e', 'a', 't', 'e',
];

/// Whether `pat` occurs in `s`.
pub open spec fn has_infix(s: Seq<char>, pat: Seq<char>) -> bool {
    exists|i: int| 0 <= i && i + pat.len() <= s.len() && #[trigger] s.subrange(i, i + pat.len()) == pat
}

/// Whether a transaction's logs announce a create instruction.
pub open spec fn announces_create(lines: Seq<Seq<char>>) -> bool {
    exists|j: int| 0 <= j < lines.len() && has_infix(#[trigger] lines[j], CREATE_MARKER@)
}

/// Whether `CREATE_MARKER` occurs in `line`.
fn mentions_create(line: &str) -> (r: bool)
    ensures
        r == has_infix(line@, CREATE_MARKER@),
{
    let chars = chars_of(line);
    let n = chars.len();
    if n < 19 {
        proof {
            assert forall|i: int| 0 <= i && i + 19 <= line@.len() implies #[trigger] line@.subrange(
                i,
                i + 19,
            ) != CREATE_MARKER@ by {}
        }
        return false;
    }
    let mut i: usize = 0;
    while i <= n - 19
        invariant
            n == chars@.len(),
            chars@ == line@,
            19 <= n,
            i <= n - 18,
            forall|p: int| 0 <= p < i ==> #[trigger] chars@.subrange(p, p + 19) != CREATE_MARKER@,
        decreases n - 18 - i,
    {
        let mut j: usize = 0;
        while j < 19 && chars[i + j] == CREATE_MARKER[j]
            invariant
                i + 19 <= n == chars@.len(),
                j <= 19,
                forall|q: int| 0 <= q < j ==> chars@[i + q] == CREATE_MARKER@[q],
            decreases 19 - j,
        {
            j = j + 1;
        }
        if j == 19 {
            assert(chars@.subrange(i as int, i + 19) =~= CREATE_MARKER@);
            return true;
        }
        assert(chars@.subrange(i as int, i + 19)[j as int] != CREATE_MARKER@[j as int]);
        i = i + 1;
    }
    proof {
        assert forall|p: int| 0 <= p && p + 19 <= line@.len() implies #[trigger] line@.subrange(
            p,
            p + 19,
        ) != CREATE_MARKER@ by {
            assert(p < i);
        }
    }
    false
}

/// Whether any of a transaction's log lines announces a create instruction.
pub fn is_create_transaction(logs: &Vec<String>) -> (r: bool)
    ensures
        r == announces_create(lines_view(logs@)),
{
    let n = logs.len();
    let mut i: usize = 0;
    while i < n
        invariant
            n == logs@.len(),
            i <= n,
            forall|j: int| 0 <= j < i ==> !has_infix(#[trigger] lines_view(logs@)[j], CREATE_MARKER@),
        decreases n - i,
    {
        if mentions_create(logs[i].as_str()) {
            assert(lines_view(logs@)[i as int] == logs@[i as int]@);
            return true;
        }
        assert(lines_view(logs@)[i as int] == logs@[i as int]@);
        i = i + 1;
    }
    false
}

proof fn lemma_first_mint_is_unknown(ws: Seq<Seq<char>>)
    ensures
        first_mint_in(ws) matches Some(k) ==> !known_log_key(k) && k != zero_key(),
    decreases ws.len(),
{
    if ws.len() > 0 {
        lemma_first_mint_is_unknown(ws.drop_first());
    }
}

/// A mint read from the logs is never one of the known programs or
/// accounts, nor the all-zero address.
pub proof fn law_extracted_mint_is_unknown(lines: Seq<Seq<char>>)
    ensures
        mint_from_logs(lines) matches Some(k) ==> !known_log_key(k) && k != zero_key(),
    decreases lines.len(),
{
    if lines.len() > 0 {
        let l = lines[0];
        if l.len() >= 13 {
            lemma_first_mint_is_unknown(words(l.subrange(13, l.len() as int)));
        }
        law_extracted_mint_is_unknown(lines.drop_first());
    }
}

/// The programs and fixed accounts of a Pump transaction, which are never
/// the new mint.
pub open spec fn known_program_key(k: Seq<u8>) -> bool {
    ||| k == PUMP_PROGRAM_ID@
    ||| k == PUMP_FEES_PROGRAM_ID@
    ||| k == PUMP_GLOBAL@
    ||| k == EVENT_AUTHORITY@
    ||| k == FEE_RECIPIENT@
    ||| k == SYSTEM_PROGRAM_ID@
    ||| k == RENT_SYSVAR_ID@
    ||| k == SPL_TOKEN_PROGRAM_ID@
    ||| k == TOKEN_2022_PROGRAM_ID@
    ||| k == ASSOCIATED_TOKEN_PROGRAM_ID@
    ||| k == MAYHEM_PROGRAM_ID@
}

/// Whether `pk` is one of the programs or fixed accounts of a Pump
/// transaction.
pub fn known_program(pk: &Pubkey) -> (r: bool)
    ensures
        r == known_program_key(pk@),
{
    let token = spl_token_program_id();
    let ata = associated_token_program_id();
    pk.equals(&Pubkey(PUMP_PROGRAM_ID)) || pk.equals(&Pubkey(PUMP_FEES_PROGRAM_ID)) || pk.equals(
        &Pubkey(PUMP_GLOBAL),
    ) || pk.equals(&Pubkey(EVENT_AUTHORITY)) || pk.equals(&Pubkey(FEE_RECIPIENT)) || pk.equals(
        &Pubkey(SYSTEM_PROGRAM_ID),
    ) || pk.equals(&Pubkey(RENT_SYSVAR_ID)) || pk.equals(&token) || pk.equals(
        &Pubkey(TOKEN_2022_PROGRAM_ID),
    ) || pk.equals(&ata) || pk.equals(&Pubkey(MAYHEM_PROGRAM_ID))
}

/// Size of an SPL mint account.
pub const MINT_ACCOUNT_MIN_LEN: usize = 82;

/// Whether an account of a transaction may be its new mint: it is not a
/// known program or account, it is owned by a token program, and it is at
/// least as long as a mint.
pub fn is_mint_candidate(key: &Pubkey, owner: &Pubkey, data_len: usize) -> (r: bool)
    ensures
        r == (!known_program_key(key@) && (owner@ == SPL_TOKEN_PROGRAM_ID@ || owner@
            == TOKEN_2022_PROGRAM_ID@) && data_len >= MINT_ACCOUNT_MIN_LEN),
{
    if known_program(key) {
        return false;
    }
    let token = spl_token_program_id();
    (owner.equals(&token) || owner.equals(&Pubkey(TOKEN_2022_PROGRAM_ID))) && data_len
        >= MINT_ACCOUNT_MIN_LEN
}

/// Why a new curve is passed over, or that it is accepted.
#[derive(Clone, Copy, PartialEq, Eq, Debug, Structural)]
pub enum CurveFilter {
    /// The curve's real SOL reserves are within the bounds.
    Accept,
    /// The curve holds less SOL than the minimum.
    BelowMin,
    /// The curve holds more SOL than the maximum.
    AboveMax,
}

/// The filter outcome for a curve holding `real_sol_reserves` lamports.
pub open spec fn curve_filter_of(real_sol_reserves: u64, min_lamports: Option<u64>, max_lamports: Option<u64>) -> CurveFilter {
    if min_lamports matches Some(m) && real_sol_reserves < m {
        CurveFilter::BelowMin
    } else if max_lamports matches Some(m) && real_sol_reserves > m {
        CurveFilter::AboveMax
    } else {
        CurveFilter::Accept
    }
}

/// Applies the optional bounds, in lamports, on a new curve's real SOL
/// reserves; the minimum is checked first.
pub fn curve_sol_filter(real_sol_reserves: u64, min_lamports: Option<u64>, max_lamports: Option<
    u64,
>) -> (r: CurveFilter)
    ensures
        r == curve_filter_of(real_sol_reserves, min_lamports, max_lamports),
{
    if let Some(m) = min_lamports {
        if real_sol_reserves < m {
            return CurveFilter::BelowMin;
        }
    }
    if let Some(m) = max_lamports {
        if real_sol_reserves > m {
            return CurveFilter::AboveMax;
        }
    }
    CurveFilter::Accept
}

/// What a sniper does with one log notification of the Pump program.
#[derive(Clone, Copy, PartialEq, Eq, Debug)]
pub enum LogsStep {
    /// Not a successful create transaction: nothing to do.
    Ignore,
    /// The logs name the new mint.
    Mint(Pubkey),
    /// A create whose logs name no mint: look in the transaction's accounts.
    LookUpTransaction,
}

/// The first step on a log notification: only successful create
/// transactions are followed, and their mint is read from the logs when
/// they name one.
pub fn snipe_logs_step(logs: &Vec<String>, failed: bool) -> (r: LogsStep)
    ensures
        !announces_create(lines_view(logs@)) || failed ==> r == LogsStep::Ignore,
        announces_create(lines_view(logs@)) && !failed ==> match mint_from_logs(lines_view(logs@)) {
            Some(k) => r matches LogsStep::Mint(m) && m@ == k,
            None => r == LogsStep::LookUpTransaction,
        },
{
    if !is_create_transaction(logs) || failed {
        return LogsStep::Ignore;
    }
    match extract_mint_from_logs(logs) {
        Some(m) => LogsStep::Mint(m),
        None => LogsStep::LookUpTransaction,
    }
}

/// What a sniper does once the new token's bonding curve has been read.
#[derive(Clone, Copy, PartialEq, Eq, Debug, Structural)]
pub enum CurveStep {
    /// The curve account does not exist yet.
    NotFound,
    /// The curve account could not be decoded.
    NotReady(CurveError),
    /// The curve's SOL is outside the bounds.
    Skip(CurveFilter),
    /// The budget is beyond the 64-bit arithmetic of the curve's pricing.
    OutOfRange,
    /// The curve refused the quote.
    QuoteFailed(CurveError),
    /// Buy with this plan.
    Buy(BuyPlan),
}

/// The step on a read curve (`None` when the account was not found, else
/// its decoding): the bounds on its SOL first, then the buy plan.
pub open spec fn curve_step(
    read: Option<Result<BondingCurve, CurveError>>,
    min_lamports: Option<u64>,
    max_lamports: Option<u64>,
    sol_lamports: u64,
    slippage_bps: u64,
) -> CurveStep {
    match read {
        None => CurveStep::NotFound,
        Some(Err(e)) => CurveStep::NotReady(e),
        Some(Ok(c)) => {
            let f = curve_filter_of(c.real_sol_reserves, min_lamports, max_lamports);
            if f != CurveFilter::Accept {
                CurveStep::Skip(f)
            } else if !buy_plan_fits(c, sol_lamports, slippage_bps) {
                CurveStep::OutOfRange
            } else {
                match planned_buy(c, sol_lamports, slippage_bps) {
                    Ok(p) => CurveStep::Buy(p),
                    Err(e) => CurveStep::QuoteFailed(e),
                }
            }
        },
    }
}

/// Decides what to do with a new token's curve.
pub fn snipe_curve_step(
    read: Option<Result<BondingCurve, CurveError>>,
    min_lamports: Option<u64>,
    max_lamports: Option<u64>,
    sol_lamports: u64,
    slippage_bps: u64,
) -> (r: CurveStep)
    ensures
        r == curve_step(read, min_lamports, max_lamports, sol_lamports, slippage_bps),
{
    match read {
        None => CurveStep::NotFound,
        Some(Err(e)) => CurveStep::NotReady(e),
        Some(Ok(c)) => {
            let f = curve_sol_filter(c.real_sol_reserves, min_lamports, max_lamports);
            if f != CurveFilter::Accept {
                CurveStep::Skip(f)
            } else if !buy_plan_fits_check(&c, sol_lamports, slippage_bps) {
                CurveStep::OutOfRange
            } else {
                match plan_buy(&c, sol_lamports, slippage_bps) {
                    Ok(p) => CurveStep::Buy(p),
                    Err(e) => CurveStep::QuoteFailed(e),
                }
            }
        },
    }
}

} // verus!
