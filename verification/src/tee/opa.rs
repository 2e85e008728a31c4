//! The policy evaluator.
//!
//! Policies are written in a small declarative dialect: a package
//! header, a `default allow = false` rule, and one `allow` rule whose
//! body conjoins conditions of the form `input.<field> >= data.<field>`.
//! Reference data and input are JSON objects of numeric fields.  The
//! decision is `allow: true` exactly when every condition holds; a
//! policy, reference or input outside the dialect is an evaluation
//! error, distinct from a deny.

use vstd::prelude::*;
use crate::Error;
use crate::chars::{str_to_chars, chars_to_string, chars_eq, is_digit};
use crate::json::{
    is_ws, MemberV, Member, members_view, parse_object_text, parse_object, u64_field,
    get_u64_field, ser_bool, push_str, push_bool,
};

verus! {

/// A letter, digit or underscore: the characters a word token is made of.
pub open spec fn is_word_char(c: char) -> bool {
    is_digit(c) || (97 <= (c as u32) && (c as u32) <= 122) || (65 <= (c as u32) && (c as u32)
        <= 90) || c == '_'
}

/// The first index at or after `i` holding a non-word character.
pub open spec fn scan_word(s: Seq<char>, i: int) -> int
    decreases s.len() - i,
{
    if i < s.len() && is_word_char(s[i]) {
        scan_word(s, i + 1)
    } else {
        i
    }
}

/// The first index after the line containing `i`.
pub open spec fn skip_line(s: Seq<char>, i: int) -> int
    decreases s.len() - i,
{
    if i < s.len() {
        if s[i] == '\n' {
            i + 1
        } else {
            skip_line(s, i + 1)
        }
    } else {
        i
    }
}

pub proof fn lemma_scan_word_bounds(s: Seq<char>, i: int)
    requires
        i <= s.len(),
    ensures
        i <= scan_word(s, i) <= s.len(),
    decreases s.len() - i,
{
    if i < s.len() && is_word_char(s[i]) {
        lemma_scan_word_bounds(s, i + 1);
    }
}

pub proof fn lemma_skip_line_bounds(s: Seq<char>, i: int)
    requires
        i <= s.len(),
    ensures
        i <= skip_line(s, i) <= s.len(),
        i < s.len() ==> i + 1 <= skip_line(s, i),
    decreases s.len() - i,
{
    if i < s.len() && s[i] != '\n' {
        lemma_skip_line_bounds(s, i + 1);
    }
}

/// The tokens of a policy text from `i` on, with `acc` the tokens read
/// so far: comments run to the end of the line, words stick together,
/// `{` `}` `=` `.` and `>=` stand alone.  `None` on a foreign character.
pub open spec fn tokenize(s: Seq<char>, i: int, acc: Seq<Seq<char>>) -> Option<Seq<Seq<char>>>
    decreases s.len() - i,
    via tokenize_decreases
{
    if i >= s.len() {
        Some(acc)
    } else if is_ws(s[i]) {
        tokenize(s, i + 1, acc)
    } else if s[i] == '#' {
        tokenize(s, skip_line(s, i), acc)
    } else if is_word_char(s[i]) {
        tokenize(s, scan_word(s, i), acc.push(s.subrange(i, scan_word(s, i))))
    } else if s[i] == '{' || s[i] == '}' || s[i] == '=' || s[i] == '.' {
        tokenize(s, i + 1, acc.push(seq![s[i]]))
    } else if s[i] == '>' && i + 1 < s.len() && s[i + 1] == '=' {
        tokenize(s, i + 2, acc.push(seq!['>', '=']))
    } else {
        None
    }
}

#[via_fn]
proof fn tokenize_decreases(s: Seq<char>, i: int, acc: Seq<Seq<char>>) {
    if i < s.len() {
        lemma_skip_line_bounds(s, i);
        if is_word_char(s[i]) {
            lemma_scan_word_bounds(s, i + 1);
        }
    }
}

/// The condition keys of a rule body from token `i` on: repeated
/// `input . <key> >= data . <key>` groups up to the closing brace, which
/// must end the token stream.
pub open spec fn parse_conds(toks: Seq<Seq<char>>, i: int, acc: Seq<Seq<char>>) -> Option<
    Seq<Seq<char>>,
>
    decreases toks.len() - i,
{
    if i < toks.len() && toks[i] == seq!['}'] {
        if i + 1 == toks.len() {
            Some(acc)
        } else {
            None
        }
    } else if i + 7 <= toks.len() && toks[i] == "input"@ && toks[i + 1] == seq!['.'] && toks[i
        + 3] == seq!['>', '='] && toks[i + 4] == "data"@ && toks[i + 5] == seq!['.'] && toks[i
        + 6] == toks[i + 2] {
        parse_conds(toks, i + 7, acc.push(toks[i + 2]))
    } else {
        None
    }
}

/// The condition keys of a policy in the dialect: `package <name>`,
/// `default allow = false`, then `allow { <conditions> }`.
pub open spec fn parse_policy(toks: Seq<Seq<char>>) -> Option<Seq<Seq<char>>> {
    if toks.len() >= 8 && toks[0] == "package"@ && toks[2] == "default"@ && toks[3] == "allow"@
        && toks[4] == seq!['='] && toks[5] == "false"@ && toks[6] == "allow"@ && toks[7]
        == seq!['{'] {
        parse_conds(toks, 8, Seq::empty())
    } else {
        None
    }
}

/// Whether `input.<k> >= data.<k>` holds: both documents carry the
/// field exactly once as a natural number, and the input's is at least
/// the reference's.
pub open spec fn cond_holds(k: Seq<char>, refm: Seq<MemberV>, inm: Seq<MemberV>) -> bool {
    match (u64_field(inm, k), u64_field(refm, k)) {
        (Some(iv), Some(rv)) => iv >= rv,
        _ => false,
    }
}

/// Whether every condition of the rule body holds.
pub open spec fn all_conds_hold(keys: Seq<Seq<char>>, refm: Seq<MemberV>, inm: Seq<MemberV>) -> bool
    decreases keys.len(),
{
    if keys.len() == 0 {
        true
    } else {
        all_conds_hold(keys.drop_last(), refm, inm) && cond_holds(keys.last(), refm, inm)
    }
}

/// The decision document for verdict `b`.
pub open spec fn ser_decision(b: bool) -> Seq<char> {
    "{\"allow\":"@ + ser_bool(b) + seq!['}']
}

/// What evaluating `policy` against `reference` and `input` yields:
/// the decision document, or nothing when any of the three documents
/// falls outside the dialect.
pub open spec fn opa_eval(policy: Seq<char>, reference: Seq<char>, input: Seq<char>) -> Option<
    Seq<char>,
> {
    match tokenize(policy, 0, Seq::empty()) {
        Some(toks) => match parse_policy(toks) {
            Some(keys) => match (parse_object_text(reference), parse_object_text(input)) {
                (Some(rm), Some(im)) => Some(ser_decision(all_conds_hold(keys, rm, im))),
                _ => None,
            },
            None => None,
        },
        None => None,
    }
}

// ------------------------------------------------------------------
// The executable evaluator.
// ------------------------------------------------------------------

/// The token views of a token list.
pub open spec fn tokens_view(v: Seq<Vec<char>>) -> Seq<Seq<char>> {
    v.map_values(|t: Vec<char>| t@)
}

fn is_word_char_exec(c: char) -> (r: bool)
    ensures
        r == is_word_char(c),
{
    let u = c as u32;
    (48 <= u && u <= 57) || (97 <= u && u <= 122) || (65 <= u && u <= 90) || c == '_'
}

fn scan_word_exec(s: &Vec<char>, i: usize) -> (r: usize)
    requires
        i <= s@.len(),
    ensures
        r == scan_word(s@, i as int),
        i <= r <= s@.len(),
{
    let n = s.len();
    let mut cur = i;
    while cur < n && is_word_char_exec(s[cur])
        invariant
            i <= cur <= n,
            n == s@.len(),
            scan_word(s@, cur as int) == scan_word(s@, i as int),
        decreases n - cur,
    {
        cur = cur + 1;
    }
    cur
}

fn skip_line_exec(s: &Vec<char>, i: usize) -> (r: usize)
    requires
        i <= s@.len(),
    ensures
        r == skip_line(s@, i as int),
        i <= r <= s@.len(),
{
    let n = s.len();
    let mut cur = i;
    while cur < n && s[cur] != '\n'
        invariant
            i <= cur <= n,
            n == s@.len(),
            skip_line(s@, cur as int) == skip_line(s@, i as int),
        decreases n - cur,
    {
        cur = cur + 1;
    }
    if cur < n {
        cur + 1
    } else {
        cur
    }
}

fn tokenize_exec(s: &Vec<char>, i: usize, acc: Vec<Vec<char>>) -> (r: Option<Vec<Vec<char>>>)
    requires
        i <= s@.len(),
    ensures
        match r {
            Some(toks) => tokenize(s@, i as int, tokens_view(acc@)) == Some(tokens_view(toks@)),
            None => tokenize(s@, i as int, tokens_view(acc@)) is None,
        },
    decreases s@.len() - i,
{
    let n = s.len();
    if i >= n {
        return Some(acc);
    }
    let c = s[i];
    if c == ' ' || c == '\t' || c == '\n' || c == '\r' {
        tokenize_exec(s, i + 1, acc)
    } else if c == '#' {
        let j = skip_line_exec(s, i);
        proof {
            lemma_skip_line_bounds(s@, i as int);
        }
        tokenize_exec(s, j, acc)
    } else if is_word_char_exec(c) {
        let j = scan_word_exec(s, i);
        proof {
            assert(scan_word(s@, i as int) == scan_word(s@, i + 1));
            lemma_scan_word_bounds(s@, i + 1);
        }
        let tok = crate::json::subrange_vec(s, i, j);
        let ghost pre = tokens_view(acc@);
        let mut acc = acc;
        acc.push(tok);
        proof {
            assert(tokens_view(acc@) =~= pre.push(s@.subrange(i as int, j as int)));
        }
        tokenize_exec(s, j, acc)
    } else if c == '{' || c == '}' || c == '=' || c == '.' {
        let mut tok: Vec<char> = Vec::new();
        tok.push(c);
        proof {
            assert(tok@ =~= seq![s@[i as int]]);
        }
        let ghost pre = tokens_view(acc@);
        let mut acc = acc;
        acc.push(tok);
        proof {
            assert(tokens_view(acc@) =~= pre.push(seq![s@[i as int]]));
        }
        tokenize_exec(s, i + 1, acc)
    } else if c == '>' && i + 1 < n && s[i + 1] == '=' {
        let mut tok: Vec<char> = Vec::new();
        tok.push('>');
        tok.push('=');
        proof {
            assert(tok@ =~= seq!['>', '=']);
        }
        let ghost pre = tokens_view(acc@);
        let mut acc = acc;
        acc.push(tok);
        proof {
            assert(tokens_view(acc@) =~= pre.push(seq!['>', '=']));
        }
        tokenize_exec(s, i + 2, acc)
    } else {
        None
    }
}

fn tok_eq_str(toks: &Vec<Vec<char>>, i: usize, lit: &str) -> (r: bool)
    requires
        i < toks@.len(),
    ensures
        r == (tokens_view(toks@)[i as int] == lit@),
{
    let lc = str_to_chars(lit);
    chars_eq(&toks[i], &lc)
}

fn tok_eq_char(toks: &Vec<Vec<char>>, i: usize, c: char) -> (r: bool)
    requires
        i < toks@.len(),
    ensures
        r == (tokens_view(toks@)[i as int] == seq![c]),
{
    let t = &toks[i];
    if t.len() == 1 && t[0] == c {
        proof {
            assert(t@ =~= seq![c]);
        }
        true
    } else {
        proof {
            assert(t@ != seq![c]) by {
                if t@ == seq![c] {
                    assert(t@.len() == 1);
                    assert(t@[0] == c);
                }
            }
        }
        false
    }
}

fn parse_conds_exec(toks: &Vec<Vec<char>>, i: usize, acc: Vec<Vec<char>>) -> (r: Option<
    Vec<Vec<char>>,
>)
    requires
        i <= toks@.len(),
    ensures
        match r {
            Some(keys) => parse_conds(tokens_view(toks@), i as int, tokens_view(acc@)) == Some(
                tokens_view(keys@),
            ),
            None => parse_conds(tokens_view(toks@), i as int, tokens_view(acc@)) is None,
        },
    decreases toks@.len() - i,
{
    let n = toks.len();
    if i < n && tok_eq_char(toks, i, '}') {
        if i + 1 == n {
            return Some(acc);
        }
        return None;
    }
    if n - i >= 7 && tok_eq_str(toks, i, "input") && tok_eq_char(toks, i + 1, '.') && {
        let geq = str_to_chars(">=");
        proof {
            reveal_strlit(">=");
            assert(geq@ =~= seq!['>', '=']);
        }
        chars_eq(&toks[i + 3], &geq)
    } && tok_eq_str(toks, i + 4, "data") && tok_eq_char(toks, i + 5, '.') && chars_eq(
        &toks[i + 6],
        &toks[i + 2],
    ) {
        let key = crate::json::clone_chars(&toks[i + 2]);
        let ghost pre = tokens_view(acc@);
        let mut acc = acc;
        acc.push(key);
        proof {
            assert(tokens_view(acc@) =~= pre.push(tokens_view(toks@)[i + 2]));
        }
        parse_conds_exec(toks, i + 7, acc)
    } else {
        None
    }
}

fn parse_policy_exec(toks: &Vec<Vec<char>>) -> (r: Option<Vec<Vec<char>>>)
    ensures
        match r {
            Some(keys) => parse_policy(tokens_view(toks@)) == Some(tokens_view(keys@)),
            None => parse_policy(tokens_view(toks@)) is None,
        },
{
    if toks.len() >= 8 && tok_eq_str(toks, 0, "package") && tok_eq_str(toks, 2, "default")
        && tok_eq_str(toks, 3, "allow") && tok_eq_char(toks, 4, '=') && tok_eq_str(
        toks,
        5,
        "false",
    ) && tok_eq_str(toks, 6, "allow") && tok_eq_char(toks, 7, '{') {
        proof {
            assert(tokens_view(Seq::<Vec<char>>::empty()) =~= Seq::<Seq<char>>::empty());
        }
        parse_conds_exec(toks, 8, Vec::new())
    } else {
        None
    }
}

fn all_conds_hold_exec(keys: &Vec<Vec<char>>, refm: &Vec<Member>, inm: &Vec<Member>) -> (r: bool)
    ensures
        r == all_conds_hold(tokens_view(keys@), members_view(refm@), members_view(inm@)),
{
    let n = keys.len();
    let mut i: usize = 0;
    let mut ok = true;
    proof {
        assert(tokens_view(keys@).take(0) =~= Seq::<Seq<char>>::empty());
    }
    while i < n
        invariant
            i <= n,
            n == keys@.len(),
            ok == all_conds_hold(
                tokens_view(keys@).take(i as int),
                members_view(refm@),
                members_view(inm@),
            ),
        decreases n - i,
    {
        proof {
            assert(tokens_view(keys@).take(i + 1).drop_last() =~= tokens_view(keys@).take(
                i as int,
            ));
            assert(tokens_view(keys@).take(i + 1).last() == tokens_view(keys@)[i as int]);
        }
        let key = chars_to_string(&keys[i]);
        let iv = get_u64_field(inm, key.as_str());
        let rv = get_u64_field(refm, key.as_str());
        let holds = match (iv, rv) {
            (Some(iv), Some(rv)) => iv >= rv,
            _ => false,
        };
        ok = ok && holds;
        i = i + 1;
    }
    proof {
        assert(tokens_view(keys@).take(n as int) =~= tokens_view(keys@));
    }
    ok
}

/// The embedded policy engine.  The ghost call counter records how many
/// evaluations were requested, so that a caller can state that a path
/// never consulted the policy.
pub struct Opa {
    pub calls: Ghost<nat>,
}

impl Opa {
    /// A fresh engine with no evaluation on record.
    pub fn new() -> (r: Opa)
        ensures
            r.calls@ == 0,
    {
        Opa { calls: Ghost(0nat) }
    }

    /// Evaluates `policy` against `reference` and `input`.
    ///
    /// The verdict is a pure function of the three documents: `Ok`
    /// holds the decision document exactly when `opa_eval` denotes one,
    /// and any document outside the dialect is a `PolicyEvaluationError`.
    pub fn evaluate(&mut self, policy: &str, reference: &str, input: &str) -> (r: Result<
        String,
        Error,
    >)
        ensures
            final(self).calls@ == old(self).calls@ + 1,
            match r {
                Ok(d) => opa_eval(policy@, reference@, input@) == Some(d@),
                Err(e) => opa_eval(policy@, reference@, input@) is None && e
                    == Error::PolicyEvaluationError,
            },
    {
        self.calls = Ghost(self.calls@ + 1);
        let pc = str_to_chars(policy);
        proof {
            assert(tokens_view(Seq::<Vec<char>>::empty()) =~= Seq::<Seq<char>>::empty());
        }
        let toks = match tokenize_exec(&pc, 0, Vec::new()) {
            Some(t) => t,
            None => {
                return Err(Error::PolicyEvaluationError);
            },
        };
        let keys = match parse_policy_exec(&toks) {
            Some(k) => k,
            None => {
                return Err(Error::PolicyEvaluationError);
            },
        };
        let rc = str_to_chars(reference);
        let rm = match parse_object(&rc) {
            Some(m) => m,
            None => {
                return Err(Error::PolicyEvaluationError);
            },
        };
        let ic = str_to_chars(input);
        let im = match parse_object(&ic) {
            Some(m) => m,
            None => {
                return Err(Error::PolicyEvaluationError);
            },
        };
        let verdict = all_conds_hold_exec(&keys, &rm, &im);
        let mut out: Vec<char> = Vec::new();
        push_str(&mut out, "{\"allow\":");
        push_bool(&mut out, verdict);
        out.push('}');
        proof {
            assert(out@ =~= ser_decision(verdict));
        }
        Ok(chars_to_string(&out))
    }
}

} // verus!
