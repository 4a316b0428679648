//! The profile store file format: reading and writing the ordered
//! profile list as structured text, with a proved round trip.
//!
//! One record per profile: a `- name: <scalar>` line, then one
//! two-space-indented `<key>: <scalar>` line per remaining field, in a
//! fixed order.  A string value is single-quoted with inner quotes
//! doubled; an absent optional field is the bare word `null`; a
//! constrained field is its bare storage word.

use vstd::prelude::*;

use crate::store::{keeps, seed_config, seed_config_v};
use crate::text::str_eq;
use crate::model::{
    cli_no_color_of_word, cli_no_color_word, disable_redirects_of_word, disable_redirects_word,
    format_of_word, format_word, log_level_of_word, log_level_word, max_retries_of_word,
    max_retries_word, skip_verify_of_word, skip_verify_word, CliNoColor, Config, ConfigV,
    DisableRedirects, Format, LogLevel, MaxRetries, SharedData, SkipVerify,
};

verus! {

/// A single character quoted for storage: a quote doubles, anything
/// else stands for itself.
pub open spec fn esc_char(c: char) -> Seq<char> {
    if c == '\'' {
        seq!['\'', '\'']
    } else {
        seq![c]
    }
}

/// A string value quoted for storage: every quote doubled.
pub open spec fn escape(v: Seq<char>) -> Seq<char>
    decreases v.len(),
{
    if v.len() == 0 {
        Seq::empty()
    } else {
        esc_char(v[0]) + escape(v.skip(1))
    }
}

/// Scans a quoted scalar after its opening quote: the value, and what
/// follows the closing quote.  A doubled quote is a literal quote; the
/// first quote standing alone closes the scalar.
pub open spec fn scan_quoted(s: Seq<char>) -> Option<(Seq<char>, Seq<char>)>
    decreases s.len(),
{
    if s.len() == 0 {
        None
    } else if s[0] == '\'' {
        if s.len() >= 2 && s[1] == '\'' {
            match scan_quoted(s.skip(2)) {
                Some(p) => Some((seq!['\''] + p.0, p.1)),
                None => None,
            }
        } else {
            Some((Seq::empty(), s.skip(1)))
        }
    } else {
        match scan_quoted(s.skip(1)) {
            Some(p) => Some((seq![s[0]] + p.0, p.1)),
            None => None,
        }
    }
}

/// Everything before the next newline, and everything after it.
pub open spec fn take_line(s: Seq<char>) -> Option<(Seq<char>, Seq<char>)>
    decreases s.len(),
{
    if s.len() == 0 {
        None
    } else if s[0] == '\n' {
        Some((Seq::empty(), s.skip(1)))
    } else {
        match take_line(s.skip(1)) {
            Some(p) => Some((seq![s[0]] + p.0, p.1)),
            None => None,
        }
    }
}

/// Strips the exact text `l` off the front of `s`.
pub open spec fn parse_lit(l: Seq<char>, s: Seq<char>) -> Option<Seq<char>> {
    if l.len() <= s.len() && s.subrange(0, l.len() as int) == l {
        Some(s.skip(l.len() as int))
    } else {
        None
    }
}

pub proof fn lemma_parse_lit(l: Seq<char>, rest: Seq<char>)
    ensures
        parse_lit(l, l + rest) == Some(rest),
{
    assert((l + rest).subrange(0, l.len() as int) =~= l);
    assert((l + rest).skip(l.len() as int) =~= rest);
}

/// Quoting round-trips: scanning the escaped value, closing quote and
/// all, gives the value back, provided what follows the closing quote
/// does not start with another quote.
pub proof fn lemma_scan_quoted_escape(v: Seq<char>, rest: Seq<char>)
    requires
        rest.len() > 0,
        rest[0] != '\'',
    ensures
        scan_quoted(escape(v) + seq!['\''] + rest) == Some((v, rest)),
    decreases v.len(),
{
    let s = escape(v) + seq!['\''] + rest;
    if v.len() == 0 {
        assert(s =~= seq!['\''] + rest);
        assert(s[0] == '\'' && s[1] == rest[0]);
        assert(s.skip(1) =~= rest);
    } else if v[0] == '\'' {
        lemma_scan_quoted_escape(v.skip(1), rest);
        assert(s =~= seq!['\'', '\''] + (escape(v.skip(1)) + seq!['\''] + rest));
        assert(s[0] == '\'' && s[1] == '\'');
        assert(s.skip(2) =~= escape(v.skip(1)) + seq!['\''] + rest);
        assert(seq!['\''] + v.skip(1) =~= v);
    } else {
        lemma_scan_quoted_escape(v.skip(1), rest);
        assert(s =~= seq![v[0]] + (escape(v.skip(1)) + seq!['\''] + rest));
        assert(s[0] == v[0]);
        assert(s.skip(1) =~= escape(v.skip(1)) + seq!['\''] + rest);
        assert(seq![v[0]] + v.skip(1) =~= v);
    }
}

/// Taking a line finds exactly the newline the writer put there, as
/// long as the line itself holds none.
pub proof fn lemma_take_line(w: Seq<char>, rest: Seq<char>)
    requires
        forall|i: int| 0 <= i < w.len() ==> w[i] != '\n',
    ensures
        take_line(w + seq!['\n'] + rest) == Some((w, rest)),
    decreases w.len(),
{
    let s = w + seq!['\n'] + rest;
    if w.len() == 0 {
        assert(s =~= seq!['\n'] + rest);
        assert(s[0] == '\n');
        assert(s.skip(1) =~= rest);
    } else {
        assert forall|i: int| 0 <= i < w.skip(1).len() implies w.skip(1)[i] != '\n' by {
            assert(w.skip(1)[i] == w[i + 1]);
        }
        lemma_take_line(w.skip(1), rest);
        assert(s =~= seq![w[0]] + (w.skip(1) + seq!['\n'] + rest));
        assert(s[0] == w[0]);
        assert(s.skip(1) =~= w.skip(1) + seq!['\n'] + rest);
        assert(seq![w[0]] + w.skip(1) =~= w);
    }
}

/// A line taken from the text identifies the first newline: the
/// characterization `take_line` computes, spelled out.
pub proof fn lemma_take_line_at(u: Seq<char>, p: int)
    requires
        0 <= p < u.len(),
        u[p] == '\n',
        forall|k: int| 0 <= k < p ==> u[k] != '\n',
    ensures
        take_line(u) == Some((u.take(p), u.skip(p + 1))),
    decreases p,
{
    if p == 0 {
        assert(u.take(0) =~= Seq::<char>::empty());
    } else {
        assert forall|k: int| 0 <= k < p - 1 implies u.skip(1)[k] != '\n' by {
            assert(u.skip(1)[k] == u[k + 1]);
        }
        assert(u.skip(1)[p - 1] == u[p]);
        lemma_take_line_at(u.skip(1), p - 1);
        assert(seq![u[0]] + u.skip(1).take(p - 1) =~= u.take(p));
        assert(u.skip(1).skip(p) =~= u.skip(p + 1));
    }
}

/// Text without a newline has no line to take.
pub proof fn lemma_take_line_none(u: Seq<char>)
    requires
        forall|k: int| 0 <= k < u.len() ==> u[k] != '\n',
    ensures
        take_line(u) is None,
    decreases u.len(),
{
    if u.len() != 0 {
        assert forall|k: int| 0 <= k < u.skip(1).len() implies u.skip(1)[k] != '\n' by {
            assert(u.skip(1)[k] == u[k + 1]);
        }
        lemma_take_line_none(u.skip(1));
    }
}

/// A successful quoted scan consumed at least the closing quote.
pub proof fn lemma_scan_quoted_len(s: Seq<char>)
    ensures
        match scan_quoted(s) {
            Some(p) => p.1.len() < s.len(),
            None => true,
        },
    decreases s.len(),
{
    if s.len() != 0 {
        if s[0] == '\'' && s.len() >= 2 && s[1] == '\'' {
            lemma_scan_quoted_len(s.skip(2));
        } else if s[0] != '\'' {
            lemma_scan_quoted_len(s.skip(1));
        }
    }
}

/// A successful line take consumed at least the newline.
pub proof fn lemma_take_line_len(s: Seq<char>)
    ensures
        match take_line(s) {
            Some(p) => p.1.len() < s.len(),
            None => true,
        },
    decreases s.len(),
{
    if s.len() != 0 && s[0] != '\n' {
        lemma_take_line_len(s.skip(1));
    }
}

/// The storage form of an absent optional field.
pub open spec fn null_word() -> Seq<char> {
    "null"@
}

/// A quoted scalar: opening quote, escaped value, closing quote.
pub open spec fn quoted(v: Seq<char>) -> Seq<char> {
    seq!['\''] + escape(v) + seq!['\'']
}

/// One emitted line for a required string field: the prefix (indent,
/// key, colon, space), the quoted value, a newline.
pub open spec fn emit_str_field(prefix: Seq<char>, v: Seq<char>) -> Seq<char> {
    prefix + quoted(v) + seq!['\n']
}

/// One emitted line for an optional string field: `null` when absent.
pub open spec fn emit_opt_str_field(prefix: Seq<char>, v: Option<Seq<char>>) -> Seq<char> {
    match v {
        Some(x) => emit_str_field(prefix, x),
        None => prefix + null_word() + seq!['\n'],
    }
}

/// One emitted line for a constrained field: the bare storage word,
/// or `null` when absent.
pub open spec fn emit_word_field(prefix: Seq<char>, w: Option<Seq<char>>) -> Seq<char> {
    match w {
        Some(x) => prefix + x + seq!['\n'],
        None => prefix + null_word() + seq!['\n'],
    }
}

/// Reads a required string field line: prefix, quoted scalar, newline.
pub open spec fn parse_str_field(prefix: Seq<char>, s: Seq<char>) -> Option<(Seq<char>, Seq<char>)> {
    match parse_lit(prefix, s) {
        Some(s1) => if s1.len() > 0 && s1[0] == '\'' {
            match scan_quoted(s1.skip(1)) {
                Some(p) => if p.1.len() > 0 && p.1[0] == '\n' {
                    Some((p.0, p.1.skip(1)))
                } else {
                    None
                },
                None => None,
            }
        } else {
            None
        },
        None => None,
    }
}

/// Reads an optional string field line: a quoted scalar, or `null`.
pub open spec fn parse_opt_str_field(prefix: Seq<char>, s: Seq<char>) -> Option<
    (Option<Seq<char>>, Seq<char>),
> {
    match parse_lit(prefix, s) {
        Some(s1) => if s1.len() > 0 && s1[0] == '\'' {
            match scan_quoted(s1.skip(1)) {
                Some(p) => if p.1.len() > 0 && p.1[0] == '\n' {
                    Some((Some(p.0), p.1.skip(1)))
                } else {
                    None
                },
                None => None,
            }
        } else {
            match take_line(s1) {
                Some(p) => if p.0 == null_word() {
                    Some((None, p.1))
                } else {
                    None
                },
                None => None,
            }
        },
        None => None,
    }
}

/// Reads a constrained field line: the rest of the line is the word,
/// `null` standing for an absent field.  Which words are allowed is
/// the caller's affair.
pub open spec fn parse_word_field(prefix: Seq<char>, s: Seq<char>) -> Option<
    (Option<Seq<char>>, Seq<char>),
> {
    match parse_lit(prefix, s) {
        Some(s1) => match take_line(s1) {
            Some(p) => if p.0 == null_word() {
                Some((None, p.1))
            } else if p.0.len() > 0 {
                Some((Some(p.0), p.1))
            } else {
                None
            },
            None => None,
        },
        None => None,
    }
}

/// A word that can stand bare on a field line: not empty, not the
/// `null` marker, and without a newline.
pub open spec fn plain_word(x: Seq<char>) -> bool {
    x.len() > 0 && x != null_word() && forall|i: int| 0 <= i < x.len() ==> x[i] != '\n'
}

pub proof fn lemma_str_field_rt(prefix: Seq<char>, v: Seq<char>, rest: Seq<char>)
    ensures
        parse_str_field(prefix, emit_str_field(prefix, v) + rest) == Some((v, rest)),
{
    let tail = quoted(v) + seq!['\n'] + rest;
    assert(emit_str_field(prefix, v) + rest =~= prefix + tail);
    lemma_parse_lit(prefix, tail);
    assert(tail[0] == '\'');
    assert(tail.skip(1) =~= escape(v) + seq!['\''] + (seq!['\n'] + rest));
    lemma_scan_quoted_escape(v, seq!['\n'] + rest);
    assert((seq!['\n'] + rest)[0] == '\n');
    assert((seq!['\n'] + rest).skip(1) =~= rest);
}

pub proof fn lemma_opt_str_field_rt(prefix: Seq<char>, v: Option<Seq<char>>, rest: Seq<char>)
    ensures
        parse_opt_str_field(prefix, emit_opt_str_field(prefix, v) + rest) == Some((v, rest)),
{
    match v {
        Some(x) => {
            let tail = quoted(x) + seq!['\n'] + rest;
            assert(emit_opt_str_field(prefix, v) + rest =~= prefix + tail);
            lemma_parse_lit(prefix, tail);
            assert(tail[0] == '\'');
            assert(tail.skip(1) =~= escape(x) + seq!['\''] + (seq!['\n'] + rest));
            lemma_scan_quoted_escape(x, seq!['\n'] + rest);
            assert((seq!['\n'] + rest)[0] == '\n');
            assert((seq!['\n'] + rest).skip(1) =~= rest);
        },
        None => {
            let tail = null_word() + seq!['\n'] + rest;
            assert(emit_opt_str_field(prefix, v) + rest =~= prefix + tail);
            lemma_parse_lit(prefix, tail);
            proof_null_word_facts();
            assert(tail[0] == 'n');
            lemma_take_line(null_word(), rest);
        },
    }
}

pub proof fn lemma_word_field_rt(prefix: Seq<char>, w: Option<Seq<char>>, rest: Seq<char>)
    requires
        match w {
            Some(x) => plain_word(x),
            None => true,
        },
    ensures
        parse_word_field(prefix, emit_word_field(prefix, w) + rest) == Some((w, rest)),
{
    match w {
        Some(x) => {
            let tail = x + seq!['\n'] + rest;
            assert(emit_word_field(prefix, w) + rest =~= prefix + tail);
            lemma_parse_lit(prefix, tail);
            lemma_take_line(x, rest);
        },
        None => {
            let tail = null_word() + seq!['\n'] + rest;
            assert(emit_word_field(prefix, w) + rest =~= prefix + tail);
            lemma_parse_lit(prefix, tail);
            proof_null_word_facts();
            lemma_take_line(null_word(), rest);
        },
    }
}

/// The `null` marker is four letters and holds no newline or quote.
pub proof fn proof_null_word_facts()
    ensures
        null_word().len() == 4,
        null_word()[0] == 'n',
        forall|i: int| 0 <= i < null_word().len() ==> null_word()[i] != '\n',
{
    reveal_strlit("null");
}

pub proof fn lemma_str_field_len(prefix: Seq<char>, s: Seq<char>)
    ensures
        match parse_str_field(prefix, s) {
            Some(p) => p.1.len() < s.len(),
            None => true,
        },
{
    match parse_lit(prefix, s) {
        Some(s1) => {
            if s1.len() > 0 && s1[0] == '\'' {
                lemma_scan_quoted_len(s1.skip(1));
            }
        },
        None => {},
    }
}

pub proof fn lemma_opt_str_field_len(prefix: Seq<char>, s: Seq<char>)
    ensures
        match parse_opt_str_field(prefix, s) {
            Some(p) => p.1.len() < s.len(),
            None => true,
        },
{
    match parse_lit(prefix, s) {
        Some(s1) => {
            if s1.len() > 0 && s1[0] == '\'' {
                lemma_scan_quoted_len(s1.skip(1));
            } else {
                lemma_take_line_len(s1);
            }
        },
        None => {},
    }
}

pub proof fn lemma_word_field_len(prefix: Seq<char>, s: Seq<char>)
    ensures
        match parse_word_field(prefix, s) {
            Some(p) => p.1.len() < s.len(),
            None => true,
        },
{
    match parse_lit(prefix, s) {
        Some(s1) => {
            lemma_take_line_len(s1);
        },
        None => {},
    }
}

/// The storage word of a present constrained field, per enumeration.
pub open spec fn opt_format_word(v: Option<Format>) -> Option<Seq<char>> {
    match v {
        Some(x) => Some(format_word(x)),
        None => None,
    }
}

pub open spec fn opt_log_level_word(v: Option<LogLevel>) -> Option<Seq<char>> {
    match v {
        Some(x) => Some(log_level_word(x)),
        None => None,
    }
}

pub open spec fn opt_max_retries_word(v: Option<MaxRetries>) -> Option<Seq<char>> {
    match v {
        Some(x) => Some(max_retries_word(x)),
        None => None,
    }
}

pub open spec fn opt_skip_verify_word(v: Option<SkipVerify>) -> Option<Seq<char>> {
    match v {
        Some(x) => Some(skip_verify_word(x)),
        None => None,
    }
}

pub open spec fn opt_cli_no_color_word(v: Option<CliNoColor>) -> Option<Seq<char>> {
    match v {
        Some(x) => Some(cli_no_color_word(x)),
        None => None,
    }
}

pub open spec fn opt_disable_redirects_word(v: Option<DisableRedirects>) -> Option<Seq<char>> {
    match v {
        Some(x) => Some(disable_redirects_word(x)),
        None => None,
    }
}

/// Reads a constrained field's word back, the outer `None` marking a
/// word outside the allowed set.
pub open spec fn opt_format_of_word(w: Option<Seq<char>>) -> Option<Option<Format>> {
    match w {
        None => Some(None),
        Some(x) => match format_of_word(x) {
            Some(f) => Some(Some(f)),
            None => None,
        },
    }
}

pub open spec fn opt_log_level_of_word(w: Option<Seq<char>>) -> Option<Option<LogLevel>> {
    match w {
        None => Some(None),
        Some(x) => match log_level_of_word(x) {
            Some(f) => Some(Some(f)),
            None => None,
        },
    }
}

pub open spec fn opt_max_retries_of_word(w: Option<Seq<char>>) -> Option<Option<MaxRetries>> {
    match w {
        None => Some(None),
        Some(x) => match max_retries_of_word(x) {
            Some(f) => Some(Some(f)),
            None => None,
        },
    }
}

pub open spec fn opt_skip_verify_of_word(w: Option<Seq<char>>) -> Option<Option<SkipVerify>> {
    match w {
        None => Some(None),
        Some(x) => match skip_verify_of_word(x) {
            Some(f) => Some(Some(f)),
            None => None,
        },
    }
}

pub open spec fn opt_cli_no_color_of_word(w: Option<Seq<char>>) -> Option<Option<CliNoColor>> {
    match w {
        None => Some(None),
        Some(x) => match cli_no_color_of_word(x) {
            Some(f) => Some(Some(f)),
            None => None,
        },
    }
}

pub open spec fn opt_disable_redirects_of_word(w: Option<Seq<char>>) -> Option<
    Option<DisableRedirects>,
> {
    match w {
        None => Some(None),
        Some(x) => match disable_redirects_of_word(x) {
            Some(f) => Some(Some(f)),
            None => None,
        },
    }
}

/// Every format word stands bare on its line and reads back to the
/// value it was written for.
pub proof fn lemma_format_word_facts(v: Format)
    ensures
        plain_word(format_word(v)),
        format_of_word(format_word(v)) == Some(v),
{
    reveal_strlit("table");
    reveal_strlit("json");
    reveal_strlit("yaml");
    reveal_strlit("null");
    assert("table"@.len() == 5 && "table"@[0] == 't');
    assert("json"@.len() == 4 && "json"@[0] == 'j');
    assert("yaml"@.len() == 4 && "yaml"@[0] == 'y');
    assert("null"@.len() == 4 && "null"@[0] == 'n');
}

/// Every log-level word stands bare on its line and reads back to the
/// value it was written for.
pub proof fn lemma_log_level_word_facts(v: LogLevel)
    ensures
        plain_word(log_level_word(v)),
        log_level_of_word(log_level_word(v)) == Some(v),
{
    reveal_strlit("trace");
    reveal_strlit("debug");
    reveal_strlit("info");
    reveal_strlit("warn");
    reveal_strlit("err");
    reveal_strlit("null");
    assert("trace"@.len() == 5 && "trace"@[0] == 't');
    assert("debug"@.len() == 5 && "debug"@[0] == 'd');
    assert("info"@.len() == 4 && "info"@[0] == 'i');
    assert("warn"@.len() == 4 && "warn"@[0] == 'w');
    assert("err"@.len() == 3 && "err"@[0] == 'e');
    assert("null"@.len() == 4 && "null"@[0] == 'n');
}

/// Every retry word stands bare on its line and reads back to the
/// value it was written for.
pub proof fn lemma_max_retries_word_facts(v: MaxRetries)
    ensures
        plain_word(max_retries_word(v)),
        max_retries_of_word(max_retries_word(v)) == Some(v),
{
    reveal_strlit("zero");
    reveal_strlit("one");
    reveal_strlit("two");
    reveal_strlit("null");
    assert("zero"@.len() == 4 && "zero"@[0] == 'z');
    assert("one"@.len() == 3 && "one"@[0] == 'o');
    assert("two"@.len() == 3 && "two"@[0] == 't');
    assert("null"@.len() == 4 && "null"@[0] == 'n');
}

/// Every skip-verify word stands bare on its line and reads back to
/// the value it was written for.
pub proof fn lemma_skip_verify_word_facts(v: SkipVerify)
    ensures
        plain_word(skip_verify_word(v)),
        skip_verify_of_word(skip_verify_word(v)) == Some(v),
{
    reveal_strlit("true");
    reveal_strlit("false");
    reveal_strlit("zero");
    reveal_strlit("one");
    reveal_strlit("null");
    assert("true"@.len() == 4 && "true"@[0] == 't');
    assert("false"@.len() == 5 && "false"@[0] == 'f');
    assert("zero"@.len() == 4 && "zero"@[0] == 'z');
    assert("one"@.len() == 3 && "one"@[0] == 'o');
    assert("null"@.len() == 4 && "null"@[0] == 'n');
}

/// Every no-color word stands bare on its line and reads back to the
/// value it was written for.
pub proof fn lemma_cli_no_color_word_facts(v: CliNoColor)
    ensures
        plain_word(cli_no_color_word(v)),
        cli_no_color_of_word(cli_no_color_word(v)) == Some(v),
{
    reveal_strlit("true");
    reveal_strlit("false");
    reveal_strlit("zero");
    reveal_strlit("one");
    reveal_strlit("null");
    assert("true"@.len() == 4 && "true"@[0] == 't');
    assert("false"@.len() == 5 && "false"@[0] == 'f');
    assert("zero"@.len() == 4 && "zero"@[0] == 'z');
    assert("one"@.len() == 3 && "one"@[0] == 'o');
    assert("null"@.len() == 4 && "null"@[0] == 'n');
}

/// Every redirect word stands bare on its line and reads back to the
/// value it was written for.
pub proof fn lemma_disable_redirects_word_facts(v: DisableRedirects)
    ensures
        plain_word(disable_redirects_word(v)),
        disable_redirects_of_word(disable_redirects_word(v)) == Some(v),
{
    reveal_strlit("true");
    reveal_strlit("false");
    reveal_strlit("zero");
    reveal_strlit("one");
    reveal_strlit("null");
    assert("true"@.len() == 4 && "true"@[0] == 't');
    assert("false"@.len() == 5 && "false"@[0] == 'f');
    assert("zero"@.len() == 4 && "zero"@[0] == 'z');
    assert("one"@.len() == 3 && "one"@[0] == 'o');
    assert("null"@.len() == 4 && "null"@[0] == 'n');
}

/// Lines one to five of a record: name, address, token, CA
/// certificate, TLS server name.
pub open spec fn emit_chunk1(c: ConfigV) -> Seq<char> {
    emit_str_field("- name: "@, c.name) + (emit_str_field("  addr: "@, c.addr) + (emit_str_field(
        "  token: "@,
        c.token,
    ) + (emit_opt_str_field("  cacert: "@, c.cacert) + emit_opt_str_field(
        "  tls_server_name: "@,
        c.tls_server_name,
    ))))
}

/// Lines six to ten: CA path, client certificate and key, timeout,
/// cluster address.
pub open spec fn emit_chunk2(c: ConfigV) -> Seq<char> {
    emit_opt_str_field("  capath: "@, c.capath) + (emit_opt_str_field(
        "  client_cert: "@,
        c.client_cert,
    ) + (emit_opt_str_field("  client_key: "@, c.client_key) + (emit_opt_str_field(
        "  client_timeout: "@,
        c.client_timeout,
    ) + emit_opt_str_field("  cluster_addr: "@, c.cluster_addr))))
}

/// Lines eleven to fifteen: format, license, license path, log level,
/// retry count.
pub open spec fn emit_chunk3(c: ConfigV) -> Seq<char> {
    emit_word_field("  format: "@, opt_format_word(c.format)) + (emit_opt_str_field(
        "  license: "@,
        c.license,
    ) + (emit_opt_str_field("  license_path: "@, c.license_path) + (emit_word_field(
        "  log_level: "@,
        opt_log_level_word(c.log_level),
    ) + emit_word_field("  max_retries: "@, opt_max_retries_word(c.max_retries)))))
}

/// Lines sixteen to twenty: redirect address, TLS-verification switch,
/// color switch, rate limit, namespace.
pub open spec fn emit_chunk4(c: ConfigV) -> Seq<char> {
    emit_opt_str_field("  redirect_addr: "@, c.redirect_addr) + (emit_word_field(
        "  skip_verify: "@,
        opt_skip_verify_word(c.skip_verify),
    ) + (emit_word_field("  cli_no_color: "@, opt_cli_no_color_word(c.cli_no_color)) + (
    emit_opt_str_field("  rate_limit: "@, c.rate_limit) + emit_opt_str_field(
        "  namespace: "@,
        c.namespace,
    ))))
}

/// Lines twenty-one to twenty-five: SRV lookup, MFA, HTTP proxy, proxy
/// address, redirect switch.
pub open spec fn emit_chunk5(c: ConfigV) -> Seq<char> {
    emit_opt_str_field("  srv_lookup: "@, c.srv_lookup) + (emit_opt_str_field("  mfa: "@, c.mfa) + (
    emit_opt_str_field("  http_proxy: "@, c.http_proxy) + (emit_opt_str_field(
        "  proxy_addr: "@,
        c.proxy_addr,
    ) + emit_word_field(
        "  disable_redirects: "@,
        opt_disable_redirects_word(c.disable_redirects),
    ))))
}

/// One whole record: the twenty-five field lines in their fixed order.
pub open spec fn emit_record(c: ConfigV) -> Seq<char> {
    emit_chunk1(c) + (emit_chunk2(c) + (emit_chunk3(c) + (emit_chunk4(c) + emit_chunk5(c))))
}

pub open spec fn parse_chunk1(s: Seq<char>) -> Option<
    ((Seq<char>, Seq<char>, Seq<char>, Option<Seq<char>>, Option<Seq<char>>), Seq<char>),
> {
    match parse_str_field("- name: "@, s) {
        Some(p1) => match parse_str_field("  addr: "@, p1.1) {
            Some(p2) => match parse_str_field("  token: "@, p2.1) {
                Some(p3) => match parse_opt_str_field("  cacert: "@, p3.1) {
                    Some(p4) => match parse_opt_str_field("  tls_server_name: "@, p4.1) {
                        Some(p5) => Some(((p1.0, p2.0, p3.0, p4.0, p5.0), p5.1)),
                        None => None,
                    },
                    None => None,
                },
                None => None,
            },
            None => None,
        },
        None => None,
    }
}

pub open spec fn parse_chunk2(s: Seq<char>) -> Option<
    (
        (
            Option<Seq<char>>,
            Option<Seq<char>>,
            Option<Seq<char>>,
            Option<Seq<char>>,
            Option<Seq<char>>,
        ),
        Seq<char>,
    ),
> {
    match parse_opt_str_field("  capath: "@, s) {
        Some(p1) => match parse_opt_str_field("  client_cert: "@, p1.1) {
            Some(p2) => match parse_opt_str_field("  client_key: "@, p2.1) {
                Some(p3) => match parse_opt_str_field("  client_timeout: "@, p3.1) {
                    Some(p4) => match parse_opt_str_field("  cluster_addr: "@, p4.1) {
                        Some(p5) => Some(((p1.0, p2.0, p3.0, p4.0, p5.0), p5.1)),
                        None => None,
                    },
                    None => None,
                },
                None => None,
            },
            None => None,
        },
        None => None,
    }
}

pub open spec fn parse_chunk3(s: Seq<char>) -> Option<
    (
        (
            Option<Seq<char>>,
            Option<Seq<char>>,
            Option<Seq<char>>,
            Option<Seq<char>>,
            Option<Seq<char>>,
        ),
        Seq<char>,
    ),
> {
    match parse_word_field("  format: "@, s) {
        Some(p1) => match parse_opt_str_field("  license: "@, p1.1) {
            Some(p2) => match parse_opt_str_field("  license_path: "@, p2.1) {
                Some(p3) => match parse_word_field("  log_level: "@, p3.1) {
                    Some(p4) => match parse_word_field("  max_retries: "@, p4.1) {
                        Some(p5) => Some(((p1.0, p2.0, p3.0, p4.0, p5.0), p5.1)),
                        None => None,
                    },
                    None => None,
                },
                None => None,
            },
            None => None,
        },
        None => None,
    }
}

pub open spec fn parse_chunk4(s: Seq<char>) -> Option<
    (
        (
            Option<Seq<char>>,
            Option<Seq<char>>,
            Option<Seq<char>>,
            Option<Seq<char>>,
            Option<Seq<char>>,
        ),
        Seq<char>,
    ),
> {
    match parse_opt_str_field("  redirect_addr: "@, s) {
        Some(p1) => match parse_word_field("  skip_verify: "@, p1.1) {
            Some(p2) => match parse_word_field("  cli_no_color: "@, p2.1) {
                Some(p3) => match parse_opt_str_field("  rate_limit: "@, p3.1) {
                    Some(p4) => match parse_opt_str_field("  namespace: "@, p4.1) {
                        Some(p5) => Some(((p1.0, p2.0, p3.0, p4.0, p5.0), p5.1)),
                        None => None,
                    },
                    None => None,
                },
                None => None,
            },
            None => None,
        },
        None => None,
    }
}

pub open spec fn parse_chunk5(s: Seq<char>) -> Option<
    (
        (
            Option<Seq<char>>,
            Option<Seq<char>>,
            Option<Seq<char>>,
            Option<Seq<char>>,
            Option<Seq<char>>,
        ),
        Seq<char>,
    ),
> {
    match parse_opt_str_field("  srv_lookup: "@, s) {
        Some(p1) => match parse_opt_str_field("  mfa: "@, p1.1) {
            Some(p2) => match parse_opt_str_field("  http_proxy: "@, p2.1) {
                Some(p3) => match parse_opt_str_field("  proxy_addr: "@, p3.1) {
                    Some(p4) => match parse_word_field("  disable_redirects: "@, p4.1) {
                        Some(p5) => Some(((p1.0, p2.0, p3.0, p4.0, p5.0), p5.1)),
                        None => None,
                    },
                    None => None,
                },
                None => None,
            },
            None => None,
        },
        None => None,
    }
}

/// One whole record read back: the twenty-five lines in order, the
/// constrained fields' words resolved against their allowed sets.
pub open spec fn parse_record(s: Seq<char>) -> Option<(ConfigV, Seq<char>)> {
    match parse_chunk1(s) {
        Some(p1) => match parse_chunk2(p1.1) {
            Some(p2) => match parse_chunk3(p2.1) {
                Some(p3) => match parse_chunk4(p3.1) {
                    Some(p4) => match parse_chunk5(p4.1) {
                        Some(p5) => match (
                            opt_format_of_word((p3.0).0),
                            opt_log_level_of_word((p3.0).3),
                            opt_max_retries_of_word((p3.0).4),
                            opt_skip_verify_of_word((p4.0).1),
                            opt_cli_no_color_of_word((p4.0).2),
                            opt_disable_redirects_of_word((p5.0).4),
                        ) {
                            (Some(fmt), Some(ll), Some(mr), Some(sv), Some(cnc), Some(dr)) => Some(
                                (
                                    ConfigV {
                                        name: (p1.0).0,
                                        addr: (p1.0).1,
                                        token: (p1.0).2,
                                        cacert: (p1.0).3,
                                        tls_server_name: (p1.0).4,
                                        capath: (p2.0).0,
                                        client_cert: (p2.0).1,
                                        client_key: (p2.0).2,
                                        client_timeout: (p2.0).3,
                                        cluster_addr: (p2.0).4,
                                        format: fmt,
                                        license: (p3.0).1,
                                        license_path: (p3.0).2,
                                        log_level: ll,
                                        max_retries: mr,
                                        redirect_addr: (p4.0).0,
                                        skip_verify: sv,
                                        cli_no_color: cnc,
                                        rate_limit: (p4.0).3,
                                        namespace: (p4.0).4,
                                        srv_lookup: (p5.0).0,
                                        mfa: (p5.0).1,
                                        http_proxy: (p5.0).2,
                                        proxy_addr: (p5.0).3,
                                        disable_redirects: dr,
                                    },
                                    p5.1,
                                ),
                            ),
                            _ => None,
                        },
                        None => None,
                    },
                    None => None,
                },
                None => None,
            },
            None => None,
        },
        None => None,
    }
}

#[verifier::rlimit(60)]
pub proof fn lemma_chunk1_rt(c: ConfigV, rest: Seq<char>)
    ensures
        parse_chunk1(emit_chunk1(c) + rest) == Some(
            ((c.name, c.addr, c.token, c.cacert, c.tls_server_name), rest),
        ),
{
    let f2 = emit_str_field("  addr: "@, c.addr);
    let f3 = emit_str_field("  token: "@, c.token);
    let f4 = emit_opt_str_field("  cacert: "@, c.cacert);
    let f5 = emit_opt_str_field("  tls_server_name: "@, c.tls_server_name);
    assert(emit_chunk1(c) + rest =~= emit_str_field("- name: "@, c.name) + (f2 + (f3 + (f4 + (f5
        + rest)))));
    lemma_str_field_rt("- name: "@, c.name, f2 + (f3 + (f4 + (f5 + rest))));
    lemma_str_field_rt("  addr: "@, c.addr, f3 + (f4 + (f5 + rest)));
    lemma_str_field_rt("  token: "@, c.token, f4 + (f5 + rest));
    lemma_opt_str_field_rt("  cacert: "@, c.cacert, f5 + rest);
    lemma_opt_str_field_rt("  tls_server_name: "@, c.tls_server_name, rest);
}

#[verifier::rlimit(60)]
pub proof fn lemma_chunk2_rt(c: ConfigV, rest: Seq<char>)
    ensures
        parse_chunk2(emit_chunk2(c) + rest) == Some(
            ((c.capath, c.client_cert, c.client_key, c.client_timeout, c.cluster_addr), rest),
        ),
{
    let f2 = emit_opt_str_field("  client_cert: "@, c.client_cert);
    let f3 = emit_opt_str_field("  client_key: "@, c.client_key);
    let f4 = emit_opt_str_field("  client_timeout: "@, c.client_timeout);
    let f5 = emit_opt_str_field("  cluster_addr: "@, c.cluster_addr);
    assert(emit_chunk2(c) + rest =~= emit_opt_str_field("  capath: "@, c.capath) + (f2 + (f3 + (f4
        + (f5 + rest)))));
    lemma_opt_str_field_rt("  capath: "@, c.capath, f2 + (f3 + (f4 + (f5 + rest))));
    lemma_opt_str_field_rt("  client_cert: "@, c.client_cert, f3 + (f4 + (f5 + rest)));
    lemma_opt_str_field_rt("  client_key: "@, c.client_key, f4 + (f5 + rest));
    lemma_opt_str_field_rt("  client_timeout: "@, c.client_timeout, f5 + rest);
    lemma_opt_str_field_rt("  cluster_addr: "@, c.cluster_addr, rest);
}

#[verifier::rlimit(60)]
pub proof fn lemma_chunk3_rt(c: ConfigV, rest: Seq<char>)
    ensures
        parse_chunk3(emit_chunk3(c) + rest) == Some(
            (
                (
                    opt_format_word(c.format),
                    c.license,
                    c.license_path,
                    opt_log_level_word(c.log_level),
                    opt_max_retries_word(c.max_retries),
                ),
                rest,
            ),
        ),
{
    match c.format {
        Some(v) => lemma_format_word_facts(v),
        None => {},
    }
    match c.log_level {
        Some(v) => lemma_log_level_word_facts(v),
        None => {},
    }
    match c.max_retries {
        Some(v) => lemma_max_retries_word_facts(v),
        None => {},
    }
    let f2 = emit_opt_str_field("  license: "@, c.license);
    let f3 = emit_opt_str_field("  license_path: "@, c.license_path);
    let f4 = emit_word_field("  log_level: "@, opt_log_level_word(c.log_level));
    let f5 = emit_word_field("  max_retries: "@, opt_max_retries_word(c.max_retries));
    assert(emit_chunk3(c) + rest =~= emit_word_field("  format: "@, opt_format_word(c.format)) + (
    f2 + (f3 + (f4 + (f5 + rest)))));
    lemma_word_field_rt("  format: "@, opt_format_word(c.format), f2 + (f3 + (f4 + (f5 + rest))));
    lemma_opt_str_field_rt("  license: "@, c.license, f3 + (f4 + (f5 + rest)));
    lemma_opt_str_field_rt("  license_path: "@, c.license_path, f4 + (f5 + rest));
    lemma_word_field_rt("  log_level: "@, opt_log_level_word(c.log_level), f5 + rest);
    lemma_word_field_rt("  max_retries: "@, opt_max_retries_word(c.max_retries), rest);
}

#[verifier::rlimit(60)]
pub proof fn lemma_chunk4_rt(c: ConfigV, rest: Seq<char>)
    ensures
        parse_chunk4(emit_chunk4(c) + rest) == Some(
            (
                (
                    c.redirect_addr,
                    opt_skip_verify_word(c.skip_verify),
                    opt_cli_no_color_word(c.cli_no_color),
                    c.rate_limit,
                    c.namespace,
                ),
                rest,
            ),
        ),
{
    match c.skip_verify {
        Some(v) => lemma_skip_verify_word_facts(v),
        None => {},
    }
    match c.cli_no_color {
        Some(v) => lemma_cli_no_color_word_facts(v),
        None => {},
    }
    let f2 = emit_word_field("  skip_verify: "@, opt_skip_verify_word(c.skip_verify));
    let f3 = emit_word_field("  cli_no_color: "@, opt_cli_no_color_word(c.cli_no_color));
    let f4 = emit_opt_str_field("  rate_limit: "@, c.rate_limit);
    let f5 = emit_opt_str_field("  namespace: "@, c.namespace);
    assert(emit_chunk4(c) + rest =~= emit_opt_str_field("  redirect_addr: "@, c.redirect_addr) + (
    f2 + (f3 + (f4 + (f5 + rest)))));
    lemma_opt_str_field_rt("  redirect_addr: "@, c.redirect_addr, f2 + (f3 + (f4 + (f5 + rest))));
    lemma_word_field_rt("  skip_verify: "@, opt_skip_verify_word(c.skip_verify), f3 + (f4 + (f5
        + rest)));
    lemma_word_field_rt("  cli_no_color: "@, opt_cli_no_color_word(c.cli_no_color), f4 + (f5
        + rest));
    lemma_opt_str_field_rt("  rate_limit: "@, c.rate_limit, f5 + rest);
    lemma_opt_str_field_rt("  namespace: "@, c.namespace, rest);
}

#[verifier::rlimit(60)]
pub proof fn lemma_chunk5_rt(c: ConfigV, rest: Seq<char>)
    ensures
        parse_chunk5(emit_chunk5(c) + rest) == Some(
            (
                (
                    c.srv_lookup,
                    c.mfa,
                    c.http_proxy,
                    c.proxy_addr,
                    opt_disable_redirects_word(c.disable_redirects),
                ),
                rest,
            ),
        ),
{
    match c.disable_redirects {
        Some(v) => lemma_disable_redirects_word_facts(v),
        None => {},
    }
    let f2 = emit_opt_str_field("  mfa: "@, c.mfa);
    let f3 = emit_opt_str_field("  http_proxy: "@, c.http_proxy);
    let f4 = emit_opt_str_field("  proxy_addr: "@, c.proxy_addr);
    let f5 = emit_word_field(
        "  disable_redirects: "@,
        opt_disable_redirects_word(c.disable_redirects),
    );
    assert(emit_chunk5(c) + rest =~= emit_opt_str_field("  srv_lookup: "@, c.srv_lookup) + (f2 + (
    f3 + (f4 + (f5 + rest)))));
    lemma_opt_str_field_rt("  srv_lookup: "@, c.srv_lookup, f2 + (f3 + (f4 + (f5 + rest))));
    lemma_opt_str_field_rt("  mfa: "@, c.mfa, f3 + (f4 + (f5 + rest)));
    lemma_opt_str_field_rt("  http_proxy: "@, c.http_proxy, f4 + (f5 + rest));
    lemma_opt_str_field_rt("  proxy_addr: "@, c.proxy_addr, f5 + rest);
    lemma_word_field_rt(
        "  disable_redirects: "@,
        opt_disable_redirects_word(c.disable_redirects),
        rest,
    );
}

/// Emitting a record and parsing it back gives the record, whatever
/// its field values hold, and leaves the rest of the text untouched.
#[verifier::rlimit(80)]
pub proof fn lemma_record_rt(c: ConfigV, rest: Seq<char>)
    ensures
        parse_record(emit_record(c) + rest) == Some((c, rest)),
{
    let c2 = emit_chunk2(c);
    let c3 = emit_chunk3(c);
    let c4 = emit_chunk4(c);
    let c5 = emit_chunk5(c);
    assert(emit_record(c) + rest =~= emit_chunk1(c) + (c2 + (c3 + (c4 + (c5 + rest)))));
    lemma_chunk1_rt(c, c2 + (c3 + (c4 + (c5 + rest))));
    lemma_chunk2_rt(c, c3 + (c4 + (c5 + rest)));
    lemma_chunk3_rt(c, c4 + (c5 + rest));
    lemma_chunk4_rt(c, c5 + rest);
    lemma_chunk5_rt(c, rest);
    match c.format {
        Some(v) => lemma_format_word_facts(v),
        None => {},
    }
    match c.log_level {
        Some(v) => lemma_log_level_word_facts(v),
        None => {},
    }
    match c.max_retries {
        Some(v) => lemma_max_retries_word_facts(v),
        None => {},
    }
    match c.skip_verify {
        Some(v) => lemma_skip_verify_word_facts(v),
        None => {},
    }
    match c.cli_no_color {
        Some(v) => lemma_cli_no_color_word_facts(v),
        None => {},
    }
    match c.disable_redirects {
        Some(v) => lemma_disable_redirects_word_facts(v),
        None => {},
    }
    assert(opt_format_of_word(opt_format_word(c.format)) == Some(c.format));
    assert(opt_log_level_of_word(opt_log_level_word(c.log_level)) == Some(c.log_level));
    assert(opt_max_retries_of_word(opt_max_retries_word(c.max_retries)) == Some(c.max_retries));
    assert(opt_skip_verify_of_word(opt_skip_verify_word(c.skip_verify)) == Some(c.skip_verify));
    assert(opt_cli_no_color_of_word(opt_cli_no_color_word(c.cli_no_color)) == Some(c.cli_no_color));
    assert(opt_disable_redirects_of_word(opt_disable_redirects_word(c.disable_redirects)) == Some(
        c.disable_redirects,
    ));
    let parsed = parse_record(emit_record(c) + rest);
    assert(parsed is Some);
    assert((parsed->0).0 =~= c);
    assert((parsed->0).1 == rest);
}

pub proof fn lemma_chunk1_len(s: Seq<char>)
    ensures
        match parse_chunk1(s) {
            Some(p) => p.1.len() < s.len(),
            None => true,
        },
{
    match parse_str_field("- name: "@, s) {
        Some(p1) => {
            lemma_str_field_len("- name: "@, s);
            match parse_str_field("  addr: "@, p1.1) {
                Some(p2) => {
                    lemma_str_field_len("  addr: "@, p1.1);
                    match parse_str_field("  token: "@, p2.1) {
                        Some(p3) => {
                            lemma_str_field_len("  token: "@, p2.1);
                            match parse_opt_str_field("  cacert: "@, p3.1) {
                                Some(p4) => {
                                    lemma_opt_str_field_len("  cacert: "@, p3.1);
                                    lemma_opt_str_field_len("  tls_server_name: "@, p4.1);
                                },
                                None => {},
                            }
                        },
                        None => {},
                    }
                },
                None => {},
            }
        },
        None => {},
    }
}

pub proof fn lemma_chunk2_len(s: Seq<char>)
    ensures
        match parse_chunk2(s) {
            Some(p) => p.1.len() < s.len(),
            None => true,
        },
{
    match parse_opt_str_field("  capath: "@, s) {
        Some(p1) => {
            lemma_opt_str_field_len("  capath: "@, s);
            match parse_opt_str_field("  client_cert: "@, p1.1) {
                Some(p2) => {
                    lemma_opt_str_field_len("  client_cert: "@, p1.1);
                    match parse_opt_str_field("  client_key: "@, p2.1) {
                        Some(p3) => {
                            lemma_opt_str_field_len("  client_key: "@, p2.1);
                            match parse_opt_str_field("  client_timeout: "@, p3.1) {
                                Some(p4) => {
                                    lemma_opt_str_field_len("  client_timeout: "@, p3.1);
                                    lemma_opt_str_field_len("  cluster_addr: "@, p4.1);
                                },
                                None => {},
                            }
                        },
                        None => {},
                    }
                },
                None => {},
            }
        },
        None => {},
    }
}

pub proof fn lemma_chunk3_len(s: Seq<char>)
    ensures
        match parse_chunk3(s) {
            Some(p) => p.1.len() < s.len(),
            None => true,
        },
{
    match parse_word_field("  format: "@, s) {
        Some(p1) => {
            lemma_word_field_len("  format: "@, s);
            match parse_opt_str_field("  license: "@, p1.1) {
                Some(p2) => {
                    lemma_opt_str_field_len("  license: "@, p1.1);
                    match parse_opt_str_field("  license_path: "@, p2.1) {
                        Some(p3) => {
                            lemma_opt_str_field_len("  license_path: "@, p2.1);
                            match parse_word_field("  log_level: "@, p3.1) {
                                Some(p4) => {
                                    lemma_word_field_len("  log_level: "@, p3.1);
                                    lemma_word_field_len("  max_retries: "@, p4.1);
                                },
                                None => {},
                            }
                        },
                        None => {},
                    }
                },
                None => {},
            }
        },
        None => {},
    }
}

pub proof fn lemma_chunk4_len(s: Seq<char>)
    ensures
        match parse_chunk4(s) {
            Some(p) => p.1.len() < s.len(),
            None => true,
        },
{
    match parse_opt_str_field("  redirect_addr: "@, s) {
        Some(p1) => {
            lemma_opt_str_field_len("  redirect_addr: "@, s);
            match parse_word_field("  skip_verify: "@, p1.1) {
                Some(p2) => {
                    lemma_word_field_len("  skip_verify: "@, p1.1);
                    match parse_word_field("  cli_no_color: "@, p2.1) {
                        Some(p3) => {
                            lemma_word_field_len("  cli_no_color: "@, p2.1);
                            match parse_opt_str_field("  rate_limit: "@, p3.1) {
                                Some(p4) => {
                                    lemma_opt_str_field_len("  rate_limit: "@, p3.1);
                                    lemma_opt_str_field_len("  namespace: "@, p4.1);
                                },
                                None => {},
                            }
                        },
                        None => {},
                    }
                },
                None => {},
            }
        },
        None => {},
    }
}

pub proof fn lemma_chunk5_len(s: Seq<char>)
    ensures
        match parse_chunk5(s) {
            Some(p) => p.1.len() < s.len(),
            None => true,
        },
{
    match parse_opt_str_field("  srv_lookup: "@, s) {
        Some(p1) => {
            lemma_opt_str_field_len("  srv_lookup: "@, s);
            match parse_opt_str_field("  mfa: "@, p1.1) {
                Some(p2) => {
                    lemma_opt_str_field_len("  mfa: "@, p1.1);
                    match parse_opt_str_field("  http_proxy: "@, p2.1) {
                        Some(p3) => {
                            lemma_opt_str_field_len("  http_proxy: "@, p2.1);
                            match parse_opt_str_field("  proxy_addr: "@, p3.1) {
                                Some(p4) => {
                                    lemma_opt_str_field_len("  proxy_addr: "@, p3.1);
                                    lemma_word_field_len("  disable_redirects: "@, p4.1);
                                },
                                None => {},
                            }
                        },
                        None => {},
                    }
                },
                None => {},
            }
        },
        None => {},
    }
}

/// A successful record parse always consumes text.
pub proof fn lemma_record_len(s: Seq<char>)
    ensures
        match parse_record(s) {
            Some(p) => p.1.len() < s.len(),
            None => true,
        },
{
    match parse_chunk1(s) {
        Some(p1) => {
            lemma_chunk1_len(s);
            match parse_chunk2(p1.1) {
                Some(p2) => {
                    lemma_chunk2_len(p1.1);
                    match parse_chunk3(p2.1) {
                        Some(p3) => {
                            lemma_chunk3_len(p2.1);
                            match parse_chunk4(p3.1) {
                                Some(p4) => {
                                    lemma_chunk4_len(p3.1);
                                    lemma_chunk5_len(p4.1);
                                },
                                None => {},
                            }
                        },
                        None => {},
                    }
                },
                None => {},
            }
        },
        None => {},
    }
}

/// The whole store document: the records in order, nothing else.
pub open spec fn emit_doc(cs: Seq<ConfigV>) -> Seq<char>
    decreases cs.len(),
{
    if cs.len() == 0 {
        Seq::empty()
    } else {
        emit_record(cs[0]) + emit_doc(cs.skip(1))
    }
}

/// The whole store document read back.  Empty text is the empty store;
/// anything the record grammar does not cover is rejected.  A record
/// never parses to nothing, so the guard on the leftover length only
/// bounds the recursion.
pub open spec fn parse_doc(s: Seq<char>) -> Option<Seq<ConfigV>>
    decreases s.len(),
{
    if s.len() == 0 {
        Some(Seq::empty())
    } else {
        match parse_record(s) {
            Some(p) => if p.1.len() < s.len() {
                match parse_doc(p.1) {
                    Some(cs) => Some(seq![p.0] + cs),
                    None => None,
                }
            } else {
                None
            },
            None => None,
        }
    }
}

/// Saving any sequence of profiles and reading the text back yields
/// the same sequence: the store round-trips, field for field.
pub proof fn lemma_doc_round_trip(cs: Seq<ConfigV>)
    ensures
        parse_doc(emit_doc(cs)) == Some(cs),
    decreases cs.len(),
{
    if cs.len() != 0 {
        let rest = emit_doc(cs.skip(1));
        lemma_record_rt(cs[0], rest);
        lemma_doc_round_trip(cs.skip(1));
        let s = emit_record(cs[0]) + rest;
        assert(emit_record(cs[0]).len() > 0);
        assert(seq![cs[0]] + cs.skip(1) =~= cs);
    }
}

/// Escaping distributes over concatenation.
pub proof fn lemma_escape_concat(a: Seq<char>, b: Seq<char>)
    ensures
        escape(a + b) == escape(a) + escape(b),
    decreases a.len(),
{
    if a.len() == 0 {
        assert(a + b =~= b);
        assert(escape(a) + escape(b) =~= escape(b));
    } else {
        lemma_escape_concat(a.skip(1), b);
        assert((a + b)[0] == a[0]);
        assert((a + b).skip(1) =~= a.skip(1) + b);
        assert(esc_char(a[0]) + (escape(a.skip(1)) + escape(b)) =~= (esc_char(a[0]) + escape(
            a.skip(1),
        )) + escape(b));
    }
}

fn push_newline(out: &mut String)
    ensures
        final(out)@ == old(out)@ + seq!['\n'],
{
    out.append("\n");
    proof {
        reveal_strlit("\n");
        assert("\n"@ =~= seq!['\n']);
    }
}

fn push_quote(out: &mut String)
    ensures
        final(out)@ == old(out)@ + seq!['\''],
{
    out.append("'");
    proof {
        reveal_strlit("'");
        assert("'"@ =~= seq!['\'']);
    }
}

fn push_quoted(out: &mut String, v: &str)
    ensures
        final(out)@ == old(out)@ + quoted(v@),
{
    push_quote(out);
    let n = v.unicode_len();
    let mut i: usize = 0;
    while i < n
        invariant
            n == v@.len(),
            i <= n,
            out@ == old(out)@ + seq!['\''] + escape(v@.take(i as int)),
        decreases n - i,
    {
        let ghost before = v@.take(i as int);
        let c = v.get_char(i);
        if c == '\'' {
            out.append("''");
            proof {
                reveal_strlit("''");
                assert("''"@ =~= seq!['\'', '\'']);
            }
        } else {
            let piece = v.substring_char(i, i + 1);
            out.append(piece);
            proof {
                assert(piece@ =~= seq![c]);
            }
        }
        proof {
            assert(v@.take(i + 1) =~= before + seq![c]);
            lemma_escape_concat(before, seq![c]);
            assert(seq![c].skip(1) =~= Seq::<char>::empty());
            assert(escape(Seq::<char>::empty()) =~= Seq::<char>::empty());
            assert(escape(seq![c]) =~= esc_char(c));
            assert(out@ =~= old(out)@ + seq!['\''] + escape(v@.take(i + 1)));
        }
        i = i + 1;
    }
    push_quote(out);
    proof {
        assert(v@.take(n as int) =~= v@);
        assert(out@ =~= old(out)@ + quoted(v@));
    }
}

fn push_str_field(out: &mut String, prefix: &str, v: &str)
    ensures
        final(out)@ == old(out)@ + emit_str_field(prefix@, v@),
{
    out.append(prefix);
    push_quoted(out, v);
    push_newline(out);
    proof {
        assert(out@ =~= old(out)@ + emit_str_field(prefix@, v@));
    }
}

fn push_null_field(out: &mut String, prefix: &str)
    ensures
        final(out)@ == old(out)@ + prefix@ + null_word() + seq!['\n'],
{
    out.append(prefix);
    out.append("null");
    push_newline(out);
    proof {
        assert(out@ =~= old(out)@ + prefix@ + null_word() + seq!['\n']);
    }
}

fn push_opt_str_field(out: &mut String, prefix: &str, v: &Option<String>)
    ensures
        final(out)@ == old(out)@ + emit_opt_str_field(prefix@, v.deep_view()),
{
    match v {
        Some(x) => push_str_field(out, prefix, x.as_str()),
        None => {
            push_null_field(out, prefix);
            proof {
                assert(out@ =~= old(out)@ + emit_opt_str_field(prefix@, v.deep_view()));
            }
        },
    }
}

fn push_word_field(out: &mut String, prefix: &str, w: Option<&str>)
    ensures
        final(out)@ == old(out)@ + emit_word_field(
            prefix@,
            match w {
                Some(x) => Some(x@),
                None => None,
            },
        ),
{
    match w {
        Some(x) => {
            out.append(prefix);
            out.append(x);
            push_newline(out);
            proof {
                assert(out@ =~= old(out)@ + emit_word_field(prefix@, Some(x@)));
            }
        },
        None => {
            push_null_field(out, prefix);
            proof {
                assert(out@ =~= old(out)@ + emit_word_field(prefix@, None::<Seq<char>>));
            }
        },
    }
}

#[verifier::rlimit(60)]
fn push_chunk1(out: &mut String, c: &Config)
    ensures
        final(out)@ == old(out)@ + emit_chunk1(c@),
{
    push_str_field(out, "- name: ", c.name.as_str());
    push_str_field(out, "  addr: ", c.addr.as_str());
    push_str_field(out, "  token: ", c.token.as_str());
    push_opt_str_field(out, "  cacert: ", &c.cacert);
    push_opt_str_field(out, "  tls_server_name: ", &c.tls_server_name);
    proof {
        assert(out@ =~= old(out)@ + emit_chunk1(c@));
    }
}

#[verifier::rlimit(60)]
fn push_chunk2(out: &mut String, c: &Config)
    ensures
        final(out)@ == old(out)@ + emit_chunk2(c@),
{
    push_opt_str_field(out, "  capath: ", &c.capath);
    push_opt_str_field(out, "  client_cert: ", &c.client_cert);
    push_opt_str_field(out, "  client_key: ", &c.client_key);
    push_opt_str_field(out, "  client_timeout: ", &c.client_timeout);
    push_opt_str_field(out, "  cluster_addr: ", &c.cluster_addr);
    proof {
        assert(out@ =~= old(out)@ + emit_chunk2(c@));
    }
}

#[verifier::rlimit(60)]
fn push_chunk3(out: &mut String, c: &Config)
    ensures
        final(out)@ == old(out)@ + emit_chunk3(c@),
{
    push_word_field(
        out,
        "  format: ",
        match &c.format {
            Some(v) => Some(v.storage_word()),
            None => None,
        },
    );
    push_opt_str_field(out, "  license: ", &c.license);
    push_opt_str_field(out, "  license_path: ", &c.license_path);
    push_word_field(
        out,
        "  log_level: ",
        match &c.log_level {
            Some(v) => Some(v.storage_word()),
            None => None,
        },
    );
    push_word_field(
        out,
        "  max_retries: ",
        match &c.max_retries {
            Some(v) => Some(v.storage_word()),
            None => None,
        },
    );
    proof {
        assert(out@ =~= old(out)@ + emit_chunk3(c@));
    }
}

#[verifier::rlimit(60)]
fn push_chunk4(out: &mut String, c: &Config)
    ensures
        final(out)@ == old(out)@ + emit_chunk4(c@),
{
    push_opt_str_field(out, "  redirect_addr: ", &c.redirect_addr);
    push_word_field(
        out,
        "  skip_verify: ",
        match &c.skip_verify {
            Some(v) => Some(v.storage_word()),
            None => None,
        },
    );
    push_word_field(
        out,
        "  cli_no_color: ",
        match &c.cli_no_color {
            Some(v) => Some(v.storage_word()),
            None => None,
        },
    );
    push_opt_str_field(out, "  rate_limit: ", &c.rate_limit);
    push_opt_str_field(out, "  namespace: ", &c.namespace);
    proof {
        assert(out@ =~= old(out)@ + emit_chunk4(c@));
    }
}

#[verifier::rlimit(60)]
fn push_chunk5(out: &mut String, c: &Config)
    ensures
        final(out)@ == old(out)@ + emit_chunk5(c@),
{
    push_opt_str_field(out, "  srv_lookup: ", &c.srv_lookup);
    push_opt_str_field(out, "  mfa: ", &c.mfa);
    push_opt_str_field(out, "  http_proxy: ", &c.http_proxy);
    push_opt_str_field(out, "  proxy_addr: ", &c.proxy_addr);
    push_word_field(
        out,
        "  disable_redirects: ",
        match &c.disable_redirects {
            Some(v) => Some(v.storage_word()),
            None => None,
        },
    );
    proof {
        assert(out@ =~= old(out)@ + emit_chunk5(c@));
    }
}

fn push_record(out: &mut String, c: &Config)
    ensures
        final(out)@ == old(out)@ + emit_record(c@),
{
    push_chunk1(out, c);
    push_chunk2(out, c);
    push_chunk3(out, c);
    push_chunk4(out, c);
    push_chunk5(out, c);
    proof {
        assert(out@ =~= old(out)@ + emit_record(c@));
    }
}

/// Emitting distributes over splitting the profile list.
#[verifier::rlimit(60)]
pub proof fn lemma_emit_doc_concat(a: Seq<ConfigV>, b: Seq<ConfigV>)
    ensures
        emit_doc(a + b) == emit_doc(a) + emit_doc(b),
    decreases a.len(),
{
    if a.len() == 0 {
        assert(a + b =~= b);
        assert(emit_doc(a) + emit_doc(b) =~= emit_doc(b));
    } else {
        lemma_emit_doc_concat(a.skip(1), b);
        assert((a + b)[0] == a[0]);
        assert((a + b).skip(1) =~= a.skip(1) + b);
        assert(emit_record(a[0]) + (emit_doc(a.skip(1)) + emit_doc(b)) =~= (emit_record(a[0])
            + emit_doc(a.skip(1))) + emit_doc(b));
    }
}

/// Writes the whole store as one document, exactly `emit_doc`.
pub fn save_store(configs: &Vec<Config>) -> (r: String)
    ensures
        r@ == emit_doc(configs.deep_view()),
{
    let ghost cs = configs.deep_view();
    let mut out = String::new();
    let n = configs.len();
    let mut i: usize = 0;
    proof {
        assert(cs.take(0) =~= Seq::<ConfigV>::empty());
        assert(out@ =~= emit_doc(cs.take(0)));
    }
    while i < n
        invariant
            n == configs.len(),
            i <= n,
            cs == configs.deep_view(),
            out@ == emit_doc(cs.take(i as int)),
        decreases n - i,
    {
        push_record(&mut out, &configs[i]);
        proof {
            assert(cs.take(i + 1) =~= cs.take(i as int) + seq![cs[i as int]]);
            lemma_emit_doc_concat(cs.take(i as int), seq![cs[i as int]]);
            assert(emit_doc(seq![cs[i as int]].skip(1)) =~= emit_doc(Seq::<ConfigV>::empty()));
            assert(emit_doc(seq![cs[i as int]]) =~= emit_record(cs[i as int]));
        }
        i = i + 1;
    }
    proof {
        assert(cs.take(n as int) =~= cs);
    }
    out
}

/// A scanned value with the scanner's leftover text, prefixed by what
/// an enclosing scan had already gathered.
pub open spec fn scan_prepend(a: Seq<char>, r: Option<(Seq<char>, Seq<char>)>) -> Option<
    (Seq<char>, Seq<char>),
> {
    match r {
        Some(p) => Some((a + p.0, p.1)),
        None => None,
    }
}

fn scan_quoted_at(s: &str, i: usize, n: usize) -> (r: Option<(String, usize)>)
    requires
        n == s@.len(),
        i <= n,
    ensures
        match r {
            Some(p) => p.1 <= n && scan_quoted(s@.skip(i as int)) == Some(
                (p.0@, s@.skip(p.1 as int)),
            ),
            None => scan_quoted(s@.skip(i as int)) is None,
        },
{
    let mut acc = String::new();
    let mut k: usize = i;
    proof {
        match scan_quoted(s@.skip(i as int)) {
            Some(p) => {
                assert(Seq::<char>::empty() + p.0 =~= p.0);
            },
            None => {},
        }
    }
    loop
        invariant
            n == s@.len(),
            i <= k <= n,
            scan_quoted(s@.skip(i as int)) == scan_prepend(acc@, scan_quoted(s@.skip(k as int))),
        decreases n - k,
    {
        if k == n {
            proof {
                assert(s@.skip(k as int) =~= Seq::<char>::empty());
            }
            return None;
        }
        let c = s.get_char(k);
        proof {
            assert(s@.skip(k as int)[0] == s@[k as int]);
        }
        if c == '\'' {
            if k + 1 < n && s.get_char(k + 1) == '\'' {
                let ghost before = acc@;
                acc.append("'");
                proof {
                    reveal_strlit("'");
                    assert("'"@ =~= seq!['\'']);
                    assert(s@.skip(k as int)[1] == s@[k + 1]);
                    assert(s@.skip(k as int).skip(2) =~= s@.skip(k + 2));
                    match scan_quoted(s@.skip(k + 2)) {
                        Some(p) => {
                            assert(before + (seq!['\''] + p.0) =~= acc@ + p.0);
                        },
                        None => {},
                    }
                }
                k = k + 2;
            } else {
                proof {
                    if k + 1 < n {
                        assert(s@.skip(k as int)[1] == s@[k + 1]);
                    }
                    assert(s@.skip(k as int).skip(1) =~= s@.skip(k + 1));
                    assert(acc@ + Seq::<char>::empty() =~= acc@);
                }
                return Some((acc, k + 1));
            }
        } else {
            let ghost before = acc@;
            let piece = s.substring_char(k, k + 1);
            acc.append(piece);
            proof {
                assert(piece@ =~= seq![s@[k as int]]);
                assert(s@.skip(k as int).skip(1) =~= s@.skip(k + 1));
                match scan_quoted(s@.skip(k + 1)) {
                    Some(p) => {
                        assert(before + (seq![s@[k as int]] + p.0) =~= acc@ + p.0);
                    },
                    None => {},
                }
            }
            k = k + 1;
        }
    }
}

fn take_line_at(s: &str, i: usize, n: usize) -> (r: Option<(String, usize)>)
    requires
        n == s@.len(),
        i <= n,
    ensures
        match r {
            Some(p) => p.1 <= n && take_line(s@.skip(i as int)) == Some(
                (p.0@, s@.skip(p.1 as int)),
            ),
            None => take_line(s@.skip(i as int)) is None,
        },
{
    let mut j: usize = i;
    while j < n && s.get_char(j) != '\n'
        invariant
            n == s@.len(),
            i <= j <= n,
            forall|t: int| i <= t < j ==> s@[t] != '\n',
        decreases n - j,
    {
        j = j + 1;
    }
    let ghost u = s@.skip(i as int);
    if j == n {
        proof {
            assert forall|t: int| 0 <= t < u.len() implies u[t] != '\n' by {
                assert(u[t] == s@[i + t]);
            }
            lemma_take_line_none(u);
        }
        return None;
    }
    let w = s.substring_char(i, j);
    proof {
        assert(u[j - i as int] == s@[j as int]);
        assert forall|t: int| 0 <= t < j - i implies u[t] != '\n' by {
            assert(u[t] == s@[i + t]);
        }
        lemma_take_line_at(u, j - i as int);
        assert(w@ =~= u.take(j - i as int));
        assert(u.skip(j - i + 1) =~= s@.skip(j + 1));
    }
    Some((String::from_str(w), j + 1))
}

fn expect_lit(s: &str, i: usize, n: usize, lit: &str) -> (r: Option<usize>)
    requires
        n == s@.len(),
        i <= n,
    ensures
        match r {
            Some(j) => i <= j <= n && parse_lit(lit@, s@.skip(i as int)) == Some(
                s@.skip(j as int),
            ),
            None => parse_lit(lit@, s@.skip(i as int)) is None,
        },
{
    let m = lit.unicode_len();
    if m > n - i {
        return None;
    }
    let mut t: usize = 0;
    while t < m
        invariant
            n == s@.len(),
            m == lit@.len(),
            i + m <= n,
            t <= m,
            forall|q: int| 0 <= q < t ==> s@[i + q] == lit@[q],
        decreases m - t,
    {
        if s.get_char(i + t) != lit.get_char(t) {
            proof {
                let u = s@.skip(i as int);
                assert(u.subrange(0, m as int)[t as int] == s@[i + t]);
            }
            return None;
        }
        t = t + 1;
    }
    proof {
        let u = s@.skip(i as int);
        assert(u.subrange(0, m as int) =~= lit@);
        assert(u.skip(m as int) =~= s@.skip(i + m));
    }
    Some(i + m)
}

fn parse_str_field_at(s: &str, i: usize, n: usize, prefix: &str) -> (r: Option<(String, usize)>)
    requires
        n == s@.len(),
        i <= n,
    ensures
        match r {
            Some(p) => p.1 <= n && parse_str_field(prefix@, s@.skip(i as int)) == Some(
                (p.0@, s@.skip(p.1 as int)),
            ),
            None => parse_str_field(prefix@, s@.skip(i as int)) is None,
        },
{
    let j1 = match expect_lit(s, i, n, prefix) {
        Some(j) => j,
        None => {
            return None;
        },
    };
    if j1 == n {
        return None;
    }
    proof {
        assert(s@.skip(j1 as int)[0] == s@[j1 as int]);
    }
    if s.get_char(j1) != '\'' {
        return None;
    }
    proof {
        assert(s@.skip(j1 as int).skip(1) =~= s@.skip(j1 + 1));
    }
    let (v, j2) = match scan_quoted_at(s, j1 + 1, n) {
        Some(p) => p,
        None => {
            return None;
        },
    };
    if j2 == n {
        return None;
    }
    proof {
        assert(s@.skip(j2 as int)[0] == s@[j2 as int]);
    }
    if s.get_char(j2) != '\n' {
        return None;
    }
    proof {
        assert(s@.skip(j2 as int).skip(1) =~= s@.skip(j2 + 1));
    }
    Some((v, j2 + 1))
}

fn parse_opt_str_field_at(s: &str, i: usize, n: usize, prefix: &str) -> (r: Option<
    (Option<String>, usize),
>)
    requires
        n == s@.len(),
        i <= n,
    ensures
        match r {
            Some(p) => p.1 <= n && parse_opt_str_field(prefix@, s@.skip(i as int)) == Some(
                (p.0.deep_view(), s@.skip(p.1 as int)),
            ),
            None => parse_opt_str_field(prefix@, s@.skip(i as int)) is None,
        },
{
    let j1 = match expect_lit(s, i, n, prefix) {
        Some(j) => j,
        None => {
            return None;
        },
    };
    proof {
        if j1 < n {
            assert(s@.skip(j1 as int)[0] == s@[j1 as int]);
        }
    }
    if j1 < n && s.get_char(j1) == '\'' {
        proof {
            assert(s@.skip(j1 as int).skip(1) =~= s@.skip(j1 + 1));
        }
        let (v, j2) = match scan_quoted_at(s, j1 + 1, n) {
            Some(p) => p,
            None => {
                return None;
            },
        };
        if j2 == n {
            return None;
        }
        proof {
            assert(s@.skip(j2 as int)[0] == s@[j2 as int]);
        }
        if s.get_char(j2) != '\n' {
            return None;
        }
        proof {
            assert(s@.skip(j2 as int).skip(1) =~= s@.skip(j2 + 1));
        }
        return Some((Some(v), j2 + 1));
    }
    let (w, j2) = match take_line_at(s, j1, n) {
        Some(p) => p,
        None => {
            return None;
        },
    };
    if str_eq(w.as_str(), "null") {
        return Some((None, j2));
    }
    None
}

fn parse_word_field_at(s: &str, i: usize, n: usize, prefix: &str) -> (r: Option<
    (Option<String>, usize),
>)
    requires
        n == s@.len(),
        i <= n,
    ensures
        match r {
            Some(p) => p.1 <= n && parse_word_field(prefix@, s@.skip(i as int)) == Some(
                (p.0.deep_view(), s@.skip(p.1 as int)),
            ),
            None => parse_word_field(prefix@, s@.skip(i as int)) is None,
        },
{
    let j1 = match expect_lit(s, i, n, prefix) {
        Some(j) => j,
        None => {
            return None;
        },
    };
    let (w, j2) = match take_line_at(s, j1, n) {
        Some(p) => p,
        None => {
            return None;
        },
    };
    if str_eq(w.as_str(), "null") {
        return Some((None, j2));
    }
    if w.unicode_len() > 0 {
        return Some((Some(w), j2));
    }
    None
}

fn parse_chunk1_at(s: &str, i: usize, n: usize) -> (r: Option<
    (String, String, String, Option<String>, Option<String>, usize),
>)
    requires
        n == s@.len(),
        i <= n,
    ensures
        match r {
            Some(p) => p.5 <= n && parse_chunk1(s@.skip(i as int)) == Some(
                ((p.0@, p.1@, p.2@, p.3.deep_view(), p.4.deep_view()), s@.skip(p.5 as int)),
            ),
            None => parse_chunk1(s@.skip(i as int)) is None,
        },
{
    let (name, j1) = match parse_str_field_at(s, i, n, "- name: ") {
        Some(p) => p,
        None => {
            return None;
        },
    };
    let (addr, j2) = match parse_str_field_at(s, j1, n, "  addr: ") {
        Some(p) => p,
        None => {
            return None;
        },
    };
    let (token, j3) = match parse_str_field_at(s, j2, n, "  token: ") {
        Some(p) => p,
        None => {
            return None;
        },
    };
    let (cacert, j4) = match parse_opt_str_field_at(s, j3, n, "  cacert: ") {
        Some(p) => p,
        None => {
            return None;
        },
    };
    let (tls_server_name, j5) = match parse_opt_str_field_at(s, j4, n, "  tls_server_name: ") {
        Some(p) => p,
        None => {
            return None;
        },
    };
    Some((name, addr, token, cacert, tls_server_name, j5))
}

fn parse_chunk2_at(s: &str, i: usize, n: usize) -> (r: Option<
    (Option<String>, Option<String>, Option<String>, Option<String>, Option<String>, usize),
>)
    requires
        n == s@.len(),
        i <= n,
    ensures
        match r {
            Some(p) => p.5 <= n && parse_chunk2(s@.skip(i as int)) == Some(
                (
                    (
                        p.0.deep_view(),
                        p.1.deep_view(),
                        p.2.deep_view(),
                        p.3.deep_view(),
                        p.4.deep_view(),
                    ),
                    s@.skip(p.5 as int),
                ),
            ),
            None => parse_chunk2(s@.skip(i as int)) is None,
        },
{
    let (capath, j1) = match parse_opt_str_field_at(s, i, n, "  capath: ") {
        Some(p) => p,
        None => {
            return None;
        },
    };
    let (client_cert, j2) = match parse_opt_str_field_at(s, j1, n, "  client_cert: ") {
        Some(p) => p,
        None => {
            return None;
        },
    };
    let (client_key, j3) = match parse_opt_str_field_at(s, j2, n, "  client_key: ") {
        Some(p) => p,
        None => {
            return None;
        },
    };
    let (client_timeout, j4) = match parse_opt_str_field_at(s, j3, n, "  client_timeout: ") {
        Some(p) => p,
        None => {
            return None;
        },
    };
    let (cluster_addr, j5) = match parse_opt_str_field_at(s, j4, n, "  cluster_addr: ") {
        Some(p) => p,
        None => {
            return None;
        },
    };
    Some((capath, client_cert, client_key, client_timeout, cluster_addr, j5))
}

fn parse_chunk3_at(s: &str, i: usize, n: usize) -> (r: Option<
    (Option<String>, Option<String>, Option<String>, Option<String>, Option<String>, usize),
>)
    requires
        n == s@.len(),
        i <= n,
    ensures
        match r {
            Some(p) => p.5 <= n && parse_chunk3(s@.skip(i as int)) == Some(
                (
                    (
                        p.0.deep_view(),
                        p.1.deep_view(),
                        p.2.deep_view(),
                        p.3.deep_view(),
                        p.4.deep_view(),
                    ),
                    s@.skip(p.5 as int),
                ),
            ),
            None => parse_chunk3(s@.skip(i as int)) is None,
        },
{
    let (format_w, j1) = match parse_word_field_at(s, i, n, "  format: ") {
        Some(p) => p,
        None => {
            return None;
        },
    };
    let (license, j2) = match parse_opt_str_field_at(s, j1, n, "  license: ") {
        Some(p) => p,
        None => {
            return None;
        },
    };
    let (license_path, j3) = match parse_opt_str_field_at(s, j2, n, "  license_path: ") {
        Some(p) => p,
        None => {
            return None;
        },
    };
    let (log_level_w, j4) = match parse_word_field_at(s, j3, n, "  log_level: ") {
        Some(p) => p,
        None => {
            return None;
        },
    };
    let (max_retries_w, j5) = match parse_word_field_at(s, j4, n, "  max_retries: ") {
        Some(p) => p,
        None => {
            return None;
        },
    };
    Some((format_w, license, license_path, log_level_w, max_retries_w, j5))
}

fn parse_chunk4_at(s: &str, i: usize, n: usize) -> (r: Option<
    (Option<String>, Option<String>, Option<String>, Option<String>, Option<String>, usize),
>)
    requires
        n == s@.len(),
        i <= n,
    ensures
        match r {
            Some(p) => p.5 <= n && parse_chunk4(s@.skip(i as int)) == Some(
                (
                    (
                        p.0.deep_view(),
                        p.1.deep_view(),
                        p.2.deep_view(),
                        p.3.deep_view(),
                        p.4.deep_view(),
                    ),
                    s@.skip(p.5 as int),
                ),
            ),
            None => parse_chunk4(s@.skip(i as int)) is None,
        },
{
    let (redirect_addr, j1) = match parse_opt_str_field_at(s, i, n, "  redirect_addr: ") {
        Some(p) => p,
        None => {
            return None;
        },
    };
    let (skip_verify_w, j2) = match parse_word_field_at(s, j1, n, "  skip_verify: ") {
        Some(p) => p,
        None => {
            return None;
        },
    };
    let (cli_no_color_w, j3) = match parse_word_field_at(s, j2, n, "  cli_no_color: ") {
        Some(p) => p,
        None => {
            return None;
        },
    };
    let (rate_limit, j4) = match parse_opt_str_field_at(s, j3, n, "  rate_limit: ") {
        Some(p) => p,
        None => {
            return None;
        },
    };
    let (namespace, j5) = match parse_opt_str_field_at(s, j4, n, "  namespace: ") {
        Some(p) => p,
        None => {
            return None;
        },
    };
    Some((redirect_addr, skip_verify_w, cli_no_color_w, rate_limit, namespace, j5))
}

fn parse_chunk5_at(s: &str, i: usize, n: usize) -> (r: Option<
    (Option<String>, Option<String>, Option<String>, Option<String>, Option<String>, usize),
>)
    requires
        n == s@.len(),
        i <= n,
    ensures
        match r {
            Some(p) => p.5 <= n && parse_chunk5(s@.skip(i as int)) == Some(
                (
                    (
                        p.0.deep_view(),
                        p.1.deep_view(),
                        p.2.deep_view(),
                        p.3.deep_view(),
                        p.4.deep_view(),
                    ),
                    s@.skip(p.5 as int),
                ),
            ),
            None => parse_chunk5(s@.skip(i as int)) is None,
        },
{
    let (srv_lookup, j1) = match parse_opt_str_field_at(s, i, n, "  srv_lookup: ") {
        Some(p) => p,
        None => {
            return None;
        },
    };
    let (mfa, j2) = match parse_opt_str_field_at(s, j1, n, "  mfa: ") {
        Some(p) => p,
        None => {
            return None;
        },
    };
    let (http_proxy, j3) = match parse_opt_str_field_at(s, j2, n, "  http_proxy: ") {
        Some(p) => p,
        None => {
            return None;
        },
    };
    let (proxy_addr, j4) = match parse_opt_str_field_at(s, j3, n, "  proxy_addr: ") {
        Some(p) => p,
        None => {
            return None;
        },
    };
    let (disable_redirects_w, j5) = match parse_word_field_at(s, j4, n, "  disable_redirects: ") {
        Some(p) => p,
        None => {
            return None;
        },
    };
    Some((srv_lookup, mfa, http_proxy, proxy_addr, disable_redirects_w, j5))
}

#[verifier::rlimit(100)]
fn parse_record_at(s: &str, i: usize, n: usize) -> (r: Option<(Config, usize)>)
    requires
        n == s@.len(),
        i <= n,
    ensures
        match r {
            Some(p) => p.1 <= n && parse_record(s@.skip(i as int)) == Some(
                (p.0@, s@.skip(p.1 as int)),
            ),
            None => parse_record(s@.skip(i as int)) is None,
        },
{
    let (name, addr, token, cacert, tls_server_name, j1) = match parse_chunk1_at(s, i, n) {
        Some(p) => p,
        None => {
            return None;
        },
    };
    let (capath, client_cert, client_key, client_timeout, cluster_addr, j2) = match parse_chunk2_at(
        s,
        j1,
        n,
    ) {
        Some(p) => p,
        None => {
            return None;
        },
    };
    let (format_w, license, license_path, log_level_w, max_retries_w, j3) = match parse_chunk3_at(
        s,
        j2,
        n,
    ) {
        Some(p) => p,
        None => {
            return None;
        },
    };
    let (redirect_addr, skip_verify_w, cli_no_color_w, rate_limit, namespace, j4) = match
    parse_chunk4_at(s, j3, n) {
        Some(p) => p,
        None => {
            return None;
        },
    };
    let (srv_lookup, mfa, http_proxy, proxy_addr, disable_redirects_w, j5) = match parse_chunk5_at(
        s,
        j4,
        n,
    ) {
        Some(p) => p,
        None => {
            return None;
        },
    };
    let format: Option<Format> = match &format_w {
        Some(w) => match Format::from_word(w.as_str()) {
            Some(v) => Some(v),
            None => {
                return None;
            },
        },
        None => None,
    };
    let log_level: Option<LogLevel> = match &log_level_w {
        Some(w) => match LogLevel::from_word(w.as_str()) {
            Some(v) => Some(v),
            None => {
                return None;
            },
        },
        None => None,
    };
    let max_retries: Option<MaxRetries> = match &max_retries_w {
        Some(w) => match MaxRetries::from_word(w.as_str()) {
            Some(v) => Some(v),
            None => {
                return None;
            },
        },
        None => None,
    };
    let skip_verify: Option<SkipVerify> = match &skip_verify_w {
        Some(w) => match SkipVerify::from_word(w.as_str()) {
            Some(v) => Some(v),
            None => {
                return None;
            },
        },
        None => None,
    };
    let cli_no_color: Option<CliNoColor> = match &cli_no_color_w {
        Some(w) => match CliNoColor::from_word(w.as_str()) {
            Some(v) => Some(v),
            None => {
                return None;
            },
        },
        None => None,
    };
    let disable_redirects: Option<DisableRedirects> = match &disable_redirects_w {
        Some(w) => match DisableRedirects::from_word(w.as_str()) {
            Some(v) => Some(v),
            None => {
                return None;
            },
        },
        None => None,
    };
    proof {
        assert(opt_format_of_word(format_w.deep_view()) == Some(format));
        assert(opt_log_level_of_word(log_level_w.deep_view()) == Some(log_level));
        assert(opt_max_retries_of_word(max_retries_w.deep_view()) == Some(max_retries));
        assert(opt_skip_verify_of_word(skip_verify_w.deep_view()) == Some(skip_verify));
        assert(opt_cli_no_color_of_word(cli_no_color_w.deep_view()) == Some(cli_no_color));
        assert(opt_disable_redirects_of_word(disable_redirects_w.deep_view()) == Some(
            disable_redirects,
        ));
    }
    let config = Config {
        name,
        addr,
        token,
        cacert,
        tls_server_name,
        capath,
        client_cert,
        client_key,
        client_timeout,
        cluster_addr,
        format,
        license,
        license_path,
        log_level,
        max_retries,
        redirect_addr,
        skip_verify,
        cli_no_color,
        rate_limit,
        namespace,
        srv_lookup,
        mfa,
        http_proxy,
        proxy_addr,
        disable_redirects,
    };
    proof {
        match parse_record(s@.skip(i as int)) {
            Some(p) => {
                assert(p.0 =~= config@);
            },
            None => {},
        }
    }
    Some((config, j5))
}

/// The store file's text does not fit the record grammar.
#[derive(Clone, Copy, Debug, PartialEq, Eq, Structural)]
pub struct ParseError;

/// Reads the whole store back.  `Ok` exactly when the text is a valid
/// document, and then with exactly the profiles it holds, in order.
pub fn load_store(text: &str) -> (r: Result<Vec<Config>, ParseError>)
    ensures
        match r {
            Ok(cs) => parse_doc(text@) == Some(cs.deep_view()),
            Err(_) => parse_doc(text@) is None,
        },
{
    let n = text.unicode_len();
    let mut out: Vec<Config> = Vec::new();
    let mut i: usize = 0;
    proof {
        assert(text@.skip(0) =~= text@);
        match parse_doc(text@) {
            Some(t) => {
                assert(out.deep_view() + t =~= t);
            },
            None => {},
        }
    }
    while i < n
        invariant
            n == text@.len(),
            i <= n,
            parse_doc(text@) == (match parse_doc(text@.skip(i as int)) {
                Some(tail) => Some(out.deep_view() + tail),
                None => None::<Seq<ConfigV>>,
            }),
        decreases n - i,
    {
        let ghost u = text@.skip(i as int);
        match parse_record_at(text, i, n) {
            Some((c, j)) => {
                proof {
                    lemma_record_len(u);
                    assert(u.len() == n - i);
                    assert(text@.skip(j as int).len() == n - j);
                }
                let ghost before = out.deep_view();
                out.push(c);
                proof {
                    assert(out.deep_view() =~= before + seq![c@]);
                    match parse_doc(text@.skip(j as int)) {
                        Some(tail) => {
                            assert(before + (seq![c@] + tail) =~= out.deep_view() + tail);
                        },
                        None => {},
                    }
                }
                i = j;
            },
            None => {
                return Err(ParseError);
            },
        }
    }
    proof {
        assert(text@.skip(i as int) =~= Seq::<char>::empty());
        assert(out.deep_view() + Seq::<ConfigV>::empty() =~= out.deep_view());
    }
    Ok(out)
}

/// What a freshly created store file holds: the one seed profile.
pub fn initial_store_text() -> (r: String)
    ensures
        r@ == emit_doc(seq![seed_config_v()]),
{
    let configs = vec![seed_config()];
    proof {
        assert(configs.deep_view() =~= seq![seed_config_v()]);
    }
    save_store(&configs)
}

/// Deleting a name no profile bears re-serializes the store to the
/// very same text.
pub proof fn lemma_delete_absent_same_doc(cs: Seq<ConfigV>, name: Seq<char>)
    requires
        forall|j: int| 0 <= j < cs.len() ==> cs[j].name != name,
    ensures
        cs.filter(keeps(name)) == cs,
        emit_doc(cs.filter(keeps(name))) == emit_doc(cs),
    decreases cs.len(),
{
    reveal(Seq::filter);
    if cs.len() != 0 {
        assert forall|j: int| 0 <= j < cs.drop_last().len() implies cs.drop_last()[j].name
            != name by {
            assert(cs.drop_last()[j] == cs[j]);
        }
        lemma_delete_absent_same_doc(cs.drop_last(), name);
        assert(cs[cs.len() - 1].name != name);
        assert(keeps(name)(cs.last()));
        assert(cs.drop_last().push(cs.last()) =~= cs);
    }
}

impl SharedData {
    /// Builds the in-memory store from the store file's text.
    pub fn new(contents: &str) -> (r: Result<SharedData, ParseError>)
        ensures
            match r {
                Ok(d) => parse_doc(contents@) == Some(d.configs.deep_view()),
                Err(_) => parse_doc(contents@) is None,
            },
    {
        match load_store(contents) {
            Ok(configs) => Ok(SharedData { configs }),
            Err(e) => Err(e),
        }
    }
}

} // verus!
