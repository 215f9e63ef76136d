//! What the application logs: the level it logs at, and how a line is
//! tagged with the session and cleared of what must not be logged.

use vstd::prelude::*;

use crate::global_config::{AppConfig, RedactionConfig, RedactionPattern};
use crate::text::{lossy_text, trim, trimmed, utf8_lossy};

verus! {

/// The level at which the application logs: the most verbose of the levels
/// that are switched on, `debug` whenever verbose logging is asked for, and
/// `off` where nothing is switched on.
pub open spec fn log_level_of(config: AppConfig) -> Seq<char> {
    if config.logging.verbose || config.logging.levels.debug {
        "debug"@
    } else if config.logging.levels.info {
        "info"@
    } else if config.logging.levels.warning {
        "warn"@
    } else if config.logging.levels.error || config.logging.levels.critical {
        "error"@
    } else {
        "off"@
    }
}

/// The level at which the application logs.
pub fn determine_log_level(config: &AppConfig) -> (level: &'static str)
    ensures
        level@ == log_level_of(*config),
{
    if config.logging.verbose || config.logging.levels.debug {
        "debug"
    } else if config.logging.levels.info {
        "info"
    } else if config.logging.levels.warning {
        "warn"
    } else if config.logging.levels.error || config.logging.levels.critical {
        "error"
    } else {
        "off"
    }
}

/// An ASCII letter or digit.
pub open spec fn is_alphanumeric(c: char) -> bool {
    ('0' <= c && c <= '9') || ('a' <= c && c <= 'z') || ('A' <= c && c <= 'Z')
}

/// A session identifier: eight ASCII letters and digits.
pub open spec fn is_session_id(s: Seq<char>) -> bool {
    s.len() == 8 && forall|i: int| 0 <= i < 8 ==> is_alphanumeric(#[trigger] s[i])
}

/// Draws one character of a session identifier.
///
/// Takes one sample of `rand::distributions::Alphanumeric` from
/// `rand::thread_rng` and hands it back as a text of that one character.
/// The distribution yields ASCII letters and digits only, which is all that
/// the contract claims; which one comes out is random.
#[verifier::external_body]
fn draw_alphanumeric() -> (c: String)
    ensures
        c@.len() == 1,
        is_alphanumeric(c@[0]),
{
    char::from(rand::Rng::sample(&mut rand::thread_rng(), rand::distributions::Alphanumeric)).to_string()
}

/// A fresh session identifier: eight random ASCII letters and digits.
pub fn new_session_id() -> (id: String)
    ensures
        is_session_id(id@),
{
    let mut id = String::new();
    let mut i: usize = 0;
    while i < 8
        invariant
            i <= 8,
            id@.len() == i,
            forall|k: int| 0 <= k < i ==> is_alphanumeric(#[trigger] id@[k]),
        decreases 8 - i,
    {
        let c = draw_alphanumeric();
        let ghost before = id@;
        id.append(c.as_str());
        assert(forall|k: int| 0 <= k < i ==> id@[k] == before[k]);
        assert(id@[i as int] == c@[0]);
        i += 1;
    }
    id
}

/// A line tagged with its session: `[id] ` stands before a line that holds
/// more than white space; every other line stays as it is.
pub open spec fn with_session(text: Seq<char>, session: Option<Seq<char>>) -> Seq<char> {
    match session {
        Some(id) => if trimmed(text).len() > 0 {
            "["@ + id + "] "@ + text
        } else {
            text
        },
        None => text,
    }
}

#[verifier::external_type_specification]
#[verifier::external_body]
pub struct ExRegex(regex::Regex);

/// Whether `regex::Regex::new` compiles a pattern.
pub uninterp spec fn compiles(pattern: Seq<char>) -> bool;

/// What `regex::Regex::replace_all` makes of a text with the regular
/// expression of a pattern that compiles.
pub uninterp spec fn replaced(pattern: Seq<char>, text: Seq<char>, replacement: Seq<char>) -> Seq<char>;

/// A pattern that compiled, with the placeholder that stands for its
/// matches. It is made by [`Redaction::compile`] and in no other way, so
/// that its regular expression is always the one of its pattern.
#[derive(Debug)]
pub struct Redaction {
    pattern: String,
    placeholder: String,
    regex: regex::Regex,
}

impl View for Redaction {
    type V = (Seq<char>, Seq<char>);

    /// The pattern and the placeholder.
    closed spec fn view(&self) -> (Seq<char>, Seq<char>) {
        (self.pattern@, self.placeholder@)
    }
}

/// Compiles a pattern.
///
/// Calls `regex::Regex::new`, which reads nothing but the pattern, so the
/// contract names by the pattern whether it succeeds. The pattern and the
/// placeholder are kept beside the regular expression.
#[verifier::external_body]
fn compile_pattern(pattern: &str, placeholder: &str) -> (r: Option<Redaction>)
    ensures
        r is Some <==> compiles(pattern@),
        r is Some ==> r->Some_0@ == (pattern@, placeholder@),
{
    match regex::Regex::new(pattern) {
        Ok(regex) => Some(Redaction { pattern: pattern.to_string(), placeholder: placeholder.to_string(), regex }),
        Err(_) => None,
    }
}

/// Replaces every match in a text by the placeholder.
///
/// Calls `regex::Regex::replace_all`, which replaces all non-overlapping
/// matches and expands group references in the replacement. It reads
/// nothing but the regular expression and its arguments, so the contract
/// names the result by the pattern, the text and the placeholder.
#[verifier::external_body]
fn replace_all(redaction: &Redaction, text: &str) -> (out: String)
    ensures
        out@ == replaced(redaction@.0, text@, redaction@.1),
{
    redaction.regex.replace_all(text, redaction.placeholder.as_str()).into_owned()
}

impl Redaction {
    /// Compiles a pattern to redact with; none where the pattern does not
    /// compile.
    pub fn compile(pattern: &str, placeholder: &str) -> (r: Option<Redaction>)
        ensures
            r is Some <==> compiles(pattern@),
            r is Some ==> r->Some_0@ == (pattern@, placeholder@),
    {
        compile_pattern(pattern, placeholder)
    }

    /// The text with every match replaced by the placeholder.
    pub fn apply(&self, text: &str) -> (out: String)
        ensures
            out@ == replaced(self@.0, text@, self@.1),
    {
        replace_all(self, text)
    }
}

/// The patterns and placeholders of a list of redactions.
pub open spec fn redactions_view(patterns: Seq<Redaction>) -> Seq<(Seq<char>, Seq<char>)> {
    Seq::new(patterns.len(), |i: int| patterns[i]@)
}

/// A text after each of the patterns, in order, has had its matches replaced
/// by its placeholder.
pub open spec fn redacted(text: Seq<char>, patterns: Seq<(Seq<char>, Seq<char>)>) -> Seq<char>
    decreases patterns.len(),
{
    if patterns.len() == 0 {
        text
    } else {
        replaced(patterns.last().0, redacted(text, patterns.drop_last()), patterns.last().1)
    }
}

/// The line that is written for the bytes of a log line: the bytes as text,
/// tagged with the session, then redacted. The tag is redacted with the
/// rest.
pub open spec fn log_line(bytes: Seq<u8>, session: Option<Seq<char>>, patterns: Seq<(Seq<char>, Seq<char>)>) -> Seq<char> {
    redacted(with_session(utf8_lossy(bytes), session), patterns)
}

/// Makes the line that is written for the bytes of a log line.
pub fn redact_line(buf: &[u8], session_id: Option<&str>, patterns: &Vec<Redaction>) -> (line: String)
    ensures
        line@ == log_line(
            buf@,
            match session_id {
                Some(id) => Some(id@),
                None => None,
            },
            redactions_view(patterns@),
        ),
{
    let text = lossy_text(buf);
    let mut line = match session_id {
        Some(id) => {
            if !trim(text.as_str()).is_empty() {
                let mut tagged = String::from_str("[");
                tagged.append(id);
                tagged.append("] ");
                tagged.append(text.as_str());
                tagged
            } else {
                text
            }
        },
        None => text,
    };
    let ghost all = redactions_view(patterns@);
    let ghost start = line@;
    assert(all.take(0) =~= Seq::empty());
    let mut i: usize = 0;
    while i < patterns.len()
        invariant
            i <= patterns.len(),
            all == redactions_view(patterns@),
            line@ == redacted(start, all.take(i as int)),
        decreases patterns.len() - i,
    {
        proof {
            assert(all.take(i + 1).drop_last() =~= all.take(i as int));
            assert(all.take(i + 1).last() == all[i as int]);
        }
        line = patterns[i].apply(line.as_str());
        i += 1;
    }
    assert(all.take(i as int) =~= all);
    line
}

/// The regular expressions and placeholders of a list of patterns.
pub open spec fn pattern_pairs(patterns: Seq<RedactionPattern>) -> Seq<(Seq<char>, Seq<char>)> {
    Seq::new(patterns.len(), |i: int| (patterns[i].regex@, patterns[i].placeholder@))
}

/// Those of the first `n` patterns that compile, in order.
pub open spec fn usable(patterns: Seq<(Seq<char>, Seq<char>)>, n: nat) -> Seq<(Seq<char>, Seq<char>)>
    decreases n,
{
    if n == 0 {
        Seq::empty()
    } else {
        let rest = usable(patterns, (n - 1) as nat);
        if compiles(patterns[n - 1].0) {
            rest.push(patterns[n - 1])
        } else {
            rest
        }
    }
}

/// The patterns that the log is redacted with: none where redaction is
/// switched off, and otherwise those of the configuration that compile.
pub open spec fn redaction_of(config: RedactionConfig) -> Seq<(Seq<char>, Seq<char>)> {
    if config.enabled {
        usable(pattern_pairs(config.patterns@), config.patterns@.len())
    } else {
        Seq::empty()
    }
}

/// The names of those of the first `n` patterns that do not compile, in
/// order.
pub open spec fn unusable(patterns: Seq<RedactionPattern>, n: nat) -> Seq<Seq<char>>
    decreases n,
{
    if n == 0 {
        Seq::empty()
    } else {
        let rest = unusable(patterns, (n - 1) as nat);
        if compiles(patterns[n - 1].regex@) {
            rest
        } else {
            rest.push(patterns[n - 1].name@)
        }
    }
}

/// The names of the patterns that are left out of the redaction because
/// they do not compile; none where redaction is switched off.
pub open spec fn refused_of(config: RedactionConfig) -> Seq<Seq<char>> {
    if config.enabled {
        unusable(config.patterns@, config.patterns@.len())
    } else {
        Seq::empty()
    }
}

/// The patterns that the log is redacted with, each compiled once, and the
/// names of the patterns that were left out because they do not compile.
pub fn redaction_patterns(config: &RedactionConfig) -> (out: (Vec<Redaction>, Vec<String>))
    ensures
        redactions_view(out.0@) == redaction_of(*config),
        crate::json::texts_view(out.1@) == refused_of(*config),
{
    let mut patterns: Vec<Redaction> = Vec::new();
    let mut refused: Vec<String> = Vec::new();
    assert(redactions_view(patterns@) =~= Seq::empty());
    assert(crate::json::texts_view(refused@) =~= Seq::<Seq<char>>::empty());
    if !config.enabled {
        return (patterns, refused);
    }
    let ghost all = pattern_pairs(config.patterns@);
    let mut i: usize = 0;
    while i < config.patterns.len()
        invariant
            i <= config.patterns.len(),
            all == pattern_pairs(config.patterns@),
            redactions_view(patterns@) == usable(all, i as nat),
            crate::json::texts_view(refused@) == unusable(config.patterns@, i as nat),
        decreases config.patterns.len() - i,
    {
        let p = &config.patterns[i];
        match Redaction::compile(p.regex.as_str(), p.placeholder.as_str()) {
            Some(redaction) => {
                let ghost before = redactions_view(patterns@);
                patterns.push(redaction);
                assert(redactions_view(patterns@) =~= before.push(all[i as int]));
            },
            None => {
                let ghost before = crate::json::texts_view(refused@);
                refused.push(p.name.clone());
                assert(crate::json::texts_view(refused@) =~= before.push(p.name@));
            },
        }
        i += 1;
    }
    (patterns, refused)
}

} // verus!
