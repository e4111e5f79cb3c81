//! Text processing: word overrides and spoken punctuation.
//!
//! A transcript is rewritten rule by rule. A rule is a pattern and a
//! replacement; the pattern engine finds the matches and puts the
//! replacement in their place.

use crate::text::trimmed;
use regex::{Error, Regex};
use vstd::prelude::*;
use vstd::string::StringExecFns;

verus! {

/// A compiled pattern of the pattern engine.
#[verifier::external_type_specification]
#[verifier::external_body]
pub struct ExRegex(Regex);

/// The error of the pattern engine for a pattern that it cannot compile.
#[verifier::external_type_specification]
#[verifier::external_body]
pub struct ExRegexError(Error);

/// Whether a character has a meaning of its own in a pattern.
pub open spec fn is_meta_character(c: char) -> bool {
    c == '\\' || c == '.' || c == '+' || c == '*' || c == '?' || c == '(' || c == ')' || c == '|'
        || c == '[' || c == ']' || c == '{' || c == '}' || c == '^' || c == '$' || c == '#' || c
        == '&' || c == '-' || c == '~'
}

/// A text with every character that has a meaning in a pattern escaped: a
/// backslash stands before each such character, and the others are as they
/// were.
pub open spec fn regex_escaped(text: Seq<char>) -> Seq<char>
    decreases text.len(),
{
    if text.len() == 0 {
        Seq::empty()
    } else if is_meta_character(text.last()) {
        regex_escaped(text.drop_last()).push('\\').push(text.last())
    } else {
        regex_escaped(text.drop_last()).push(text.last())
    }
}

/// Whether the pattern engine compiles a pattern, with its default limits.
pub uninterp spec fn regex_compiles(pattern: Seq<char>) -> bool;

/// The pattern that a compiled pattern was made from.
pub uninterp spec fn regex_pattern(re: &Regex) -> Seq<char>;

/// A text in which every match of a pattern, from left to right and not
/// overlapping, is replaced, as `regex::Regex::replace_all` does it for a
/// pattern compiled by `regex::Regex::new`, that is with the engine's
/// default options. In the replacement a `$` followed by a name or a number
/// stands for what a group of the pattern matched.
pub uninterp spec fn regex_replaced(pattern: Seq<char>, text: Seq<char>, replacement: Seq<char>) -> Seq<
    char,
>;

/// `regex::escape`: it puts a backslash before each character that has a
/// meaning of its own in a pattern and leaves the others.
#[verifier::external_body]
fn escape(text: &str) -> (escaped: String)
    ensures
        escaped@ == regex_escaped(text@),
{
    regex::escape(text)
}

/// `regex::Regex::new`: the compiled pattern, which remembers the text it
/// was made from, or the engine's error.
#[verifier::external_body]
fn compile(pattern: &str) -> (re: Result<Regex, Error>)
    ensures
        re is Ok <==> regex_compiles(pattern@),
        re is Ok ==> regex_pattern(&re->Ok_0) == pattern@,
{
    Regex::new(pattern)
}

/// `regex::Regex::replace_all` with a text as the replacement. The clause
/// holds of the patterns that `compile` makes, which are the only ones this
/// module holds: a pattern built with other options than the default ones
/// could replace otherwise for the same text of the pattern.
#[verifier::external_body]
fn replace_all(re: &Regex, text: &str, replacement: &str) -> (replaced: String)
    ensures
        replaced@ == regex_replaced(regex_pattern(re), text@, replacement@),
{
    re.replace_all(text, replacement).into_owned()
}

/// Number of spoken punctuation commands.
pub const PUNCTUATION_COUNT: usize = 34;

/// The spoken punctuation commands, in the order in which they are applied:
/// the words, and the sign they stand for.
pub open spec fn spec_punctuation(i: int) -> (Seq<char>, Seq<char>) {
    if i == 0 {
        ("period"@, "."@)
    } else if i == 1 {
        ("comma"@, ","@)
    } else if i == 2 {
        ("question mark"@, "?"@)
    } else if i == 3 {
        ("exclamation mark"@, "!"@)
    } else if i == 4 {
        ("colon"@, ":"@)
    } else if i == 5 {
        ("semicolon"@, ";"@)
    } else if i == 6 {
        ("new line"@, "\n"@)
    } else if i == 7 {
        ("tab"@, "\t"@)
    } else if i == 8 {
        ("dash"@, "-"@)
    } else if i == 9 {
        ("underscore"@, "_"@)
    } else if i == 10 {
        ("open paren"@, "("@)
    } else if i == 11 {
        ("close paren"@, ")"@)
    } else if i == 12 {
        ("open bracket"@, "["@)
    } else if i == 13 {
        ("close bracket"@, "]"@)
    } else if i == 14 {
        ("open brace"@, "{"@)
    } else if i == 15 {
        ("close brace"@, "}"@)
    } else if i == 16 {
        ("at symbol"@, "@"@)
    } else if i == 17 {
        ("hash"@, "#"@)
    } else if i == 18 {
        ("plus"@, "+"@)
    } else if i == 19 {
        ("equals"@, "="@)
    } else if i == 20 {
        ("asterisk"@, "*"@)
    } else if i == 21 {
        ("ampersand"@, "&"@)
    } else if i == 22 {
        ("percent"@, "%"@)
    } else if i == 23 {
        ("dollar sign"@, "$"@)
    } else if i == 24 {
        ("backslash"@, "\\"@)
    } else if i == 25 {
        ("slash"@, "/"@)
    } else if i == 26 {
        ("pipe"@, "|"@)
    } else if i == 27 {
        ("caret"@, "^"@)
    } else if i == 28 {
        ("tilde"@, "~"@)
    } else if i == 29 {
        ("backtick"@, "`"@)
    } else if i == 30 {
        ("quote"@, "\""@)
    } else if i == 31 {
        ("single quote"@, "'"@)
    } else if i == 32 {
        ("less than"@, "<"@)
    } else {
        ("greater than"@, ">"@)
    }
}

/// The `i`-th spoken punctuation command.
pub fn punctuation(i: usize) -> (entry: (&'static str, &'static str))
    requires
        i < PUNCTUATION_COUNT,
    ensures
        entry.0@ == spec_punctuation(i as int).0,
        entry.1@ == spec_punctuation(i as int).1,
{
    if i == 0 {
        ("period", ".")
    } else if i == 1 {
        ("comma", ",")
    } else if i == 2 {
        ("question mark", "?")
    } else if i == 3 {
        ("exclamation mark", "!")
    } else if i == 4 {
        ("colon", ":")
    } else if i == 5 {
        ("semicolon", ";")
    } else if i == 6 {
        ("new line", "\n")
    } else if i == 7 {
        ("tab", "\t")
    } else if i == 8 {
        ("dash", "-")
    } else if i == 9 {
        ("underscore", "_")
    } else if i == 10 {
        ("open paren", "(")
    } else if i == 11 {
        ("close paren", ")")
    } else if i == 12 {
        ("open bracket", "[")
    } else if i == 13 {
        ("close bracket", "]")
    } else if i == 14 {
        ("open brace", "{")
    } else if i == 15 {
        ("close brace", "}")
    } else if i == 16 {
        ("at symbol", "@")
    } else if i == 17 {
        ("hash", "#")
    } else if i == 18 {
        ("plus", "+")
    } else if i == 19 {
        ("equals", "=")
    } else if i == 20 {
        ("asterisk", "*")
    } else if i == 21 {
        ("ampersand", "&")
    } else if i == 22 {
        ("percent", "%")
    } else if i == 23 {
        ("dollar sign", "$")
    } else if i == 24 {
        ("backslash", "\\")
    } else if i == 25 {
        ("slash", "/")
    } else if i == 26 {
        ("pipe", "|")
    } else if i == 27 {
        ("caret", "^")
    } else if i == 28 {
        ("tilde", "~")
    } else if i == 29 {
        ("backtick", "`")
    } else if i == 30 {
        ("quote", "\"")
    } else if i == 31 {
        ("single quote", "'")
    } else if i == 32 {
        ("less than", "<")
    } else {
        ("greater than", ">")
    }
}

/// A rule: a pattern, and what replaces its matches.
pub struct Rule {
    pub pattern: Seq<char>,
    pub replacement: Seq<char>,
}

/// The pattern for a word to override: the word itself, whatever the case
/// of its letters, between word boundaries.
pub open spec fn override_pattern(word: Seq<char>) -> Seq<char> {
    "(?i)\\b"@ + regex_escaped(word) + "\\b"@
}

/// The pattern for a spoken command: its words between word boundaries.
pub open spec fn command_pattern(words: Seq<char>) -> Seq<char> {
    "\\b"@ + words + "\\b"@
}

/// The rules for the first `n` overrides: one for each whose pattern the
/// engine compiles, in the order given.
pub open spec fn override_rules(overrides: Seq<(String, String)>, n: int) -> Seq<Rule>
    decreases n,
{
    if n <= 0 {
        Seq::empty()
    } else {
        let before = override_rules(overrides, n - 1);
        let pattern = override_pattern(overrides[n - 1].0@);
        if regex_compiles(pattern) {
            before.push(Rule { pattern, replacement: overrides[n - 1].1@ })
        } else {
            before
        }
    }
}

/// The rules for the first `n` spoken commands: one for each whose pattern
/// the engine compiles, in their order.
pub open spec fn punctuation_rules(n: int) -> Seq<Rule>
    decreases n,
{
    if n <= 0 {
        Seq::empty()
    } else {
        let before = punctuation_rules(n - 1);
        let pattern = command_pattern(spec_punctuation(n - 1).0);
        if regex_compiles(pattern) {
            before.push(Rule { pattern, replacement: spec_punctuation(n - 1).1 })
        } else {
            before
        }
    }
}

/// A text after the first `n` rules were applied to it, one after the
/// other.
pub open spec fn applied(rules: Seq<Rule>, n: int, text: Seq<char>) -> Seq<char>
    decreases n,
{
    if n <= 0 {
        text
    } else {
        regex_replaced(rules[n - 1].pattern, applied(rules, n - 1, text), rules[n - 1].replacement)
    }
}

/// Text processor that applies word overrides and punctuation commands.
pub struct TextProcessor {
    word_overrides: Vec<(Regex, String)>,
    punctuation: Vec<(Regex, String)>,
}

/// The rules held by a list of compiled patterns with their replacements.
pub open spec fn rules_of(compiled: Seq<(Regex, String)>) -> Seq<Rule> {
    Seq::new(
        compiled.len(),
        |i: int| Rule { pattern: regex_pattern(&compiled[i].0), replacement: compiled[i].1@ },
    )
}

/// Applies compiled rules to a text, one after the other.
fn apply_rules(compiled: &Vec<(Regex, String)>, text: String) -> (result: String)
    ensures
        result@ == applied(rules_of(compiled@), compiled@.len() as int, text@),
{
    let mut result = text;
    let mut i: usize = 0;
    while i < compiled.len()
        invariant
            i <= compiled@.len(),
            result@ == applied(rules_of(compiled@), i as int, text@),
        decreases compiled@.len() - i,
    {
        result = replace_all(&compiled[i].0, result.as_str(), compiled[i].1.as_str());
        i += 1;
    }
    result
}

impl TextProcessor {
    /// The override rules, in the order in which they are applied.
    pub closed spec fn overrides(&self) -> Seq<Rule> {
        rules_of(self.word_overrides@)
    }

    /// The punctuation rules, in the order in which they are applied.
    pub closed spec fn commands(&self) -> Seq<Rule> {
        rules_of(self.punctuation@)
    }

    /// What `process` makes of a text: the overrides are applied, then the
    /// punctuation commands, then the white space at the two ends is taken
    /// off.
    pub open spec fn processed(&self, text: Seq<char>) -> Seq<char> {
        trimmed(
            applied(
                self.commands(),
                self.commands().len() as int,
                applied(self.overrides(), self.overrides().len() as int, text),
            ),
        )
    }

    /// A processor for the given overrides, each a word and its
    /// replacement, and for the spoken punctuation commands. An override
    /// whose pattern the engine does not compile is left out.
    pub fn new(overrides: Vec<(String, String)>) -> (processor: Self)
        ensures
            processor.overrides() == override_rules(overrides@, overrides@.len() as int),
            processor.commands() == punctuation_rules(PUNCTUATION_COUNT as int),
    {
        let mut word_overrides: Vec<(Regex, String)> = Vec::new();
        let mut i: usize = 0;
        while i < overrides.len()
            invariant
                i <= overrides@.len(),
                rules_of(word_overrides@) == override_rules(overrides@, i as int),
            decreases overrides@.len() - i,
        {
            let pattern = String::from_str("(?i)\\b").concat(
                escape(overrides[i].0.as_str()).as_str(),
            ).concat("\\b");
            match compile(pattern.as_str()) {
                Ok(re) => {
                    let ghost before = word_overrides@;
                    word_overrides.push((re, overrides[i].1.clone()));
                    assert(rules_of(word_overrides@) =~= rules_of(before).push(
                        Rule { pattern: pattern@, replacement: overrides@[i as int].1@ },
                    ));
                },
                Err(_) => {},
            }
            i += 1;
        }
        let mut punctuation_list: Vec<(Regex, String)> = Vec::new();
        let mut k: usize = 0;
        while k < PUNCTUATION_COUNT
            invariant
                k <= PUNCTUATION_COUNT,
                rules_of(punctuation_list@) == punctuation_rules(k as int),
            decreases PUNCTUATION_COUNT - k,
        {
            let entry = punctuation(k);
            let pattern = String::from_str("\\b").concat(entry.0).concat("\\b");
            match compile(pattern.as_str()) {
                Ok(re) => {
                    let ghost before = punctuation_list@;
                    let sign = String::from_str(entry.1);
                    punctuation_list.push((re, sign));
                    assert(rules_of(punctuation_list@) =~= rules_of(before).push(
                        Rule { pattern: pattern@, replacement: entry.1@ },
                    ));
                },
                Err(_) => {},
            }
            k += 1;
        }
        TextProcessor { word_overrides, punctuation: punctuation_list }
    }

    /// Processes a text by applying all transformations.
    pub fn process(&self, text: &str) -> (result: String)
        ensures
            result@ == self.processed(text@),
    {
        let overridden = apply_rules(&self.word_overrides, String::from_str(text));
        let punctuated = apply_rules(&self.punctuation, overridden);
        String::from_str(punctuated.as_str().trim())
    }
}

} // verus!
