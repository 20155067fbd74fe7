//! Token colour rules and their restyling: comments get the comment colour in
//! italics, and a few named token kinds get the theme's own foreground.

use vstd::prelude::*;
use vstd::string::*;
use crate::scope::{Scope, ScopeView, scope_has_keyword};
use crate::text::{push_char, str_eq};

verus! {

/// Whether `c` has the Unicode `White_Space` property, as `char::is_whitespace`
/// documents it.
pub open spec fn is_unicode_whitespace(c: char) -> bool {
    let n = c as int;
    ||| 0x09 <= n <= 0x0d
    ||| n == 0x20
    ||| n == 0x85
    ||| n == 0xa0
    ||| n == 0x1680
    ||| 0x2000 <= n <= 0x200a
    ||| n == 0x2028
    ||| n == 0x2029
    ||| n == 0x202f
    ||| n == 0x205f
    ||| n == 0x3000
}

/// A character that separates the words of a token name: whitespace or one
/// of `: / - ( ) &`.
pub open spec fn is_name_separator(c: char) -> bool {
    ||| c == ':'
    ||| c == '/'
    ||| c == '-'
    ||| c == '('
    ||| c == ')'
    ||| c == '&'
    ||| is_unicode_whitespace(c)
}

/// The characters that `char::to_uppercase` yields for `c`.
pub uninterp spec fn uppercase(c: char) -> Seq<char>;

/// Upper-cases one character with `char::to_uppercase`, collecting what it
/// yields. Claimed: the result is a function of `c`; an ASCII lower-case
/// letter becomes the one matching capital and any other ASCII character is
/// kept (the Unicode case mapping that the documentation cites). What other
/// characters map to is not stated.
#[verifier::external_body]
fn char_to_uppercase(c: char) -> (r: String)
    ensures
        r@ == uppercase(c),
        'a' <= c <= 'z' ==> r@ == seq![((c as int) - 32) as char],
        (c as int) < 128 && !('a' <= c <= 'z') ==> r@ == seq![c],
{
    c.to_uppercase().collect()
}

/// The variant name of a token name: the words (split at separators) each
/// with its first character upper-cased, joined without spaces.
/// `at_start` says that the next non-separator begins a word.
pub open spec fn variant_chars(s: Seq<char>, at_start: bool) -> Seq<char>
    decreases s.len(),
{
    if s.len() == 0 {
        Seq::<char>::empty()
    } else if is_name_separator(s[0]) {
        variant_chars(s.drop_first(), true)
    } else if at_start {
        uppercase(s[0]) + variant_chars(s.drop_first(), false)
    } else {
        seq![s[0]] + variant_chars(s.drop_first(), false)
    }
}

/// The token kind that a rule's name stands for.
pub open spec fn variant_name(name: Seq<char>) -> Seq<char> {
    variant_chars(name, true)
}

fn is_whitespace(c: char) -> (r: bool)
    ensures
        r == is_unicode_whitespace(c),
{
    let n = c as u32;
    (0x09 <= n && n <= 0x0d) || n == 0x20 || n == 0x85 || n == 0xa0 || n == 0x1680 || (0x2000
        <= n && n <= 0x200a) || n == 0x2028 || n == 0x2029 || n == 0x202f || n == 0x205f || n
        == 0x3000
}

fn is_separator(c: char) -> (r: bool)
    ensures
        r == is_name_separator(c),
{
    c == ':' || c == '/' || c == '-' || c == '(' || c == ')' || c == '&' || is_whitespace(c)
}

/// The variant name of a token rule's name: separators `: / - ( ) &` and
/// whitespace split it into words, each word's first character is
/// upper-cased, and the words are joined (`"keyword - general"` gives
/// `"KeywordGeneral"`).
pub fn token_variant_name(name: &str) -> (r: String)
    ensures
        r@ == variant_name(name@),
{
    let n = name.unicode_len();
    let mut out = String::new();
    let mut at_start = true;
    let mut i: usize = 0;
    assert(name@.skip(0) =~= name@);
    while i < n
        invariant
            n == name@.len(),
            i <= n,
            out@ + variant_chars(name@.skip(i as int), at_start) == variant_name(name@),
        decreases n - i,
    {
        let c = name.get_char(i);
        let ghost rest = name@.skip(i as int);
        assert(rest[0] == c);
        assert(rest.drop_first() =~= name@.skip(i + 1));
        if is_separator(c) {
            at_start = true;
        } else if at_start {
            let up = char_to_uppercase(c);
            let ghost before = out@;
            out.append(up.as_str());
            assert(out@ + variant_chars(name@.skip(i + 1), false) =~= before + (uppercase(c)
                + variant_chars(name@.skip(i + 1), false)));
            at_start = false;
        } else {
            let ghost before = out@;
            push_char(&mut out, c);
            assert(out@ + variant_chars(name@.skip(i + 1), false) =~= before + (seq![c]
                + variant_chars(name@.skip(i + 1), false)));
        }
        i += 1;
    }
    assert(out@ + variant_chars(name@.skip(n as int), at_start) =~= out@);
    out
}

/// Foreground of comment rules.
pub const COMMENT: &'static str = "#6A9955";

/// Font style of comment rules.
pub const COMMENT_STYLE: &'static str = "italic";

/// Foreground of general keywords.
pub const KEYWORD_FOREGROUND: &'static str = "#7b92e0";

/// Foreground of variables and properties.
pub const VARIABLE_FOREGROUND: &'static str = "#74dbf5";

/// Foreground of functions.
pub const FUNCTION_FOREGROUND: &'static str = "#cac68c";

/// Foreground of string literals.
pub const STRING_FOREGROUND: &'static str = "#ce8978";

/// The settings of a token colour rule.
pub struct TokenSettings {
    pub foreground: Option<String>,
    pub background: Option<String>,
    pub font_style: Option<String>,
}

/// A token colour rule: optional name, scope and settings.
pub struct TokenColor {
    pub name: Option<String>,
    pub scope: Scope,
    pub settings: TokenSettings,
}

/// An optional string as an optional character sequence.
pub open spec fn opt_view(o: Option<String>) -> Option<Seq<char>> {
    match o {
        Some(s) => Some(s@),
        None => None,
    }
}

/// A token colour rule as character sequences.
pub struct TokenColorView {
    pub name: Option<Seq<char>>,
    pub scope: ScopeView,
    pub foreground: Option<Seq<char>>,
    pub background: Option<Seq<char>>,
    pub font_style: Option<Seq<char>>,
}

impl View for TokenColor {
    type V = TokenColorView;

    open spec fn view(&self) -> TokenColorView {
        TokenColorView {
            name: opt_view(self.name),
            scope: self.scope@,
            foreground: opt_view(self.settings.foreground),
            background: opt_view(self.settings.background),
            font_style: opt_view(self.settings.font_style),
        }
    }
}

/// The rule styles comments: its scope mentions `comment`.
pub open spec fn is_comment_rule(t: TokenColorView) -> bool {
    scope_has_keyword(t.scope, "comment"@)
}

/// The rule can be restyled: it is a comment rule or it has a name.
pub open spec fn can_restyle(t: TokenColorView) -> bool {
    is_comment_rule(t) || t.name is Some
}

/// The theme's foreground for a token kind, for the kinds it recolours.
pub open spec fn kind_foreground(kind: Seq<char>) -> Option<Seq<char>> {
    if kind == "KeywordGeneral"@ {
        Some(KEYWORD_FOREGROUND@)
    } else if kind == "IdentifierVariable"@ || kind == "IdentifierProperty"@ {
        Some(VARIABLE_FOREGROUND@)
    } else if kind == "IdentifierFunction"@ {
        Some(FUNCTION_FOREGROUND@)
    } else if kind == "LiteralString"@ || kind == "LiteralStringValue"@ || kind
        == "LiteralStringTag"@ {
        Some(STRING_FOREGROUND@)
    } else {
        None
    }
}

/// A rule after restyling: comment rules get the comment colour in italics;
/// named rules of a recoloured kind get that kind's foreground; other rules
/// are kept. Name, scope and background never change.
pub open spec fn restyled(t: TokenColorView) -> TokenColorView {
    if is_comment_rule(t) {
        TokenColorView { foreground: Some(COMMENT@), font_style: Some(COMMENT_STYLE@), ..t }
    } else {
        match t.name {
            Some(n) => match kind_foreground(variant_name(n)) {
                Some(fg) => TokenColorView { foreground: Some(fg), ..t },
                None => t,
            },
            None => t,
        }
    }
}

/// The foreground for a token kind, for the kinds the theme recolours.
pub fn foreground_for_kind(kind: &str) -> (r: Option<&'static str>)
    ensures
        match r {
            Some(fg) => kind_foreground(kind@) == Some(fg@),
            None => kind_foreground(kind@) is None,
        },
{
    if str_eq(kind, "KeywordGeneral") {
        Some(KEYWORD_FOREGROUND)
    } else if str_eq(kind, "IdentifierVariable") || str_eq(kind, "IdentifierProperty") {
        Some(VARIABLE_FOREGROUND)
    } else if str_eq(kind, "IdentifierFunction") {
        Some(FUNCTION_FOREGROUND)
    } else if str_eq(kind, "LiteralString") || str_eq(kind, "LiteralStringValue") || str_eq(
        kind,
        "LiteralStringTag",
    ) {
        Some(STRING_FOREGROUND)
    } else {
        None
    }
}

/// Restyles one token colour rule (see `restyled`).
pub fn restyle_token(token: TokenColor) -> (r: TokenColor)
    requires
        can_restyle(token@),
    ensures
        r@ == restyled(token@),
{
    let mut token = token;
    if token.scope.contains_keyword("comment") {
        token.settings.foreground = Some(COMMENT.to_owned());
        token.settings.font_style = Some(COMMENT_STYLE.to_owned());
        return token;
    }
    let mut recolor: Option<&'static str> = None;
    match &token.name {
        Some(n) => {
            let kind = token_variant_name(n.as_str());
            recolor = foreground_for_kind(kind.as_str());
        },
        None => {},
    }
    match recolor {
        Some(fg) => {
            token.settings.foreground = Some(fg.to_owned());
        },
        None => {},
    }
    token
}

/// Restyles every rule, keeping their order.
pub fn restyle_tokens(tokens: Vec<TokenColor>) -> (r: Vec<TokenColor>)
    requires
        forall|i: int| 0 <= i < tokens@.len() ==> can_restyle(#[trigger] tokens@[i]@),
    ensures
        r@.len() == tokens@.len(),
        forall|i: int| 0 <= i < tokens@.len() ==> (#[trigger] r@[i])@ == restyled(tokens@[i]@),
{
    let ghost input = tokens@;
    let mut out: Vec<TokenColor> = Vec::new();
    for token in it: tokens
        invariant
            it.seq() == input,
            forall|i: int| 0 <= i < input.len() ==> can_restyle(#[trigger] input[i]@),
            out@.len() == it.index(),
            forall|i: int| 0 <= i < it.index() ==> (#[trigger] out@[i])@ == restyled(input[i]@),
    {
        out.push(restyle_token(token));
    }
    out
}

/// Comment rules are drawn in `#6A9955`, in italics.
pub proof fn lemma_comments_restyled(t: TokenColorView)
    requires
        is_comment_rule(t),
    ensures
        restyled(t).foreground == Some("#6A9955"@),
        restyled(t).font_style == Some("italic"@),
{
}

/// Of the named rules that are no comments, exactly seven token kinds are
/// recoloured: `KeywordGeneral` to `#7b92e0`; `IdentifierVariable` and
/// `IdentifierProperty` to `#74dbf5`; `IdentifierFunction` to `#cac68c`;
/// `LiteralString`, `LiteralStringValue` and `LiteralStringTag` to
/// `#ce8978`. A rule of any other kind is kept as it is, and the font style
/// of a named rule never changes.
pub proof fn lemma_recoloured_kinds(t: TokenColorView)
    requires
        !is_comment_rule(t),
        t.name is Some,
    ensures
        ({
            let k = variant_name(t.name->0);
            &&& k == "KeywordGeneral"@ ==> restyled(t).foreground == Some("#7b92e0"@)
            &&& k == "IdentifierVariable"@ ==> restyled(t).foreground == Some("#74dbf5"@)
            &&& k == "IdentifierProperty"@ ==> restyled(t).foreground == Some("#74dbf5"@)
            &&& k == "IdentifierFunction"@ ==> restyled(t).foreground == Some("#cac68c"@)
            &&& k == "LiteralString"@ ==> restyled(t).foreground == Some("#ce8978"@)
            &&& k == "LiteralStringValue"@ ==> restyled(t).foreground == Some("#ce8978"@)
            &&& k == "LiteralStringTag"@ ==> restyled(t).foreground == Some("#ce8978"@)
            &&& (k != "KeywordGeneral"@ && k != "IdentifierVariable"@ && k
                != "IdentifierProperty"@ && k != "IdentifierFunction"@ && k != "LiteralString"@
                && k != "LiteralStringValue"@ && k != "LiteralStringTag"@) ==> restyled(t) == t
            &&& restyled(t).font_style == t.font_style
            &&& restyled(t).name == t.name
        }),
{
    reveal_strlit("KeywordGeneral");
    reveal_strlit("IdentifierVariable");
    reveal_strlit("IdentifierProperty");
    reveal_strlit("IdentifierFunction");
    reveal_strlit("LiteralString");
    reveal_strlit("LiteralStringValue");
    reveal_strlit("LiteralStringTag");
    assert("KeywordGeneral"@.len() == 14);
    assert("LiteralString"@.len() == 13);
    assert("LiteralStringTag"@.len() == 16);
    assert("IdentifierVariable"@[10] == 'V' && "IdentifierProperty"@[10] == 'P'
        && "IdentifierFunction"@[10] == 'F');
    assert("LiteralStringValue"@[0] == 'L' && "IdentifierVariable"@[0] == 'I'
        && "IdentifierProperty"@[0] == 'I' && "IdentifierFunction"@[0] == 'I');
}

/// Restyling changes only the foreground and the font style: the name, the
/// scope and the background stay.
pub proof fn lemma_restyle_keeps_identity(t: TokenColorView)
    ensures
        restyled(t).name == t.name,
        restyled(t).scope == t.scope,
        restyled(t).background == t.background,
{
}

/// Restyling twice is restyling once: a restyled rule keeps its name and
/// scope, so it is restyled to itself.
pub proof fn lemma_restyle_idempotent(t: TokenColorView)
    requires
        can_restyle(t),
    ensures
        can_restyle(restyled(t)),
        restyled(restyled(t)) == restyled(t),
{
}

} // verus!
