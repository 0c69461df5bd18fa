//! Derivation of module names from the names of the hardware description.

use vstd::prelude::*;
use vstd::string::*;
use crate::text::{ascii_lower, chars_of, push_char, to_ascii_lower};

verus! {

/// Whether `c` may open a module name: a lower-case letter or an underscore.
pub open spec fn is_identifier_start(c: char) -> bool {
    c == '_' || ('a' <= c && c <= 'z')
}

/// Whether `c` may stand inside a module name: a lower-case letter, a digit
/// or an underscore.
pub open spec fn is_identifier_part(c: char) -> bool {
    is_identifier_start(c) || ('0' <= c && c <= '9')
}

/// Whether `s` is a word that the language of the emitted code keeps for
/// itself.
pub open spec fn is_reserved_word(s: Seq<char>) -> bool {
    s == "as"@
        || s == "async"@
        || s == "await"@
        || s == "break"@
        || s == "const"@
        || s == "continue"@
        || s == "crate"@
        || s == "dyn"@
        || s == "else"@
        || s == "enum"@
        || s == "extern"@
        || s == "false"@
        || s == "fn"@
        || s == "for"@
        || s == "if"@
        || s == "impl"@
        || s == "in"@
        || s == "let"@
        || s == "loop"@
        || s == "match"@
        || s == "mod"@
        || s == "move"@
        || s == "mut"@
        || s == "pub"@
        || s == "ref"@
        || s == "return"@
        || s == "self"@
        || s == "static"@
        || s == "struct"@
        || s == "super"@
        || s == "trait"@
        || s == "true"@
        || s == "type"@
        || s == "unsafe"@
        || s == "use"@
        || s == "where"@
        || s == "while"@
        || s == "abstract"@
        || s == "become"@
        || s == "box"@
        || s == "do"@
        || s == "final"@
        || s == "macro"@
        || s == "override"@
        || s == "priv"@
        || s == "try"@
        || s == "typeof"@
        || s == "unsized"@
        || s == "virtual"@
        || s == "yield"@
}

/// Whether `s` is made like a module name: not empty, opened by a letter
/// or an underscore, and made of lower-case letters, digits and underscores.
pub open spec fn is_identifier_shaped(s: Seq<char>) -> bool {
    &&& s.len() > 0
    &&& is_identifier_start(s[0])
    &&& forall|k: int| 0 <= k < s.len() ==> is_identifier_part(#[trigger] s[k])
}

/// Whether `s` can name a module: it is made like a module name, and is
/// neither a lone underscore nor a reserved word.
pub open spec fn is_identifier(s: Seq<char>) -> bool {
    is_identifier_shaped(s) && s != seq!['_'] && !is_reserved_word(s)
}

/// The character that stands for `c` in a module name: a letter in lower
/// case, a digit or an underscore as it is, an underscore for anything else.
pub open spec fn identifier_char(c: char) -> char {
    if is_identifier_part(ascii_lower(c)) {
        ascii_lower(c)
    } else {
        '_'
    }
}

/// The characters of `name`, each replaced by what stands for it in a
/// module name.
pub open spec fn identifier_chars(name: Seq<char>) -> Seq<char> {
    Seq::new(name.len(), |k: int| identifier_char(name[k]))
}

/// The characters of `name` as they stand in a module name, behind an
/// underscore where they are none or open with a digit.
pub open spec fn identifier_stem(name: Seq<char>) -> Seq<char> {
    let body = identifier_chars(name);
    if body.len() > 0 && is_identifier_start(body[0]) {
        body
    } else {
        seq!['_'] + body
    }
}

/// The module name derived from `name`: its characters in lower case, with
/// an underscore for each that no module name can hold, an underscore in
/// front where the result would be empty or open with a digit, and an
/// underscore behind where it would be a lone underscore or a reserved
/// word.
pub open spec fn module_name_text(name: Seq<char>) -> Seq<char> {
    let stem = identifier_stem(name);
    if stem == seq!['_'] || is_reserved_word(stem) {
        stem.push('_')
    } else {
        stem
    }
}

/// No reserved word ends with an underscore, and none is a lone underscore
/// before one.
proof fn lemma_reserved_words_end_with_letters(s: Seq<char>)
    requires
        s.len() > 0,
        s.last() == '_',
    ensures
        !is_reserved_word(s),
{
    if is_reserved_word(s) {
        reveal_strlit("as");
        reveal_strlit("async");
        reveal_strlit("await");
        reveal_strlit("break");
        reveal_strlit("const");
        reveal_strlit("continue");
        reveal_strlit("crate");
        reveal_strlit("dyn");
        reveal_strlit("else");
        reveal_strlit("enum");
        reveal_strlit("extern");
        reveal_strlit("false");
        reveal_strlit("fn");
        reveal_strlit("for");
        reveal_strlit("if");
        reveal_strlit("impl");
        reveal_strlit("in");
        reveal_strlit("let");
        reveal_strlit("loop");
        reveal_strlit("match");
        reveal_strlit("mod");
        reveal_strlit("move");
        reveal_strlit("mut");
        reveal_strlit("pub");
        reveal_strlit("ref");
        reveal_strlit("return");
        reveal_strlit("self");
        reveal_strlit("static");
        reveal_strlit("struct");
        reveal_strlit("super");
        reveal_strlit("trait");
        reveal_strlit("true");
        reveal_strlit("type");
        reveal_strlit("unsafe");
        reveal_strlit("use");
        reveal_strlit("where");
        reveal_strlit("while");
        reveal_strlit("abstract");
        reveal_strlit("become");
        reveal_strlit("box");
        reveal_strlit("do");
        reveal_strlit("final");
        reveal_strlit("macro");
        reveal_strlit("override");
        reveal_strlit("priv");
        reveal_strlit("try");
        reveal_strlit("typeof");
        reveal_strlit("unsized");
        reveal_strlit("virtual");
        reveal_strlit("yield");
    }
}

fn identifier_char_of(c: char) -> (mapped: char)
    ensures
        mapped == identifier_char(c),
{
    let lower = to_ascii_lower(c);
    if lower == '_' || ('a' <= lower && lower <= 'z') || ('0' <= lower && lower <= '9') {
        lower
    } else {
        '_'
    }
}

fn same_text(s: &String, word: &str) -> (same: bool)
    ensures
        same == (s@ == word@),
{
    *s == String::from_str(word)
}

fn is_reserved(s: &String) -> (reserved: bool)
    ensures
        reserved == is_reserved_word(s@),
{
    same_text(s, "as")
        || same_text(s, "async")
        || same_text(s, "await")
        || same_text(s, "break")
        || same_text(s, "const")
        || same_text(s, "continue")
        || same_text(s, "crate")
        || same_text(s, "dyn")
        || same_text(s, "else")
        || same_text(s, "enum")
        || same_text(s, "extern")
        || same_text(s, "false")
        || same_text(s, "fn")
        || same_text(s, "for")
        || same_text(s, "if")
        || same_text(s, "impl")
        || same_text(s, "in")
        || same_text(s, "let")
        || same_text(s, "loop")
        || same_text(s, "match")
        || same_text(s, "mod")
        || same_text(s, "move")
        || same_text(s, "mut")
        || same_text(s, "pub")
        || same_text(s, "ref")
        || same_text(s, "return")
        || same_text(s, "self")
        || same_text(s, "static")
        || same_text(s, "struct")
        || same_text(s, "super")
        || same_text(s, "trait")
        || same_text(s, "true")
        || same_text(s, "type")
        || same_text(s, "unsafe")
        || same_text(s, "use")
        || same_text(s, "where")
        || same_text(s, "while")
        || same_text(s, "abstract")
        || same_text(s, "become")
        || same_text(s, "box")
        || same_text(s, "do")
        || same_text(s, "final")
        || same_text(s, "macro")
        || same_text(s, "override")
        || same_text(s, "priv")
        || same_text(s, "try")
        || same_text(s, "typeof")
        || same_text(s, "unsized")
        || same_text(s, "virtual")
        || same_text(s, "yield")
}

/// Derives the module name for the hardware name `name`.
pub fn module_name(name: &str) -> (module: String)
    ensures
        module@ == module_name_text(name@),
        is_identifier(module@),
{
    let chars = chars_of(name);
    let mut module = String::new();
    if chars.len() == 0 {
        push_char(&mut module, '_');
    } else {
        let first = identifier_char_of(chars[0]);
        if !(first == '_' || ('a' <= first && first <= 'z')) {
            push_char(&mut module, '_');
        }
    }
    let ghost lead = module@;
    let mut k: usize = 0;
    while k < chars.len()
        invariant
            0 <= k <= chars.len(),
            chars@ == name@,
            module@ == lead + identifier_chars(name@.take(k as int)),
        decreases chars.len() - k,
    {
        push_char(&mut module, identifier_char_of(chars[k]));
        k += 1;
    }
    assert(name@.take(k as int) =~= name@);
    let lone = same_text(&module, "_");
    proof {
        reveal_strlit("_");
        assert("_"@ =~= seq!['_']);
    }
    if lone || is_reserved(&module) {
        push_char(&mut module, '_');
        proof {
            lemma_reserved_words_end_with_letters(module@);
        }
    }
    module
}

} // verus!
