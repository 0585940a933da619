//! Formatting of identifiers as lower-case, hyphen-separated feature names.
use vstd::prelude::*;
use vstd::std_specs::iter::IteratorSpec;
use crate::text::{concat_all, lemma_concat_all_append, lemma_concat_all_take, push_char, push_str};

verus! {

/// Whether `c` has the Unicode White_Space property.
pub uninterp spec fn is_space(c: char) -> bool;

/// Whether `c` has the Unicode Uppercase property.
pub uninterp spec fn is_upper(c: char) -> bool;

/// The Unicode lowercase mapping of `c`.
pub uninterp spec fn lower_of(c: char) -> Seq<char>;

/// Relies on `char::is_whitespace`: the White_Space property of `c`.
#[verifier::external_body]
fn is_whitespace(c: char) -> (r: bool)
    ensures
        r == is_space(c),
{
    c.is_whitespace()
}

/// Relies on `char::is_uppercase`: the Uppercase property of `c`.
#[verifier::external_body]
fn is_uppercase(c: char) -> (r: bool)
    ensures
        r == is_upper(c),
{
    c.is_uppercase()
}

/// Relies on `char::to_lowercase`: the lowercase mapping of `c`, collected
/// into a string.
#[verifier::external_body]
fn to_lowercase(c: char) -> (r: String)
    ensures
        r@ == lower_of(c),
{
    c.to_lowercase().collect()
}

/// Whether some word (a run of non-whitespace characters) begins before
/// position `i`.
pub open spec fn word_before(s: Seq<char>, i: int) -> bool {
    exists|j: int| 0 <= j < i && !is_space(#[trigger] s[j])
}

/// Whether position `i` is the first character of a word.
pub open spec fn starts_word(s: Seq<char>, i: int) -> bool {
    !is_space(s[i]) && (i == 0 || is_space(s[i - 1]))
}

/// Whether position `i` continues a fragment: the previous character is
/// neither whitespace nor an underscore.
pub open spec fn inside_fragment(s: Seq<char>, i: int) -> bool {
    i > 0 && !is_space(s[i - 1]) && s[i - 1] != '_'
}

/// A fragment character, lowered; an uppercase one that does not open its
/// fragment starts a new sub-word and is preceded by a hyphen.
pub open spec fn lower_piece(c: char, inner: bool) -> Seq<char> {
    if inner && is_upper(c) {
        seq!['-'] + lower_of(c)
    } else {
        lower_of(c)
    }
}

/// What the character at position `i` contributes. Words are separated by
/// whitespace and joined by one hyphen; within a word each underscore
/// separates two fragments, except a trailing one, which ends the word.
pub open spec fn dash_piece(s: Seq<char>, i: int) -> Seq<char> {
    let c = s[i];
    let sep: Seq<char> = if starts_word(s, i) && word_before(s, i) {
        seq!['-']
    } else {
        Seq::empty()
    };
    if is_space(c) {
        Seq::empty()
    } else if c == '_' {
        if i + 1 < s.len() && !is_space(s[i + 1]) {
            sep.push('-')
        } else {
            sep
        }
    } else {
        sep + lower_piece(c, inside_fragment(s, i))
    }
}

/// The pieces of every position, in order.
pub open spec fn dash_pieces(s: Seq<char>) -> Seq<Seq<char>> {
    Seq::new(s.len(), |i: int| dash_piece(s, i))
}

/// The lower-case, hyphen-separated form of `s`.
pub open spec fn lower_dash_text(s: Seq<char>) -> Seq<char> {
    concat_all(dash_pieces(s))
}

/// The characters of `s`, in order.
fn chars_of(s: &str) -> (r: Vec<char>)
    ensures
        r@ == s@,
{
    broadcast use vstd::string::axiom_spec_iter, vstd::string::next_postcondition;

    let mut it = s.chars();
    let mut r: Vec<char> = Vec::new();
    loop
        invariant
            it.obeys_prophetic_iter_laws(),
            r@ + it.remaining() == s@,
        ensures
            r@ == s@,
        decreases s@.len() - r@.len(),
    {
        match it.next() {
            Some(c) => {
                r.push(c);
                assert(r@ + it.remaining() =~= s@);
            },
            None => {
                assert(r@ + it.remaining() =~= r@);
                break;
            },
        }
    }
    r
}

/// An identifier to be written as a lower-case, hyphen-separated name.
pub struct LowerDash<'a>(pub &'a str);

impl<'a> LowerDash<'a> {
    /// Appends the fragment character `c`, lowered, with a hyphen before it
    /// when it is uppercase and `inner` says it does not open its fragment.
    pub fn write_lower(c: char, inner: bool, out: &mut String)
        ensures
            final(out)@ == old(out)@ + lower_piece(c, inner),
    {
        let ghost base = out@;
        if inner && is_uppercase(c) {
            push_char(out, '-');
        }
        let lowered = to_lowercase(c);
        push_str(out, lowered.as_str());
        assert(out@ =~= base + lower_piece(c, inner));
    }

    /// The formatted name.
    pub fn to_text(&self) -> (r: String)
        ensures
            r@ == lower_dash_text(self.0@),
    {
        lower_dash(self.0)
    }
}

/// Formats `s` as a lower-case, hyphen-separated name: words split on
/// whitespace and underscores, and again before each inner uppercase letter.
pub fn lower_dash(s: &str) -> (r: String)
    ensures
        r@ == lower_dash_text(s@),
{
    let mut out = String::new();
    let chars = chars_of(s);
    let len = chars.len();
    let ghost pieces = dash_pieces(s@);
    let mut seen_word = false;
    let mut prev_space = true;
    let mut prev_underscore = false;
    let mut i: usize = 0;
    while i < len
        invariant
            chars@ == s@,
            len == s@.len(),
            i <= len,
            pieces == dash_pieces(s@),
            out@ == concat_all(pieces.take(i as int)),
            seen_word == word_before(s@, i as int),
            prev_space == (i == 0 || is_space(s@[i - 1])),
            prev_underscore == (i > 0 && s@[i - 1] == '_'),
        decreases len - i,
    {
        let ghost before = out@;
        let c = chars[i];
        let space = is_whitespace(c);
        if !space {
            if prev_space && seen_word {
                push_char(&mut out, '-');
            }
            if c == '_' {
                if i + 1 < len && !is_whitespace(chars[i + 1]) {
                    push_char(&mut out, '-');
                }
            } else {
                LowerDash::write_lower(c, !prev_space && !prev_underscore, &mut out);
            }
        }
        proof {
            assert(out@ =~= before + dash_piece(s@, i as int));
            lemma_concat_all_take(pieces, i as int);
            if !space {
                assert(word_before(s@, i + 1));
            } else if word_before(s@, i + 1) {
                let j = choose|j: int| 0 <= j < i + 1 && !is_space(#[trigger] s@[j]);
                assert(j < i);
            }
        }
        seen_word = seen_word || !space;
        prev_space = space;
        prev_underscore = c == '_';
        i = i + 1;
    }
    assert(pieces.take(len as int) =~= pieces);
    out
}

/// A name whose first character opens a fragment with a letter (not
/// whitespace, not an underscore) starts with that letter lowered: no
/// hyphen comes before it, uppercase or not.
pub proof fn lemma_no_leading_hyphen(s: Seq<char>)
    requires
        s.len() > 0,
        !is_space(s[0]),
        s[0] != '_',
    ensures
        lower_dash_text(s).take(lower_of(s[0]).len() as int) == lower_of(s[0]),
{
    let pieces = dash_pieces(s);
    assert(!word_before(s, 0));
    assert(dash_piece(s, 0) =~= lower_of(s[0]));
    lemma_concat_all_append(pieces.take(1), pieces.skip(1));
    assert(pieces.take(1) + pieces.skip(1) =~= pieces);
    lemma_concat_all_take(pieces, 0);
    assert(pieces.take(0) =~= Seq::<Seq<char>>::empty());
    assert(concat_all(pieces.take(1)) =~= lower_of(s[0]));
    assert(lower_dash_text(s).take(lower_of(s[0]).len() as int) =~= lower_of(s[0]));
}

} // verus!
