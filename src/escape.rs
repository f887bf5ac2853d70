//! Quoting of arbitrary text as one POSIX shell word.
use vstd::prelude::*;

verus! {

/// What `c` stands for inside the quoted literal.
pub open spec fn quote_piece(c: char) -> Seq<char> {
    if c == '\'' {
        seq!['\'', '"', '\'', '"', '\'']
    } else {
        seq![c]
    }
}

/// The inside of the quoted literal: `s` with every `'` replaced by `'"'"'`.
pub open spec fn quote_body(s: Seq<char>) -> Seq<char>
    decreases s.len(),
{
    if s.len() == 0 {
        Seq::empty()
    } else {
        quote_piece(s[0]) + quote_body(s.drop_first())
    }
}

/// `s` as a single-quoted shell literal; the empty string becomes `''`.
pub open spec fn escaped(s: Seq<char>) -> Seq<char> {
    seq!['\''] + quote_body(s) + seq!['\'']
}

/// Characters that a POSIX shell treats specially outside of quotes.
pub open spec fn is_shell_special(c: char) -> bool {
    c == ' ' || c == '\t' || c == '\n' || c == '|' || c == '&' || c == ';' || c == '<' || c
        == '>' || c == '(' || c == ')' || c == '$' || c == '`' || c == '\\' || c == '*' || c
        == '?' || c == '[' || c == '#' || c == '~'
}

/// Prepends `c` to a parsed word, if there is one.
pub open spec fn cons_word(c: char, w: Option<Seq<char>>) -> Option<Seq<char>> {
    match w {
        Some(t) => Some(seq![c] + t),
        None => None,
    }
}

/// Quote removal of one shell word, read outside of any quotes. `None` where the text
/// is not a single plain word: an unquoted special character, an expansion or escape
/// inside double quotes, or an unterminated quote.
pub open spec fn word_unquoted(w: Seq<char>) -> Option<Seq<char>>
    decreases w.len(),
{
    if w.len() == 0 {
        Some(Seq::empty())
    } else if w[0] == '\'' {
        word_single(w.drop_first())
    } else if w[0] == '"' {
        word_double(w.drop_first())
    } else if is_shell_special(w[0]) {
        None
    } else {
        cons_word(w[0], word_unquoted(w.drop_first()))
    }
}

/// Quote removal of the rest of a word, read inside single quotes.
pub open spec fn word_single(w: Seq<char>) -> Option<Seq<char>>
    decreases w.len(),
{
    if w.len() == 0 {
        None
    } else if w[0] == '\'' {
        word_unquoted(w.drop_first())
    } else {
        cons_word(w[0], word_single(w.drop_first()))
    }
}

/// Quote removal of the rest of a word, read inside double quotes.
pub open spec fn word_double(w: Seq<char>) -> Option<Seq<char>>
    decreases w.len(),
{
    if w.len() == 0 {
        None
    } else if w[0] == '"' {
        word_unquoted(w.drop_first())
    } else if w[0] == '$' || w[0] == '`' || w[0] == '\\' {
        None
    } else {
        cons_word(w[0], word_double(w.drop_first()))
    }
}

proof fn lemma_quote_body_push(s: Seq<char>, c: char)
    ensures
        quote_body(s.push(c)) == quote_body(s) + quote_piece(c),
    decreases s.len(),
{
    if s.len() == 0 {
        assert(s.push(c).drop_first() =~= Seq::<char>::empty());
        assert(quote_body(Seq::<char>::empty()) == Seq::<char>::empty());
        assert(quote_body(s.push(c)) =~= quote_body(s) + quote_piece(c));
    } else {
        assert(s.push(c).drop_first() =~= s.drop_first().push(c));
        lemma_quote_body_push(s.drop_first(), c);
        assert(quote_body(s.push(c)) =~= quote_body(s) + quote_piece(c));
    }
}

proof fn lemma_single_quoted_body(s: Seq<char>)
    ensures
        word_single(quote_body(s) + seq!['\'']) == Some(s),
    decreases s.len(),
{
    let w = quote_body(s) + seq!['\''];
    if s.len() == 0 {
        assert(quote_body(s) == Seq::<char>::empty());
        assert(w =~= seq!['\'']);
        assert(w.drop_first() =~= Seq::<char>::empty());
        assert(word_unquoted(w.drop_first()) == Some(Seq::<char>::empty()));
        assert(s =~= Seq::<char>::empty());
    } else {
        assert(quote_body(s) == quote_piece(s[0]) + quote_body(s.drop_first()));
        let rest = quote_body(s.drop_first()) + seq!['\''];
        lemma_single_quoted_body(s.drop_first());
        if s[0] == '\'' {
            assert(w =~= seq!['\'', '"', '\'', '"', '\''] + rest);
            let w1 = w.drop_first();
            assert(w1 =~= seq!['"', '\'', '"', '\''] + rest);
            let w2 = w1.drop_first();
            assert(w2 =~= seq!['\'', '"', '\''] + rest);
            let w3 = w2.drop_first();
            assert(w3 =~= seq!['"', '\''] + rest);
            let w4 = w3.drop_first();
            assert(w4 =~= seq!['\''] + rest);
            assert(w4.drop_first() =~= rest);
            assert(word_unquoted(w4) == word_single(rest));
            assert(word_double(w3) == word_unquoted(w4));
            assert(word_double(w2) == cons_word('\'', word_double(w3)));
            assert(word_unquoted(w1) == word_double(w2));
            assert(word_single(w) == word_unquoted(w1));
            assert(word_single(w) == cons_word('\'', Some(s.drop_first())));
            assert(seq!['\''] + s.drop_first() =~= s);
        } else {
            assert(w =~= seq![s[0]] + rest);
            assert(w.drop_first() =~= rest);
            assert(w[0] == s[0]);
            assert(word_single(w) == cons_word(s[0], word_single(rest)));
            assert(seq![s[0]] + s.drop_first() =~= s);
        }
    }
}

/// Reading the quoted literal back as one shell word gives the original text, for
/// every text: empty, with quotes, blanks, control characters or metacharacters.
pub proof fn lemma_escaped_reads_back(s: Seq<char>)
    ensures
        word_unquoted(escaped(s)) == Some(s),
{
    let w = escaped(s);
    assert(w.drop_first() =~= quote_body(s) + seq!['\'']);
    lemma_single_quoted_body(s);
}

/// Quotes `input` as one POSIX shell word: wrapped in single quotes, each embedded
/// single quote closed, written in double quotes and reopened.
pub fn shell_escape(input: &str) -> (r: String)
    ensures
        r@ == escaped(input@),
{
    let n = input.unicode_len();
    if n == 0 {
        let r = String::from_str("''");
        proof {
            reveal_strlit("''");
            assert(quote_body(input@) == Seq::<char>::empty());
            assert(r@ =~= escaped(input@));
        }
        return r;
    }
    let mut out = String::from_str("'");
    proof {
        reveal_strlit("'");
        assert(input@.subrange(0, 0) =~= Seq::<char>::empty());
        assert(out@ =~= seq!['\''] + quote_body(input@.subrange(0, 0)));
    }
    let mut i: usize = 0;
    while i < n
        invariant
            n == input@.len(),
            i <= n,
            out@ == seq!['\''] + quote_body(input@.subrange(0, i as int)),
        decreases n - i,
    {
        let c = input.get_char(i);
        let ghost before = out@;
        if c == '\'' {
            out.append("'\"'\"'");
            proof {
                reveal_strlit("'\"'\"'");
            }
        } else {
            out.append(input.substring_char(i, i + 1));
        }
        proof {
            assert(input@.subrange(0, i + 1) =~= input@.subrange(0, i as int).push(c));
            lemma_quote_body_push(input@.subrange(0, i as int), c);
            if c != '\'' {
                assert(input@.subrange(i as int, i + 1) =~= seq![c]);
            }
            assert(out@ =~= before + quote_piece(c));
        }
        i = i + 1;
    }
    out.append("'");
    proof {
        reveal_strlit("'");
        assert(input@.subrange(0, n as int) =~= input@);
        assert(out@ =~= escaped(input@));
    }
    out
}

} // verus!
