//! Splitting a raw command line into a program name and its arguments.
//!
//! A command line is cut at white space and nowhere else: there is no quoting
//! and no escaping, so an argument can never hold a blank.

use vstd::prelude::*;

verus! {

/// Whether `c` counts as white space when a command line is split.
pub uninterp spec fn is_whitespace(c: char) -> bool;

/// `char::is_whitespace` of the standard library: the result is the
/// Unicode `White_Space` property of `c`, which the contract only names.
pub assume_specification[ char::is_whitespace ](c: char) -> (blank: bool)
    ensures
        blank == is_whitespace(c),
;

/// Number of characters in front of `s` up to its first white space, or up to
/// its end if it holds none.
pub open spec fn word_len(s: Seq<char>) -> nat
    decreases s.len(),
{
    if s.len() == 0 || is_whitespace(s[0]) {
        0
    } else {
        1 + word_len(s.drop_first())
    }
}

/// The words of `s`: its maximal runs of characters that are not white
/// space, from left to right.
pub open spec fn words(s: Seq<char>) -> Seq<Seq<char>>
    decreases s.len(),
    via words_terminates
{
    if s.len() == 0 {
        Seq::empty()
    } else if is_whitespace(s[0]) {
        words(s.drop_first())
    } else {
        seq![s.take(word_len(s) as int)] + words(s.skip(word_len(s) as int))
    }
}

#[via_fn]
proof fn words_terminates(s: Seq<char>) {
    lemma_word_len_bounds(s);
}

/// A word is never longer than the text it starts, and it is empty only
/// where that text is empty or starts with white space.
pub proof fn lemma_word_len_bounds(s: Seq<char>)
    ensures
        word_len(s) <= s.len(),
        word_len(s) == 0 <==> (s.len() == 0 || is_whitespace(s[0])),
    decreases s.len(),
{
    if s.len() > 0 && !is_whitespace(s[0]) {
        lemma_word_len_bounds(s.drop_first());
    }
}

/// The word that starts `s` holds no white space, and it ends at the end of
/// `s` or right before a white space.
pub proof fn lemma_word_is_maximal(s: Seq<char>)
    ensures
        forall|i: int| 0 <= i < word_len(s) ==> !is_whitespace(#[trigger] s[i]),
        word_len(s) < s.len() ==> is_whitespace(s[word_len(s) as int]),
    decreases s.len(),
{
    lemma_word_len_bounds(s);
    if s.len() > 0 && !is_whitespace(s[0]) {
        let rest = s.drop_first();
        lemma_word_is_maximal(rest);
        lemma_word_len_bounds(rest);
        assert forall|i: int| 0 <= i < word_len(s) implies !is_whitespace(#[trigger] s[i]) by {
            if i > 0 {
                assert(s[i] == rest[i - 1]);
            }
        }
        if word_len(s) < s.len() {
            assert(s[word_len(s) as int] == rest[word_len(rest) as int]);
        }
    }
}

/// A run of `n` characters without white space that ends at the end of `s`
/// or before a white space is the word that starts `s`.
proof fn lemma_word_len_is(s: Seq<char>, n: nat)
    requires
        n <= s.len(),
        forall|i: int| 0 <= i < n ==> !is_whitespace(#[trigger] s[i]),
        n < s.len() ==> is_whitespace(s[n as int]),
    ensures
        word_len(s) == n,
    decreases n,
{
    if n > 0 {
        let rest = s.drop_first();
        assert forall|i: int| 0 <= i < n - 1 implies !is_whitespace(#[trigger] rest[i]) by {
            assert(rest[i] == s[i + 1]);
        }
        lemma_word_len_is(rest, (n - 1) as nat);
    }
}

/// Every word holds at least one character and no white space.
pub proof fn law_words_hold_no_blank(s: Seq<char>)
    ensures
        forall|i: int, j: int|
            0 <= i < words(s).len() && 0 <= j < words(s)[i].len() ==> !is_whitespace(
                #[trigger] words(s)[i][j],
            ),
        forall|i: int| 0 <= i < words(s).len() ==> (#[trigger] words(s)[i]).len() > 0,
    decreases s.len(),
{
    if s.len() == 0 {
        assert(words(s).len() == 0);
    } else if is_whitespace(s[0]) {
        law_words_hold_no_blank(s.drop_first());
        assert(words(s) == words(s.drop_first()));
    } else {
        let n = word_len(s) as int;
        let rest = words(s.skip(n));
        lemma_word_len_bounds(s);
        lemma_word_is_maximal(s);
        law_words_hold_no_blank(s.skip(n));
        let all = words(s);
        assert(all == seq![s.take(n)] + rest);
        assert forall|i: int, j: int| 0 <= i < all.len() && 0 <= j < all[i].len() implies
            !is_whitespace(#[trigger] all[i][j]) by {
            if i == 0 {
                assert(all[0][j] == s[j]);
            } else {
                assert(all[i] == rest[i - 1]);
                assert(!is_whitespace(rest[i - 1][j]));
            }
        }
        assert forall|i: int| 0 <= i < all.len() implies (#[trigger] all[i]).len() > 0 by {
            if i > 0 {
                assert(all[i] == rest[i - 1]);
                assert(rest[i - 1].len() > 0);
            }
        }
    }
}

/// A text has no word exactly if it is empty or all white space.
pub proof fn law_no_word_in_blank(s: Seq<char>)
    ensures
        words(s).len() == 0 <==> forall|i: int| 0 <= i < s.len() ==> is_whitespace(#[trigger] s[i]),
    decreases s.len(),
{
    if s.len() > 0 && is_whitespace(s[0]) {
        let rest = s.drop_first();
        law_no_word_in_blank(rest);
        if words(s).len() == 0 {
            assert forall|i: int| 0 <= i < s.len() implies is_whitespace(#[trigger] s[i]) by {
                if i > 0 {
                    assert(s[i] == rest[i - 1]);
                }
            }
        } else {
            let i = choose|i: int| 0 <= i < rest.len() && !is_whitespace(#[trigger] rest[i]);
            assert(s[i + 1] == rest[i]);
        }
    }
}

/// Cuts `line` at its white space into words, in the order in which they
/// stand. Leading and trailing white space gives no word, and neither does a
/// run of white space between two words.
pub fn split_words(line: &str) -> (out: Vec<String>)
    ensures
        out.deep_view() == words(line@),
{
    let n: usize = line.unicode_len();
    let mut out: Vec<String> = Vec::new();
    let mut i: usize = 0;
    assert(line@.skip(0) =~= line@);
    assert(out.deep_view() =~= Seq::<Seq<char>>::empty());
    while i < n
        invariant
            n == line@.len(),
            i <= n,
            out.deep_view() + words(line@.skip(i as int)) == words(line@),
        decreases n - i,
    {
        let ghost rest = line@.skip(i as int);
        let ghost before = out.deep_view();
        assert(rest[0] == line@[i as int]);
        if line.get_char(i).is_whitespace() {
            assert(rest.drop_first() =~= line@.skip(i + 1));
            i += 1;
        } else {
            let start: usize = i;
            i += 1;
            while i < n && !line.get_char(i).is_whitespace()
                invariant
                    n == line@.len(),
                    start < i <= n,
                    forall|k: int| start <= k < i ==> !is_whitespace(#[trigger] line@[k]),
                decreases n - i,
            {
                i += 1;
            }
            let word: String = line.substring_char(start, i).to_owned();
            proof {
                let len = (i - start) as nat;
                assert forall|k: int| 0 <= k < len implies !is_whitespace(#[trigger] rest[k]) by {
                    assert(rest[k] == line@[start + k]);
                }
                if len < rest.len() {
                    assert(rest[len as int] == line@[i as int]);
                }
                lemma_word_len_is(rest, len);
                assert(rest.take(len as int) =~= line@.subrange(start as int, i as int));
                assert(rest.skip(len as int) =~= line@.skip(i as int));
            }
            out.push(word);
            assert(out.deep_view() =~= before + seq![rest.take(word_len(rest) as int)]);
        }
    }
    assert(words(line@.skip(i as int)) =~= Seq::<Seq<char>>::empty());
    out
}

/// A program to start and the arguments to hand it.
#[derive(Clone, Debug, PartialEq, Eq)]
pub struct CommandLine {
    pub program: String,
    pub args: Vec<String>,
}

/// What a `CommandLine` holds, as text.
pub ghost struct CommandLineView {
    pub program: Seq<char>,
    pub args: Seq<Seq<char>>,
}

impl View for CommandLine {
    type V = CommandLineView;

    open spec fn view(&self) -> CommandLineView {
        CommandLineView { program: self.program@, args: self.args.deep_view() }
    }
}

impl DeepView for CommandLine {
    type V = CommandLineView;

    open spec fn deep_view(&self) -> CommandLineView {
        self@
    }
}

/// The command line that `line` spells: its first word is the program, the
/// words after it are the arguments in order. A line without a word spells
/// none.
pub open spec fn parsed(line: Seq<char>) -> Option<CommandLineView> {
    let w = words(line);
    if w.len() == 0 {
        None
    } else {
        Some(CommandLineView { program: w[0], args: w.skip(1) })
    }
}

impl CommandLine {
    /// Reads a command line from `line`; `None` where `line` is empty or all
    /// white space.
    pub fn parse(line: &str) -> (out: Option<CommandLine>)
        ensures
            out.deep_view() == parsed(line@),
    {
        let mut args: Vec<String> = split_words(line);
        if args.len() == 0 {
            None
        } else {
            let ghost all = args.deep_view();
            let program: String = args.remove(0);
            assert(args.deep_view() =~= all.skip(1));
            Some(CommandLine { program, args })
        }
    }
}

} // verus!
