use vstd::prelude::*;

use crate::stack_vec::{StackVec, Overflow};

verus! {

/// The words of `s`: its maximal runs of characters other than `' '`, in
/// order. A character other than a space joins the first word of the rest of
/// the text when the next character is not a space either, and starts a word
/// of its own otherwise.
pub open spec fn words(s: Seq<char>) -> Seq<Seq<char>>
    decreases s.len(),
{
    if s.len() == 0 {
        Seq::empty()
    } else {
        let rest = words(s.skip(1));
        if s[0] == ' ' {
            rest
        } else if s.len() > 1 && s[1] != ' ' {
            seq![seq![s[0]] + rest[0]].add(rest.skip(1))
        } else {
            seq![seq![s[0]]].add(rest)
        }
    }
}

/// Every word is non-empty and holds no space.
pub proof fn lemma_words_are_tokens(s: Seq<char>)
    ensures
        forall|i: int| 0 <= i < words(s).len() ==> #[trigger] words(s)[i].len() > 0,
        forall|i: int, j: int|
            0 <= i < words(s).len() && 0 <= j < words(s)[i].len() ==> #[trigger] words(s)[i][j]
                != ' ',
    decreases s.len(),
{
    if s.len() > 0 {
        let t = s.skip(1);
        lemma_words_are_tokens(t);
        if s.len() > 1 && s[0] != ' ' && s[1] != ' ' {
            lemma_word_starts_text(t);
            let w = words(s);
            let rest = words(t);
            assert forall|i: int, j: int|
                0 <= i < w.len() && 0 <= j < w[i].len() implies #[trigger] w[i][j] != ' ' by {
                if i == 0 && j > 0 {
                    assert(w[0][j] == rest[0][j - 1]);
                } else if i > 0 {
                    assert(w[i] == rest[i]);
                }
            }
        }
    }
}

/// A text whose first character is not a space has at least one word.
proof fn lemma_word_starts_text(s: Seq<char>)
    requires
        s.len() > 0,
        s[0] != ' ',
    ensures
        words(s).len() > 0,
    decreases s.len(),
{
    if s.len() > 1 && s[1] != ' ' {
        lemma_word_starts_text(s.skip(1));
    }
}

/// Splitting a text that starts with a word of `k` characters, followed by a
/// space or by nothing: the first word is that one, and the others are the
/// words of what follows it.
proof fn lemma_words_split_first(s: Seq<char>, k: int)
    requires
        1 <= k <= s.len(),
        forall|j: int| 0 <= j < k ==> s[j] != ' ',
        k == s.len() || s[k] == ' ',
    ensures
        words(s) == seq![s.take(k)].add(words(s.skip(k))),
    decreases k,
{
    let t = s.skip(1);
    if k == 1 {
        assert(s.take(1) =~= seq![s[0]]);
        assert(t =~= s.skip(1));
    } else {
        lemma_words_split_first(t, k - 1);
        assert(t.skip(k - 1) =~= s.skip(k));
        assert(seq![s[0]] + t.take(k - 1) =~= s.take(k));
        assert(seq![t.take(k - 1)].add(words(s.skip(k))).skip(1) =~= words(s.skip(k)));
        assert(words(s) =~= seq![s.take(k)].add(words(s.skip(k))));
    }
}

/// The texts of a list of string slices.
pub open spec fn texts<'a>(args: Seq<&'a str>) -> Seq<Seq<char>> {
    args.map_values(|a: &'a str| a@)
}

/// Why a line could not be parsed into a command.
#[derive(Debug, Clone, Copy, PartialEq, Eq, Structural)]
pub enum ParseError {
    /// The line holds no argument.
    Empty,
    /// The line holds more arguments than the storage has slots.
    TooManyArgs,
}

/// A shell command: the non-empty list of arguments of one line, held in a
/// bounded sequence over storage supplied by the caller. The arguments borrow
/// from the line.
pub struct Command<'a> {
    args: StackVec<&'a str>,
}

impl<'a> View for Command<'a> {
    type V = Seq<Seq<char>>;

    /// The arguments' texts, in order.
    closed spec fn view(&self) -> Seq<Seq<char>> {
        texts(self.args@)
    }
}

impl<'a> Command<'a> {
    /// A command has at least one argument.
    pub closed spec fn wf(&self) -> bool {
        self.args.wf() && self.args@.len() > 0
    }

    /// Parses `s` into its space-separated arguments, using `buf` as storage
    /// for them. Runs of spaces count as one separator, and leading and
    /// trailing spaces are ignored. Fails with `TooManyArgs` when `s` has
    /// more arguments than `buf` has slots, and with `Empty` when it has none.
    pub fn parse(s: &'a str, buf: Vec<&'a str>) -> (r: Result<Command<'a>, ParseError>)
        ensures
            words(s@).len() > buf@.len() <==> r == Err::<Command<'a>, ParseError>(
                ParseError::TooManyArgs,
            ),
            words(s@).len() <= buf@.len() && words(s@).len() == 0 <==> r == Err::<
                Command<'a>,
                ParseError,
            >(ParseError::Empty),
            r matches Ok(c) ==> c.wf() && c@ == words(s@),
            r matches Ok(c) ==> forall|i: int|
                0 <= i < c@.len() ==> #[trigger] c@[i].len() > 0 && !c@[i].contains(' '),
    {
        proof {
            lemma_words_are_tokens(s@);
        }
        let n = s.unicode_len();
        let ghost cap = buf@.len();
        let mut args = StackVec::new(buf);
        let mut i: usize = 0;
        assert(s@.skip(0) =~= s@);
        assert(texts(args@) + words(s@) =~= words(s@));
        while i < n
            invariant
                n == s@.len(),
                i <= n,
                args.wf(),
                args.spec_capacity() == cap,
                cap == buf@.len(),
                texts(args@) + words(s@.skip(i as int)) == words(s@),
            decreases n - i,
        {
            if s.get_char(i) == ' ' {
                assert(s@.skip(i as int).skip(1) =~= s@.skip(i + 1));
                i = i + 1;
            } else {
                let start = i;
                while i < n && s.get_char(i) != ' '
                    invariant
                        n == s@.len(),
                        start < n,
                        s@[start as int] != ' ',
                        start <= i <= n,
                        args.wf(),
                        args.spec_capacity() == cap,
                        cap == buf@.len(),
                        texts(args@) + words(s@.skip(start as int)) == words(s@),
                        forall|j: int| start <= j < i ==> s@[j] != ' ',
                    decreases n - i,
                {
                    i = i + 1;
                }
                let word = s.substring_char(start, i);
                let ghost rest = s@.skip(start as int);
                proof {
                    lemma_words_split_first(rest, i - start);
                    assert(rest.take(i - start) =~= word@);
                    assert(rest.skip(i - start) =~= s@.skip(i as int));
                }
                let ghost before = args@;
                match args.push(word) {
                    Ok(()) => {
                        assert(texts(args@) =~= texts(before).push(word@));
                        assert(texts(args@) + words(s@.skip(i as int))
                            =~= words(s@));
                    },
                    Err(Overflow) => {
                        proof {
                            args.lemma_len_bounded();
                        }
                        assert(before.len() == cap);
                        assert(words(rest).len() >= 1);
                        assert(words(s@).len() == before.len() + words(rest).len());
                        return Err(ParseError::TooManyArgs);
                    },
                }
            }
        }
        assert(s@.skip(n as int) =~= Seq::<char>::empty());
        assert(texts(args@) =~= words(s@));
        proof {
            args.lemma_len_bounded();
        }
        if args.is_empty() {
            return Err(ParseError::Empty);
        }
        Ok(Command { args })
    }

    /// The command's path: its first argument, the command's name.
    pub fn path(&self) -> (r: &'a str)
        requires
            self.wf(),
        ensures
            r@ == self@[0],
    {
        self.args.get(0)
    }

    /// The number of arguments, the path included.
    pub fn len(&self) -> (r: usize)
        requires
            self.wf(),
        ensures
            r == self@.len(),
            r > 0,
    {
        self.args.len()
    }

    /// The argument at `index`; the path is at index 0.
    pub fn arg(&self, index: usize) -> (r: &'a str)
        requires
            self.wf(),
            index < self@.len(),
        ensures
            r@ == self@[index as int],
    {
        self.args.get(index)
    }
}

} // verus!
