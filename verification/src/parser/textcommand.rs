//! The words of a message and a cursor over them.

use vstd::prelude::*;

verus! {

/// The words that `str::split_whitespace` finds in a message, in order.
pub uninterp spec fn whitespace_words(message: Seq<char>) -> Seq<Seq<char>>;

/// The words that `str::split_ascii_whitespace` finds in a message, in order.
pub uninterp spec fn ascii_whitespace_words(message: Seq<char>) -> Seq<Seq<char>>;

/// The characters of each string.
pub open spec fn texts(words: Seq<String>) -> Seq<Seq<char>> {
    words.map_values(|w: String| w@)
}

/// Calls `str::split_whitespace` and collects the words it yields as owned
/// strings. Nothing is claimed of the words but that they are the ones this
/// std function finds in `message`.
#[verifier::external_body]
fn split_whitespace(message: &str) -> (words: Vec<String>)
    ensures
        texts(words@) == whitespace_words(message@),
{
    message.split_whitespace().map(String::from).collect()
}

/// Calls `str::split_ascii_whitespace` and collects the slices it yields.
/// Nothing is claimed of the words but that they are the ones this std
/// function finds in `message`.
#[verifier::external_body]
fn split_ascii_whitespace<'a>(message: &'a str) -> (words: Vec<&'a str>)
    ensures
        words@.map_values(|w: &str| w@) == ascii_whitespace_words(message@),
{
    message.split_ascii_whitespace().collect()
}

/// Calls `str::strip_prefix` with a string pattern: the rest of `word` behind
/// `prefix` where `word` begins with it, nothing otherwise.
#[verifier::external_body]
pub(crate) fn strip_prefix<'a>(word: &'a str, prefix: &str) -> (rest: Option<&'a str>)
    ensures
        prefix@.is_prefix_of(word@) ==> rest.is_some() && rest.unwrap()@ == word@.skip(
            prefix@.len() as int,
        ),
        !prefix@.is_prefix_of(word@) ==> rest.is_none(),
{
    word.strip_prefix(prefix)
}

/// Calls `==` on two string slices, which holds exactly when they are made
/// of the same characters.
#[verifier::external_body]
pub(crate) fn same_text(a: &str, b: &str) -> (same: bool)
    ensures
        same == (a@ == b@),
{
    a == b
}

/// The first of the words, or the empty text where there is none.
pub open spec fn first_word(words: Seq<Seq<char>>) -> Seq<char> {
    if words.len() > 0 {
        words[0]
    } else {
        Seq::empty()
    }
}

/// What is left of `word` behind `prefix`, where `word` begins with it.
pub open spec fn without_prefix(word: Seq<char>, prefix: Seq<char>) -> Option<Seq<char>> {
    if prefix.is_prefix_of(word) {
        Some(word.skip(prefix.len() as int))
    } else {
        None
    }
}

/// The command name in a message: its first word with `prefix` taken off the
/// front. A message whose first word does not begin with `prefix` holds no
/// command; a message without words counts as the empty word.
pub fn command_of_words<'a>(words: &Vec<&'a str>, prefix: &str) -> (name: Option<&'a str>)
    ensures
        match without_prefix(first_word(words@.map_values(|w: &str| w@)), prefix@) {
            Some(rest) => name.is_some() && name.unwrap()@ == rest,
            None => name.is_none(),
        },
{
    let first: &str = if words.len() > 0 {
        words[0]
    } else {
        ""
    };
    proof {
        reveal_strlit("");
        assert(""@ =~= Seq::<char>::empty());
    }
    strip_prefix(first, prefix)
}

/// The command name in `message`: its first word, split at ASCII whitespace,
/// with `prefix` taken off the front.
pub fn get_message_command<'a>(message: &'a str, prefix: &str) -> (name: Option<&'a str>)
    ensures
        match without_prefix(first_word(ascii_whitespace_words(message@)), prefix@) {
            Some(rest) => name.is_some() && name.unwrap()@ == rest,
            None => name.is_none(),
        },
{
    let words: Vec<&'a str> = split_ascii_whitespace(message);
    command_of_words(&words, prefix)
}

/// The words of a message with a cursor that walks them front to back.
#[derive(Clone)]
pub struct TextCommand {
    words: Vec<String>,
    ptr: usize,
}

impl TextCommand {
    /// The words, as the strings that hold them.
    pub closed spec fn strings(&self) -> Seq<String> {
        self.words@
    }

    /// The words, as texts.
    pub open spec fn words(&self) -> Seq<Seq<char>> {
        texts(self.strings())
    }

    /// How many words the cursor has passed.
    pub closed spec fn cursor(&self) -> nat {
        self.ptr as nat
    }

    /// The words that the cursor has not passed yet.
    pub open spec fn remaining(&self) -> Seq<Seq<char>> {
        if self.cursor() <= self.words().len() {
            self.words().skip(self.cursor() as int)
        } else {
            Seq::empty()
        }
    }

    /// The words of `message`, split at whitespace, with the cursor before
    /// the first.
    pub fn new(message: &str) -> (t: TextCommand)
        ensures
            t.words() == whitespace_words(message@),
            t.cursor() == 0,
    {
        TextCommand::from_words(split_whitespace(message))
    }

    /// A command of the given words, with the cursor before the first.
    pub fn from_words(words: Vec<String>) -> (t: TextCommand)
        ensures
            t.strings() == words@,
            t.cursor() == 0,
    {
        TextCommand { words, ptr: 0 }
    }

    /// How many words the cursor has passed.
    pub fn position(&self) -> (p: usize)
        ensures
            p == self.cursor(),
    {
        self.ptr
    }

    /// The number of words.
    pub fn len(&self) -> (n: usize)
        ensures
            n == self.strings().len(),
    {
        self.words.len()
    }

    /// The word at `at`, wherever the cursor stands.
    pub fn word(&self, at: usize) -> (w: Option<String>)
        ensures
            w == if at < self.strings().len() {
                Some(self.strings()[at as int])
            } else {
                None
            },
    {
        if at < self.words.len() {
            Some(self.words[at].clone())
        } else {
            None
        }
    }

    /// Whether the message held no word at all.
    pub fn is_empty(&self) -> (e: bool)
        ensures
            e == (self.words().len() == 0),
    {
        self.words.len() == 0
    }

    /// The first word, wherever the cursor stands.
    pub fn first(&self) -> (w: &str)
        requires
            self.words().len() > 0,
        ensures
            w@ == self.words()[0],
    {
        self.words[0].as_str()
    }

    /// The word at the cursor, which then moves past it; nothing once every
    /// word has been passed.
    pub fn next(&mut self) -> (w: Option<String>)
        ensures
            final(self).strings() == old(self).strings(),
            old(self).cursor() < old(self).words().len() ==> w == Some(
                old(self).strings()[old(self).cursor() as int],
            ) && final(self).cursor() == old(self).cursor() + 1,
            old(self).cursor() >= old(self).words().len() ==> w.is_none() && final(self).cursor()
                == old(self).cursor(),
    {
        if self.ptr >= self.words.len() {
            return None;
        }
        let word: String = self.words[self.ptr].clone();
        self.ptr = self.ptr + 1;
        Some(word)
    }
}

} // verus!
