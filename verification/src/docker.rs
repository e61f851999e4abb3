//! The command lines that manage the container of a database: what to hand
//! to `docker` to start it, to fetch its logs, to stop it and to remove it.
//!
//! Nothing here runs a command. The caller runs the command lines and hands
//! back what they print.

use vstd::prelude::*;
use vstd::string::{StrSliceExecFns, StringExecFns};

verus! {

/// The length of the longest prefix of `text` that holds no space.
pub open spec fn word_length(text: Seq<char>) -> nat
    decreases text.len(),
{
    if text.len() == 0 || text[0] == ' ' {
        0
    } else {
        1 + word_length(text.drop_first())
    }
}

/// The words of `text`: its maximal runs of characters other than the
/// space, in order. Spaces separate words and never belong to one; several
/// spaces in a row separate like one.
pub open spec fn words(text: Seq<char>) -> Seq<Seq<char>>
    decreases text.len(),
    via words_decreases
{
    if text.len() == 0 {
        Seq::empty()
    } else if text[0] == ' ' {
        words(text.drop_first())
    } else {
        let length = word_length(text) as int;
        seq![text.take(length)] + words(text.skip(length))
    }
}

#[via_fn]
proof fn words_decreases(text: Seq<char>) {
    lemma_word_length_bound(text);
}

/// The texts of a sequence of strings.
pub open spec fn texts(strings: Seq<String>) -> Seq<Seq<char>> {
    strings.map_values(|s: String| s@)
}

/// Whether `text` holds no space.
pub open spec fn has_no_space(text: Seq<char>) -> bool {
    forall|i: int| 0 <= i < text.len() ==> #[trigger] text[i] != ' '
}

/// The first word never runs past the end of the text.
pub proof fn lemma_word_length_bound(text: Seq<char>)
    ensures
        word_length(text) <= text.len(),
        text.len() > 0 && text[0] != ' ' ==> word_length(text) >= 1,
    decreases text.len(),
{
    if text.len() > 0 && text[0] != ' ' {
        lemma_word_length_bound(text.drop_first());
    }
}

/// A run without spaces that ends the text, or that a space follows, is the
/// first word.
proof fn lemma_word_length_of_run(run: Seq<char>, rest: Seq<char>)
    requires
        has_no_space(run),
        rest.len() == 0 || rest[0] == ' ',
    ensures
        word_length(run + rest) == run.len(),
    decreases run.len(),
{
    if run.len() > 0 {
        assert((run + rest)[0] == run[0]);
        assert((run + rest).drop_first() =~= run.drop_first() + rest);
        assert forall|i: int| 0 <= i < run.drop_first().len() implies #[trigger] run.drop_first()[i]
            != ' ' by {
            assert(run.drop_first()[i] == run[i + 1]);
        }
        lemma_word_length_of_run(run.drop_first(), rest);
    } else {
        assert(run + rest =~= rest);
    }
}

/// The words of a non-empty run without spaces followed by `rest`, where
/// `rest` is empty or starts with a space: the run, then the words of
/// `rest`.
proof fn lemma_words_after_run(run: Seq<char>, rest: Seq<char>)
    requires
        run.len() > 0,
        has_no_space(run),
        rest.len() == 0 || rest[0] == ' ',
    ensures
        words(run + rest) == seq![run] + words(rest),
{
    let text = run + rest;
    lemma_word_length_of_run(run, rest);
    assert(text[0] == run[0]);
    assert(text.take(run.len() as int) =~= run);
    assert(text.skip(run.len() as int) =~= rest);
}

/// No word is empty and no word holds a space.
pub proof fn law_words_are_nonempty_and_spaceless(text: Seq<char>)
    ensures
        forall|i: int|
            0 <= i < words(text).len() ==> (#[trigger] words(text)[i]).len() > 0 && has_no_space(
                words(text)[i],
            ),
    decreases text.len(),
{
    if text.len() == 0 {
        assert(words(text).len() == 0);
    } else if text[0] == ' ' {
        law_words_are_nonempty_and_spaceless(text.drop_first());
        assert(words(text) == words(text.drop_first()));
    } else {
        let length = word_length(text) as int;
        let first = text.take(length);
        let later = words(text.skip(length));
        lemma_word_length_bound(text);
        law_words_are_nonempty_and_spaceless(text.skip(length));
        lemma_first_word_has_no_space(text);
        assert(words(text) == seq![first] + later);
        assert forall|i: int| 0 <= i < words(text).len() implies (#[trigger] words(text)[i]).len()
            > 0 && has_no_space(words(text)[i]) by {
            if i > 0 {
                assert(words(text)[i] == later[i - 1]);
            } else {
                assert(words(text)[0] == first);
                assert(first.len() == length);
            }
        }
    }
}

/// The first word holds no space.
proof fn lemma_first_word_has_no_space(text: Seq<char>)
    ensures
        has_no_space(text.take(word_length(text) as int)),
    decreases text.len(),
{
    lemma_word_length_bound(text);
    if text.len() > 0 && text[0] != ' ' {
        let rest = text.drop_first();
        lemma_first_word_has_no_space(rest);
        lemma_word_length_bound(rest);
        let word = text.take(word_length(text) as int);
        assert forall|i: int| 0 <= i < word.len() implies #[trigger] word[i] != ' ' by {
            if i > 0 {
                assert(word[i] == rest.take(word_length(rest) as int)[i - 1]);
            }
        }
    }
}

/// Splits `text` at its spaces into its words.
pub fn split_words(text: &str) -> (found: Vec<String>)
    ensures
        texts(found@) == words(text@),
{
    let length = text.unicode_len();
    let mut found: Vec<String> = Vec::new();
    let mut current = String::new();
    let mut position: usize = 0;
    proof {
        assert(current@ + text@.skip(0) =~= text@);
        assert(texts(found@) + words(text@) =~= words(text@));
    }
    while position < length
        invariant
            length == text@.len(),
            position <= length,
            has_no_space(current@),
            words(text@) == texts(found@) + words(current@ + text@.skip(position as int)),
        decreases length - position,
    {
        let c = text.get_char(position);
        let ghost rest = text@.skip(position as int);
        let ghost after = text@.skip(position as int + 1);
        proof {
            assert(rest[0] == c);
            assert(rest.drop_first() =~= after);
        }
        if c == ' ' {
            if current.unicode_len() > 0 {
                proof {
                    lemma_words_after_run(current@, rest);
                    assert(texts(found@.push(current)) =~= texts(found@) + seq![current@]);
                    assert(Seq::<char>::empty() + after =~= after);
                }
                found.push(current);
                current = String::new();
            } else {
                proof {
                    assert(current@ + rest =~= rest);
                    assert(current@ + after =~= after);
                }
            }
        } else {
            proof {
                assert(current@.push(c) + after =~= current@ + rest);
            }
            current.push(c);
        }
        position = position + 1;
    }
    proof {
        let rest = text@.skip(position as int);
        assert(rest.len() == 0);
        if current@.len() > 0 {
            lemma_words_after_run(current@, rest);
            assert(texts(found@.push(current)) =~= texts(found@) + seq![current@]);
        } else {
            assert(current@ + rest =~= Seq::<char>::empty());
        }
    }
    if current.unicode_len() > 0 {
        found.push(current);
    }
    found
}

/// The arguments of one command line.
pub struct Arguments(Vec<String>);

impl Arguments {
    /// The arguments as texts, in order.
    pub closed spec fn view(&self) -> Seq<Seq<char>> {
        texts(self.0@)
    }

    /// A command line that holds `args`.
    pub fn new(args: Vec<String>) -> (arguments: Self)
        ensures
            arguments@ == texts(args@),
    {
        let mut arguments = Arguments(Vec::new());
        arguments.add(args);
        proof {
            assert(Seq::<Seq<char>>::empty() + texts(args@) =~= texts(args@));
        }
        arguments
    }

    /// Adds each of `args` at the end, as it is.
    pub fn add(&mut self, args: Vec<String>)
        ensures
            final(self)@ == old(self)@ + texts(args@),
    {
        let mut args = args;
        proof {
            assert(texts(self.0@ + args@) =~= texts(self.0@) + texts(args@));
        }
        self.0.append(&mut args);
    }

    /// Adds the words of `args` at the end: `args` is split at its spaces,
    /// and empty pieces are dropped.
    pub fn append(&mut self, args: &str)
        ensures
            final(self)@ == old(self)@ + words(args@),
    {
        let found = split_words(args);
        self.add(found);
    }

    /// The arguments, in order.
    pub fn as_vec(&self) -> (args: &Vec<String>)
        ensures
            texts(args@) == self@,
    {
        &self.0
    }
}

/// How the container of one database is started.
pub struct DockerParams {
    /// The image to run unless the caller names another.
    pub image: &'static str,
    /// The arguments that stand before the image, separated by spaces.
    pub pre_args: &'static str,
    /// The arguments that stand behind the image, separated by spaces.
    pub post_args: &'static str,
}

/// The command line that starts a container: `run`, the arguments before
/// the image, `-d`, the image, the arguments behind it.
pub open spec fn start_command(
    image: Seq<char>,
    pre_args: Seq<char>,
    post_args: Seq<char>,
) -> Seq<Seq<char>> {
    seq!["run"@] + words(pre_args) + seq!["-d"@, image] + words(post_args)
}

/// The image that is started: the one the caller names, else the default.
pub open spec fn chosen_image(image: Option<String>, default_image: Seq<char>) -> Seq<char> {
    match image {
        Some(name) => name@,
        None => default_image,
    }
}

/// The command line `verb id`.
pub open spec fn container_command(verb: Seq<char>, id: Seq<char>) -> Seq<Seq<char>> {
    seq![verb, id]
}

/// A container that was started, known by the identifier that `docker`
/// printed for it.
pub struct DockerContainer {
    id: String,
    running: bool,
}

impl DockerContainer {
    /// The identifier of the container.
    pub closed spec fn id_of(&self) -> Seq<char> {
        self.id@
    }

    /// Whether the container has not been stopped yet.
    pub closed spec fn is_running(&self) -> bool {
        self.running
    }

    /// The command line that starts a container of `image`, or of the
    /// default image of `p` where none is named.
    pub fn start(image: Option<String>, p: &DockerParams) -> (arguments: Arguments)
        ensures
            arguments@ == start_command(chosen_image(image, p.image@), p.pre_args@, p.post_args@),
    {
        let image = match image {
            Some(name) => name,
            None => String::from_str(p.image),
        };
        let mut first: Vec<String> = Vec::new();
        first.push(String::from_str("run"));
        let mut arguments = Arguments::new(first);
        arguments.append(p.pre_args);
        let mut middle: Vec<String> = Vec::new();
        middle.push(String::from_str("-d"));
        middle.push(image);
        arguments.add(middle);
        arguments.append(p.post_args);
        proof {
            assert(texts(first@) =~= seq!["run"@]);
            assert(texts(middle@) =~= seq!["-d"@, image@]);
        }
        arguments
    }

    /// The handle of the running container that `docker` reported under
    /// `id`.
    pub fn new(id: String) -> (container: Self)
        ensures
            container.id_of() == id@,
            container.is_running(),
    {
        DockerContainer { id, running: true }
    }

    /// The identifier of the container.
    pub fn id(&self) -> (id: &String)
        ensures
            id@ == self.id_of(),
    {
        &self.id
    }

    /// Whether the container has not been stopped yet.
    pub fn running(&self) -> (running: bool)
        ensures
            running == self.is_running(),
    {
        self.running
    }

    /// The command line that prints the logs of the container.
    pub fn logs(&self) -> (arguments: Arguments)
        ensures
            arguments@ == container_command("logs"@, self.id_of()),
    {
        self.command("logs")
    }

    /// Marks the container as stopped. Returns the command line that stops
    /// it if it was running, and nothing if it had been stopped before.
    pub fn stop(&mut self) -> (arguments: Option<Arguments>)
        ensures
            !final(self).is_running(),
            final(self).id_of() == old(self).id_of(),
            old(self).is_running() ==> arguments.is_some() && arguments.unwrap()@
                == container_command("stop"@, old(self).id_of()),
            !old(self).is_running() ==> arguments.is_none(),
    {
        if self.running {
            self.running = false;
            Some(self.command("stop"))
        } else {
            None
        }
    }

    /// The command line that removes the container.
    pub fn remove(&self) -> (arguments: Arguments)
        ensures
            arguments@ == container_command("rm"@, self.id_of()),
    {
        self.command("rm")
    }

    /// The command line `verb id` for this container.
    fn command(&self, verb: &str) -> (arguments: Arguments)
        ensures
            arguments@ == container_command(verb@, self.id_of()),
    {
        let mut args: Vec<String> = Vec::new();
        args.push(String::from_str(verb));
        args.push(self.id.clone());
        proof {
            assert(texts(args@) =~= seq![verb@, self.id@]);
        }
        Arguments::new(args)
    }
}

} // verus!
