//! Loading policies from files and directories.

use std::collections::VecDeque;

use vstd::prelude::*;
use vstd::string::{StrSliceExecFns, StringExecFns};

use crate::failure::Failure;

verus! {

/// The number of patterns that policy files are found by.
pub const PATTERN_COUNT: usize = 4;

/// What follows a directory in the pattern at the given position: YAML, TOML and JSON files at any
/// depth below it.
pub open spec fn pattern_suffix(position: int) -> Seq<char> {
    if position == 0 {
        "/**/*.yml"@
    } else if position == 1 {
        "/**/*.yaml"@
    } else if position == 2 {
        "/**/*.toml"@
    } else {
        "/**/*.json"@
    }
}

/// Whether a character does not stand for itself in a pattern.
pub open spec fn is_special(c: char) -> bool {
    c == '?' || c == '*' || c == '[' || c == ']'
}

/// A character as a pattern that only it matches: itself, or itself in brackets where it would
/// otherwise mean something else.
pub open spec fn escaped_char(c: char) -> Seq<char> {
    if is_special(c) {
        seq!['[', c, ']']
    } else {
        seq![c]
    }
}

/// A text as a pattern that only it matches.
pub open spec fn escaped(text: Seq<char>) -> Seq<char>
    decreases text.len(),
{
    if text.len() == 0 {
        Seq::empty()
    } else {
        escaped(text.drop_last()) + escaped_char(text.last())
    }
}

/// Writes a text as a pattern that only it matches.
pub fn escape(text: &str) -> (pattern: String)
    ensures
        pattern@ == escaped(text@),
{
    proof {
        reveal_strlit("[");
        reveal_strlit("]");
    }
    let len: usize = text.unicode_len();
    let mut pattern = String::new();
    let mut i: usize = 0;
    assert(text@.take(0) =~= Seq::<char>::empty());
    while i < len
        invariant
            i <= len,
            len == text@.len(),
            "["@ =~= seq!['['],
            "]"@ =~= seq![']'],
            pattern@ == escaped(text@.take(i as int)),
        decreases len - i,
    {
        let c = text.get_char(i);
        let literal = text.substring_char(i, i + 1);
        let ghost before = pattern@;
        if c == '?' || c == '*' || c == '[' || c == ']' {
            pattern.append("[");
            pattern.append(literal);
            pattern.append("]");
        } else {
            pattern.append(literal);
        }
        assert(pattern@ =~= before + escaped_char(c));
        i += 1;
        assert(text@.take(i as int).drop_last() =~= text@.take(i - 1));
    }
    assert(text@.take(i as int) =~= text@);
    pattern
}

/// The pattern at the given position, of policy files below `dir`. The directory's name is taken
/// literally, whatever characters it holds.
pub fn policy_pattern(dir: &str, position: usize) -> (pattern: String)
    requires
        position < PATTERN_COUNT,
    ensures
        pattern@ == escaped(dir@) + pattern_suffix(position as int),
{
    let suffix = match position {
        0 => "/**/*.yml",
        1 => "/**/*.yaml",
        2 => "/**/*.toml",
        _ => "/**/*.json",
    };
    escape(dir).concat(suffix)
}

/// The paths among what a pattern matched, in order, without the matches that could not be read.
pub open spec fn readable<P, G>(matches: Seq<Result<P, G>>) -> Seq<P>
    decreases matches.len(),
{
    if matches.len() == 0 {
        Seq::empty()
    } else {
        match matches.last() {
            Ok(path) => readable(matches.drop_last()).push(path),
            Err(_) => readable(matches.drop_last()),
        }
    }
}

/// What is to be done next.
pub enum PolicyDirAction<P> {
    /// List the files that match a pattern.
    ListFiles { pattern: String },
    /// Load the policy in a file.
    LoadFile { path: P },
    /// Nothing: every file has been tried.
    Finished,
}

/// How far loading a directory has come.
pub struct PolicyDirModel<P> {
    /// The directory.
    pub dir: Seq<char>,
    /// The number of patterns whose files have been listed.
    pub listed: int,
    /// The files that have been listed and not tried, in order.
    pub queue: Seq<P>,
}

impl<P> PolicyDirModel<P> {
    /// Nothing has been listed yet.
    pub open spec fn start(dir: Seq<char>) -> PolicyDirModel<P> {
        PolicyDirModel { dir, listed: 0, queue: Seq::empty() }
    }

    /// The next pattern's files have been listed.
    pub open spec fn after_listing<G>(self, matches: Seq<Result<P, G>>) -> PolicyDirModel<P> {
        PolicyDirModel {
            dir: self.dir,
            listed: self.listed + 1,
            queue: self.queue + readable(matches),
        }
    }

    /// The pattern whose files are listed next.
    pub open spec fn pattern(self) -> Seq<char> {
        escaped(self.dir) + pattern_suffix(self.listed)
    }

    /// The next file is being tried.
    pub open spec fn after_file(self) -> PolicyDirModel<P> {
        PolicyDirModel { queue: self.queue.skip(1), ..self }
    }
}

/// Loading the policies below a directory, one action at a time.
pub struct PolicyDirLoad<P> {
    dir: String,
    listed: usize,
    queue: VecDeque<P>,
}

impl<P> View for PolicyDirLoad<P> {
    type V = PolicyDirModel<P>;

    closed spec fn view(&self) -> PolicyDirModel<P> {
        PolicyDirModel { dir: self.dir@, listed: self.listed as int, queue: self.queue@ }
    }
}

impl<P> PolicyDirLoad<P> {
    /// Nothing below `dir` has been listed yet.
    pub fn new(dir: &str) -> (load: PolicyDirLoad<P>)
        ensures
            load@ == PolicyDirModel::<P>::start(dir@),
            load@.dir == dir@,
            load@.listed == 0,
            load@.queue.len() == 0,
    {
        PolicyDirLoad { dir: dir.to_owned(), listed: 0, queue: VecDeque::new() }
    }

    /// Gives what is to be done next. First the files of every pattern are listed, then each file is
    /// loaded.
    pub fn next(&mut self) -> (action: PolicyDirAction<P>)
        ensures
            old(self)@.listed < PATTERN_COUNT ==> {
                &&& action matches PolicyDirAction::ListFiles { pattern }
                &&& pattern@ == escaped(old(self)@.dir) + pattern_suffix(old(self)@.listed)
                &&& pattern@ == old(self)@.pattern()
                &&& final(self)@ == old(self)@
            },
            old(self)@.listed >= PATTERN_COUNT && old(self)@.queue.len() > 0 ==> {
                &&& action == PolicyDirAction::LoadFile { path: old(self)@.queue[0] }
                &&& final(self)@ == old(self)@.after_file()
            },
            old(self)@.listed >= PATTERN_COUNT && old(self)@.queue.len() == 0 ==> {
                &&& action is Finished
                &&& final(self)@ == old(self)@
            },
    {
        if self.listed < PATTERN_COUNT {
            return PolicyDirAction::ListFiles {
                pattern: policy_pattern(self.dir.as_str(), self.listed),
            };
        }
        let ghost queue = self.queue@;
        match self.queue.pop_front() {
            Some(path) => {
                assert(self.queue@ =~= queue.skip(1));
                PolicyDirAction::LoadFile { path }
            },
            None => PolicyDirAction::Finished,
        }
    }

    /// Reports what the pattern that was to be listed matches. Matches that could not be read are
    /// passed over.
    pub fn files_listed<G>(&mut self, matches: Vec<Result<P, G>>)
        requires
            old(self)@.listed < PATTERN_COUNT,
        ensures
            final(self)@ == old(self)@.after_listing(matches@),
            final(self)@.dir == old(self)@.dir,
            final(self)@.listed == old(self)@.listed + 1,
    {
        let ghost all = matches@;
        let mut rest = matches;
        let mut paths: VecDeque<P> = VecDeque::new();
        while rest.len() > 0
            invariant
                readable(all) == readable(rest@) + paths@,
            decreases rest.len(),
        {
            let ghost shorter = rest@.drop_last();
            match rest.pop() {
                Some(Ok(path)) => {
                    let ghost tail = paths@;
                    paths.push_front(path);
                    assert(readable(shorter).push(path) + tail =~= readable(shorter) + paths@);
                },
                Some(Err(_)) => {},
                None => {},
            }
        }
        assert(readable(all) =~= paths@);
        self.queue.append(&mut paths);
        self.listed += 1;
    }

    /// Reports the outcome of loading a file. A failure is handed back to be logged as a warning; it
    /// keeps no other file from being loaded.
    pub fn file_loaded<E>(&mut self, outcome: Result<(), Failure<E>>) -> (warning: Option<
        Failure<E>,
    >)
        ensures
            match outcome {
                Ok(()) => warning is None,
                Err(failure) => warning == Some(failure),
            },
            final(self)@ == old(self)@,
    {
        match outcome {
            Ok(()) => None,
            Err(failure) => Some(failure),
        }
    }
}

impl<P> PolicyDirModel<P> {
    /// The next `count` files are being tried, one after the other.
    pub open spec fn after_files(self, count: nat) -> PolicyDirModel<P>
        decreases count,
    {
        if count == 0 {
            self
        } else {
            self.after_files((count - 1) as nat).after_file()
        }
    }
}

/// The readable matches of two patterns are those of the first, then those of the second.
proof fn lemma_readable_concat<P, G>(first: Seq<Result<P, G>>, second: Seq<Result<P, G>>)
    ensures
        readable(first + second) == readable(first) + readable(second),
    decreases second.len(),
{
    if second.len() == 0 {
        assert(first + second =~= first);
    } else {
        lemma_readable_concat(first, second.drop_last());
        assert((first + second).drop_last() =~= first + second.drop_last());
        assert((first + second).last() == second.last());
    }
}

/// A directory whose name holds no character with a meaning in patterns goes into its patterns as
/// it is.
pub proof fn law_plain_dir(dir: Seq<char>)
    requires
        forall|i: int| 0 <= i < dir.len() ==> !is_special(#[trigger] dir[i]),
    ensures
        escaped(dir) == dir,
    decreases dir.len(),
{
    if dir.len() > 0 {
        let rest = dir.drop_last();
        assert forall|i: int| 0 <= i < rest.len() implies !is_special(#[trigger] rest[i]) by {
            assert(rest[i] == dir[i]);
        }
        law_plain_dir(rest);
        assert(!is_special(dir[dir.len() - 1]));
        assert(rest + seq![dir.last()] =~= dir);
    }
}

/// Different directories have different patterns.
pub proof fn law_dirs_told_apart(left: Seq<char>, right: Seq<char>, position: int)
    requires
        escaped(left) + pattern_suffix(position) == escaped(right) + pattern_suffix(position),
    ensures
        left == right,
{
    let suffix = pattern_suffix(position);
    let a = escaped(left);
    let b = escaped(right);
    assert(a.len() == b.len()) by {
        assert((a + suffix).len() == (b + suffix).len());
    }
    assert(a =~= (a + suffix).take(a.len() as int));
    assert(b =~= (b + suffix).take(b.len() as int));
    lemma_escaped_differs(left, right);
}

/// Texts with the same escaped form are the same.
proof fn lemma_escaped_differs(left: Seq<char>, right: Seq<char>)
    requires
        escaped(left) == escaped(right),
    ensures
        left == right,
    decreases left.len(),
{
    let all = escaped(left);
    if left.len() == 0 || right.len() == 0 {
        assert(left =~= right);
    } else {
        let a = escaped(left.drop_last());
        let b = escaped(right.drop_last());
        let x = escaped_char(left.last());
        let y = escaped_char(right.last());
        assert(all == a + x);
        assert(all == b + y);
        assert(all.last() == x.last() && all.last() == y.last());
        assert(is_special(left.last()) == is_special(right.last()));
        assert(x.len() == y.len());
        if is_special(left.last()) {
            assert(all[all.len() - 2] == x[1] && all[all.len() - 2] == y[1]);
        }
        assert(left.last() == right.last());
        assert(a =~= all.take(all.len() - x.len()));
        assert(b =~= all.take(all.len() - y.len()));
        lemma_escaped_differs(left.drop_last(), right.drop_last());
        assert(left =~= left.drop_last().push(left.last()));
        assert(right =~= right.drop_last().push(right.last()));
    }
}

/// Below a directory, every readable match of the four patterns is found, in the order of the
/// patterns and within a pattern in the order of its matches.
pub proof fn law_dir_files<P, G>(
    dir: Seq<char>,
    yml: Seq<Result<P, G>>,
    yaml: Seq<Result<P, G>>,
    toml: Seq<Result<P, G>>,
    json: Seq<Result<P, G>>,
)
    ensures
        ({
            let state = PolicyDirModel::<P>::start(dir).after_listing(yml).after_listing(
                yaml,
            ).after_listing(toml).after_listing(json);
            &&& state.listed == PATTERN_COUNT
            &&& state.queue == readable(yml + yaml + toml + json)
        }),
{
    lemma_readable_concat(yml, yaml);
    lemma_readable_concat(yml + yaml, toml);
    lemma_readable_concat(yml + yaml + toml, json);
    assert(Seq::<P>::empty() + readable(yml) =~= readable(yml));
}

/// The files that were found are tried one after the other, each exactly once, whatever comes of
/// it: the next after `count` of them is the one at that position, and after all of them there is
/// none.
pub proof fn law_dir_tries_each_file<P>(state: PolicyDirModel<P>, count: nat)
    requires
        count <= state.queue.len(),
    ensures
        state.after_files(count).listed == state.listed,
        state.after_files(count).queue == state.queue.skip(count as int),
        count < state.queue.len() ==> state.after_files(count).queue[0] == state.queue[count as int],
        count == state.queue.len() ==> state.after_files(count).queue.len() == 0,
    decreases count,
{
    if count == 0 {
        assert(state.queue.skip(0) =~= state.queue);
    } else {
        law_dir_tries_each_file(state, (count - 1) as nat);
        assert(state.queue.skip(count - 1).skip(1) =~= state.queue.skip(count as int));
    }
}

/// A directory is escaped part by part.
pub proof fn law_escape_parts(front: Seq<char>, back: Seq<char>)
    ensures
        escaped(front + back) == escaped(front) + escaped(back),
    decreases back.len(),
{
    if back.len() == 0 {
        assert(front + back =~= front);
        assert(escaped(front) + escaped(back) =~= escaped(front));
    } else {
        law_escape_parts(front, back.drop_last());
        assert((front + back).drop_last() =~= front + back.drop_last());
        assert((front + back).last() == back.last());
        assert(escaped(front) + (escaped(back.drop_last()) + escaped_char(back.last())) =~= (escaped(
            front,
        ) + escaped(back.drop_last())) + escaped_char(back.last()));
    }
}

/// A character that means something in a pattern is put into brackets, and any other stands for
/// itself.
pub proof fn law_escape_char(c: char)
    ensures
        c == '?' || c == '*' || c == '[' || c == ']' ==> escaped(seq![c]) == seq!['[', c, ']'],
        c != '?' && c != '*' && c != '[' && c != ']' ==> escaped(seq![c]) == seq![c],
        escaped(Seq::empty()) == Seq::<char>::empty(),
{
    let one = seq![c];
    assert(one.drop_last() =~= Seq::<char>::empty());
    assert(escaped(one.drop_last()) =~= Seq::<char>::empty());
    assert(escaped(one) =~= escaped_char(c));
}

/// The patterns that are listed for a directory are those of the YAML, TOML and JSON files at any
/// depth below that very directory, one after the other, whatever each of them matches.
pub proof fn law_dir_patterns<P, G>(
    dir: Seq<char>,
    yml: Seq<Result<P, G>>,
    yaml: Seq<Result<P, G>>,
    toml: Seq<Result<P, G>>,
    json: Seq<Result<P, G>>,
)
    ensures
        ({
            let first = PolicyDirModel::<P>::start(dir);
            let second = first.after_listing(yml);
            let third = second.after_listing(yaml);
            let fourth = third.after_listing(toml);
            let last = fourth.after_listing(json);
            &&& first.listed == 0
            &&& second.listed == 1
            &&& third.listed == 2
            &&& fourth.listed == 3
            &&& last.listed == PATTERN_COUNT
            &&& first.pattern() == escaped(dir) + "/**/*.yml"@
            &&& second.pattern() == escaped(dir) + "/**/*.yaml"@
            &&& third.pattern() == escaped(dir) + "/**/*.toml"@
            &&& fourth.pattern() == escaped(dir) + "/**/*.json"@
        }),
{
}

/// The directory stays the one that was given, whatever is listed and tried.
pub proof fn law_dir_stays<P, G>(
    dir: Seq<char>,
    state: PolicyDirModel<P>,
    matches: Seq<Result<P, G>>,
)
    ensures
        PolicyDirModel::<P>::start(dir).dir == dir,
        PolicyDirModel::<P>::start(dir).queue.len() == 0,
        state.after_listing(matches).dir == state.dir,
        state.after_file().dir == state.dir,
        state.after_file().listed == state.listed,
{
}

/// Of the matches of a pattern, exactly the readable ones are kept, in order: those of a part of the
/// matches followed by those of the rest.
pub proof fn law_readable<P, G>(
    front: Seq<Result<P, G>>,
    path: P,
    error: G,
    back: Seq<Result<P, G>>,
)
    ensures
        readable(front + back) == readable(front) + readable(back),
        readable(seq![Ok::<P, G>(path)]) == seq![path],
        readable(seq![Err::<P, G>(error)]) == Seq::<P>::empty(),
        readable(Seq::<Result<P, G>>::empty()) == Seq::<P>::empty(),
{
    lemma_readable_concat(front, back);
    let good = seq![Ok::<P, G>(path)];
    let bad = seq![Err::<P, G>(error)];
    assert(good.drop_last() =~= Seq::<Result<P, G>>::empty());
    assert(bad.drop_last() =~= Seq::<Result<P, G>>::empty());
    assert(readable(good.drop_last()) =~= Seq::<P>::empty());
    assert(readable(good) =~= seq![path]);
}

/// The readable matches of a listing come after what was found before it.
pub proof fn law_listing_adds<P, G>(state: PolicyDirModel<P>, matches: Seq<Result<P, G>>)
    ensures
        state.after_listing(matches).queue == state.queue + readable(matches),
        state.queue.len() > 0 ==> state.queue == seq![state.queue[0]] + state.after_file().queue,
{
    if state.queue.len() > 0 {
        assert(state.queue =~= seq![state.queue[0]] + state.queue.skip(1));
    }
}

} // verus!
