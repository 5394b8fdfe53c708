//! Naming templates for temporary directories.
//!
//! The final segment of a target path may hold runs of filler characters.
//! Such a segment names no directory of its own: it says how a freshly made
//! directory is to be called, with random characters in place of the
//! longest run of fillers. This module reads a segment as such a pattern.

use crate::error::Error;
use crate::error::ErrorView;
use crate::platform::bytes_of;
use crate::platform::file_name;
use crate::platform::is_utf8;
use crate::platform::parent;
use crate::platform::path_file_name;
use crate::platform::path_is_taken;
use crate::platform::path_parent;
use vstd::prelude::*;
use vstd::slice::slice_subrange;
use vstd::slice::slice_to_vec;
use vstd::utf8::is_char_boundary;
use vstd::utf8::is_char_boundary_iff_not_is_continuation_byte;
use vstd::utf8::is_leading_byte_width_1;
use vstd::utf8::valid_utf8;
use vstd::utf8::valid_utf8_split;

verus! {

/// The filler character, the letter `X`: each one in the longest run of
/// fillers of a name stands for one random character.
pub const FILLER: u8 = 0x58;

/// How the name of a temporary directory is made up: `prefix`, then
/// `filler_length` random characters, then `suffix`.
#[derive(Debug, PartialEq, Eq)]
pub struct NamePattern {
    pub prefix: Vec<u8>,
    pub filler_length: usize,
    pub suffix: Vec<u8>,
}

/// The mathematical value of a [`NamePattern`].
pub struct NamePatternView {
    pub prefix: Seq<u8>,
    pub filler_length: nat,
    pub suffix: Seq<u8>,
}

impl View for NamePattern {
    type V = NamePatternView;

    open spec fn view(&self) -> NamePatternView {
        NamePatternView {
            prefix: self.prefix@,
            filler_length: self.filler_length as nat,
            suffix: self.suffix@,
        }
    }
}

/// The number of fillers at the start of `s`.
pub open spec fn filler_run(s: Seq<u8>) -> nat
    decreases s.len(),
{
    if s.len() == 0 || s[0] != FILLER {
        0
    } else {
        1 + filler_run(s.drop_first())
    }
}

/// The length of the longest run of fillers in `s`.
pub open spec fn longest_run(s: Seq<u8>) -> nat
    decreases s.len(),
{
    if s.len() == 0 {
        0
    } else if filler_run(s) >= longest_run(s.drop_first()) {
        filler_run(s)
    } else {
        longest_run(s.drop_first())
    }
}

/// The first place in `s` at which `n` fillers or more begin; the length of
/// `s` where there is no such place.
pub open spec fn first_run_of(s: Seq<u8>, n: nat) -> nat
    decreases s.len(),
{
    if s.len() == 0 || filler_run(s) >= n {
        0
    } else {
        1 + first_run_of(s.drop_first(), n)
    }
}

/// A run of `n` fillers.
pub open spec fn fillers(n: nat) -> Seq<u8> {
    Seq::new(n, |i: int| FILLER)
}

/// Whether `length` fillers stand in `name` from the place `start` on.
pub open spec fn filled(name: Seq<u8>, start: int, length: int) -> bool {
    &&& 0 <= start
    &&& 0 <= length
    &&& start + length <= name.len()
    &&& forall|i: int| start <= i < start + length ==> name[i] == FILLER
}

/// The pattern that a name stands for: its longest run of fillers, and of
/// several runs of that length the first, with what precedes the run and
/// what follows it. A name without a filler is its own prefix.
pub open spec fn pattern_of(name: Seq<u8>) -> NamePatternView {
    let length = longest_run(name);
    let start = if length == 0 {
        name.len()
    } else {
        first_run_of(name, length)
    };
    NamePatternView {
        prefix: name.take(start as int),
        filler_length: length,
        suffix: name.skip((start + length) as int),
    }
}

/// Whether `pattern` splits `name` at its longest run of fillers: the three
/// parts make up the name, nowhere in the name stand more fillers in a row
/// than the pattern has, no run of that length begins before the one of
/// the pattern, and a pattern without fillers has no suffix.
pub open spec fn splits(name: Seq<u8>, pattern: NamePatternView) -> bool {
    &&& name == pattern.prefix + fillers(pattern.filler_length) + pattern.suffix
    &&& forall|at: int, more: int| more > pattern.filler_length ==> !filled(name, at, more)
    &&& forall|at: int|
        0 <= at < pattern.prefix.len() && pattern.filler_length > 0 ==> !filled(
            name,
            at,
            pattern.filler_length as int,
        )
    &&& pattern.filler_length == 0 ==> pattern.suffix.len() == 0
}

/// `filler_run` is bounded by the length, counts fillers, and stops at a
/// byte that is no filler or at the end.
pub proof fn lemma_filler_run(s: Seq<u8>)
    ensures
        filler_run(s) <= s.len(),
        forall|i: int| 0 <= i < filler_run(s) ==> s[i] == FILLER,
        filler_run(s) < s.len() ==> s[filler_run(s) as int] != FILLER,
    decreases s.len(),
{
    if s.len() == 0 || s[0] != FILLER {
    } else {
        let rest = s.drop_first();
        lemma_filler_run(rest);
        assert forall|i: int| 0 <= i < filler_run(s) implies s[i] == FILLER by {
            if i > 0 {
                assert(s[i] == rest[i - 1]);
            }
        }
        if filler_run(s) < s.len() {
            assert(s[filler_run(s) as int] == rest[filler_run(rest) as int]);
        }
    }
}

/// Fillers that stand at the start of `s` are counted by `filler_run`.
proof fn lemma_filled_at_start(s: Seq<u8>, length: int)
    requires
        filled(s, 0, length),
    ensures
        length <= filler_run(s),
{
    lemma_filler_run(s);
}

/// Fillers stand in `s` from a place after the first on just when they
/// stand one place earlier in `s` without its first byte.
proof fn lemma_filled_shift(s: Seq<u8>, at: int, length: int)
    requires
        s.len() > 0,
        at > 0,
    ensures
        filled(s, at, length) <==> filled(s.drop_first(), at - 1, length),
{
    let rest = s.drop_first();
    if filled(s, at, length) {
        assert forall|i: int| at - 1 <= i < at - 1 + length implies rest[i] == FILLER by {
            assert(rest[i] == s[i + 1]);
        }
    }
    if filled(rest, at - 1, length) {
        assert forall|i: int| at <= i < at + length implies s[i] == FILLER by {
            assert(s[i] == rest[i - 1]);
        }
    }
}

/// No fillers stand in a row in `s` in a greater number than `longest_run`
/// gives.
pub proof fn lemma_longest_run(s: Seq<u8>, at: int, length: int)
    requires
        filled(s, at, length),
    ensures
        length <= longest_run(s),
    decreases s.len(),
{
    if s.len() > 0 {
        if at == 0 {
            lemma_filled_at_start(s, length);
        } else {
            lemma_filled_shift(s, at, length);
            lemma_longest_run(s.drop_first(), at - 1, length);
        }
    }
}

/// Where `s` has a run of `n` fillers or more, `first_run_of` gives the
/// first place at which `n` fillers stand.
pub proof fn lemma_first_run_of(s: Seq<u8>, n: nat)
    requires
        1 <= n <= longest_run(s),
    ensures
        filled(s, first_run_of(s, n) as int, n as int),
        forall|at: int| 0 <= at < first_run_of(s, n) ==> !filled(s, at, n as int),
    decreases s.len(),
{
    lemma_filler_run(s);
    if filler_run(s) >= n {
    } else {
        let rest = s.drop_first();
        lemma_first_run_of(rest, n);
        let place = first_run_of(s, n) as int;
        lemma_filled_shift(s, place, n as int);
        assert forall|at: int| 0 <= at < place implies !filled(s, at, n as int) by {
            if filled(s, at, n as int) {
                if at == 0 {
                    lemma_filled_at_start(s, n as int);
                } else {
                    lemma_filled_shift(s, at, n as int);
                }
            }
        }
    }
}

/// The pattern of a name splits that name.
pub proof fn lemma_pattern_splits(name: Seq<u8>)
    ensures
        splits(name, pattern_of(name)),
{
    let pattern = pattern_of(name);
    let length = longest_run(name) as int;
    assert forall|at: int, more: int| more > length implies !filled(name, at, more) by {
        if filled(name, at, more) {
            lemma_longest_run(name, at, more);
        }
    }
    if length > 0 {
        lemma_first_run_of(name, longest_run(name));
    }
    assert(name =~= pattern.prefix + fillers(pattern.filler_length) + pattern.suffix);
}

/// A name is split at its longest run of fillers in one way only.
pub proof fn lemma_split_is_unique(name: Seq<u8>, pattern: NamePatternView)
    requires
        splits(name, pattern),
    ensures
        pattern == pattern_of(name),
{
    let start = pattern.prefix.len() as int;
    let length = pattern.filler_length as int;
    let whole = pattern.prefix + fillers(pattern.filler_length) + pattern.suffix;
    assert(filled(name, start, length)) by {
        assert forall|i: int| start <= i < start + length implies name[i] == FILLER by {
            assert(whole[i] == fillers(pattern.filler_length)[i - start]);
        }
    }
    let longest = longest_run(name);
    lemma_longest_run(name, start, length);
    if longest > length {
        lemma_first_run_of(name, longest);
    }
    assert(longest == length);
    if length > 0 {
        lemma_first_run_of(name, longest);
        assert(first_run_of(name, longest) == start);
    }
    assert(pattern.prefix =~= pattern_of(name).prefix);
    assert(pattern.suffix =~= pattern_of(name).suffix);
}

/// Splits a name at its longest run of fillers, and of several runs of
/// that length at the first.
pub fn split_name(name: &[u8]) -> (pattern: NamePattern)
    ensures
        pattern@ == pattern_of(name@),
{
    let len: usize = name.len();
    let mut start: usize = 0;
    let mut length: usize = 0;
    let mut run: usize = 0;
    let mut i: usize = 0;
    while i < len
        invariant
            len == name@.len(),
            run <= i <= len,
            filled(name@, run as int, i - run),
            run == 0 || name@[run - 1] != FILLER,
            i - run <= length,
            filled(name@, start as int, length as int),
            start + length <= i,
            forall|at: int, more: int|
                more > length && at + more <= i ==> !filled(name@, at, more),
            forall|at: int| 0 <= at < start && length > 0 ==> !filled(name@, at, length as int),
        decreases len - i,
    {
        let ghost began = run;
        if name[i] == FILLER {
            if i + 1 - run > length {
                start = run;
                length = i + 1 - run;
            }
        } else {
            run = i + 1;
        }
        i += 1;
        proof {
            assert forall|at: int, more: int| more > length && at + more <= i implies !filled(
                name@,
                at,
                more,
            ) by {
                if filled(name@, at, more) && at + more == i && at < began {
                    assert(name@[began - 1] == FILLER);
                }
            }
        }
    }
    if length == 0 {
        start = len;
    }
    let prefix = slice_to_vec(slice_subrange(name, 0, start));
    let suffix = slice_to_vec(slice_subrange(name, start + length, len));
    let pattern = NamePattern { prefix, filler_length: length, suffix };
    proof {
        assert(name@ =~= pattern@.prefix + fillers(pattern@.filler_length) + pattern@.suffix);
        lemma_split_is_unique(name@, pattern@);
    }
    pattern
}

/// Where and under which name a temporary directory is to be made.
///
/// Without a `parent` the directory goes where the system keeps its
/// temporary files. A template whose `prefix` and `suffix` are empty and
/// whose `filler_length` is 0 gives no name at all, and leaves the naming
/// to whoever makes the directory. Any other template names the directory
/// in full: with a `filler_length` of 0 nothing of the name is random.
#[derive(Debug, PartialEq, Eq)]
pub struct Template {
    pub parent: Option<Vec<u8>>,
    pub prefix: Vec<u8>,
    pub filler_length: usize,
    pub suffix: Vec<u8>,
}

/// The mathematical value of a [`Template`].
pub struct TemplateView {
    pub parent: Option<Seq<u8>>,
    pub prefix: Seq<u8>,
    pub filler_length: nat,
    pub suffix: Seq<u8>,
}

impl View for Template {
    type V = TemplateView;

    open spec fn view(&self) -> TemplateView {
        TemplateView {
            parent: bytes_of(self.parent),
            prefix: self.prefix@,
            filler_length: self.filler_length as nat,
            suffix: self.suffix@,
        }
    }
}

impl TemplateView {
    /// Whether the template gives no name.
    pub open spec fn is_unnamed(self) -> bool {
        self.prefix.len() == 0 && self.filler_length == 0 && self.suffix.len() == 0
    }

    /// Whether `name` is a name that the template asks for: the prefix,
    /// then as many bytes as the template has fillers, then the suffix.
    pub open spec fn admits(self, name: Seq<u8>) -> bool {
        exists|random: Seq<u8>|
            random.len() == self.filler_length && name == self.prefix + random + self.suffix
    }

    /// What `admits` comes to, byte by byte.
    pub open spec fn matches_name(self, name: Seq<u8>) -> bool {
        &&& name.len() == self.prefix.len() + self.filler_length + self.suffix.len()
        &&& forall|i: int| 0 <= i < self.prefix.len() ==> name[i] == self.prefix[i]
        &&& forall|i: int|
            0 <= i < self.suffix.len() ==> name[self.prefix.len() + self.filler_length + i]
                == self.suffix[i]
    }
}

/// A name is one that a template asks for if and only if it has the length
/// of the template, begins with the prefix and ends with the suffix.
pub proof fn lemma_admits_is_matches_name(template: TemplateView, name: Seq<u8>)
    ensures
        template.admits(name) <==> template.matches_name(name),
{
    if template.admits(name) {
        let random = choose|random: Seq<u8>|
            random.len() == template.filler_length && name == template.prefix + random
                + template.suffix;
        assert(name == template.prefix + random + template.suffix);
        assert(template.matches_name(name));
    }
    if template.matches_name(name) {
        let start = template.prefix.len() as int;
        let random = name.subrange(start, start + template.filler_length);
        assert(name =~= template.prefix + random + template.suffix);
    }
}

/// A name with fillers is itself one of the names that its pattern asks
/// for: the fillers stand for themselves.
pub proof fn lemma_pattern_admits_its_name(name: Seq<u8>, parent: Option<Seq<u8>>)
    ensures
        ({
            let pattern = pattern_of(name);
            TemplateView {
                parent,
                prefix: pattern.prefix,
                filler_length: pattern.filler_length,
                suffix: pattern.suffix,
            }.admits(name)
        }),
{
    lemma_pattern_splits(name);
    let pattern = pattern_of(name);
    assert(fillers(pattern.filler_length).len() == pattern.filler_length);
}

/// An empty path stands for no path.
pub open spec fn squashed(path: Seq<u8>) -> Option<Seq<u8>> {
    if path.len() == 0 {
        None
    } else {
        Some(path)
    }
}

/// The mathematical value of the result of reading a template.
pub open spec fn resolution_of(result: Result<Template, Error>) -> Result<
    TemplateView,
    ErrorView,
> {
    match result {
        Ok(template) => Ok(template@),
        Err(error) => Err(error@),
    }
}

/// The template that a path stands for, given what the platform makes of
/// the path: whether it takes the bytes as a path at all, and the final
/// segment and the parent that it finds in them.
///
/// Bytes that the platform does not take are no template. A path without a
/// final segment is itself the parent, and gives no name. Otherwise the
/// final segment has to be valid text; its pattern names the directory, and
/// the parent is that of the path. An empty parent is none.
pub open spec fn template_of(
    path: Seq<u8>,
    taken: bool,
    name: Option<Seq<u8>>,
    parent: Option<Seq<u8>>,
) -> Result<TemplateView, ErrorView> {
    if !taken {
        Err(ErrorView::Utf8)
    } else {
        template_in(path, name, parent)
    }
}

/// The template that a path stands for, given the final segment and the
/// parent that were found in it.
pub open spec fn template_in(
    path: Seq<u8>,
    name: Option<Seq<u8>>,
    parent: Option<Seq<u8>>,
) -> Result<TemplateView, ErrorView> {
    match name {
        None => Ok(
            TemplateView {
                parent: squashed(path),
                prefix: Seq::empty(),
                filler_length: 0,
                suffix: Seq::empty(),
            },
        ),
        Some(name) => if valid_utf8(name) {
            let pattern = pattern_of(name);
            Ok(
                TemplateView {
                    parent: match parent {
                        Some(directory) => squashed(directory),
                        None => None,
                    },
                    prefix: pattern.prefix,
                    filler_length: pattern.filler_length,
                    suffix: pattern.suffix,
                },
            )
        } else {
            Err(ErrorView::Utf8Invalid(name))
        },
    }
}

/// Squashes an empty path to `None`.
pub fn squash_empty_path(path: &[u8]) -> (squashed_path: Option<&[u8]>)
    ensures
        match squashed_path {
            Some(kept) => squashed(path@) == Some(kept@) && kept@ == path@,
            None => squashed(path@) is None,
        },
{
    if path.len() > 0 {
        Some(path)
    } else {
        None
    }
}

/// An owned copy of a path, or `None` for an empty one.
fn squash_to_owned(path: &[u8]) -> (owned: Option<Vec<u8>>)
    ensures
        bytes_of(owned) == squashed(path@),
{
    match squash_empty_path(path) {
        Some(kept) => Some(slice_to_vec(kept)),
        None => None,
    }
}

impl Template {
    /// Whether the template gives no name.
    pub fn is_unnamed(&self) -> (unnamed: bool)
        ensures
            unnamed == self@.is_unnamed(),
    {
        self.prefix.len() == 0 && self.filler_length == 0 && self.suffix.len() == 0
    }

    /// Whether `name` is a name that the template asks for: the prefix,
    /// then as many bytes as the template has fillers, then the suffix.
    pub fn admits(&self, name: &[u8]) -> (admitted: bool)
        ensures
            admitted == self@.admits(name@),
    {
        proof {
            lemma_admits_is_matches_name(self@, name@);
        }
        let head: usize = self.prefix.len();
        let tail: usize = self.suffix.len();
        if name.len() < head || name.len() - head < tail || name.len() - head - tail
            != self.filler_length {
            return false;
        }
        let mut i: usize = 0;
        while i < head
            invariant
                i <= head,
                head == self.prefix@.len(),
                head <= name@.len(),
                forall|k: int| 0 <= k < i ==> name@[k] == self.prefix@[k],
            decreases head - i,
        {
            if name[i] != self.prefix[i] {
                return false;
            }
            i += 1;
        }
        let offset: usize = name.len() - tail;
        let mut j: usize = 0;
        while j < tail
            invariant
                j <= tail,
                tail == self.suffix@.len(),
                offset + tail == name@.len(),
                name@.len() <= usize::MAX,
                forall|k: int| 0 <= k < j ==> name@[offset + k] == self.suffix@[k],
            decreases tail - j,
        {
            if name[offset + j] != self.suffix[j] {
                return false;
            }
            j += 1;
        }
        true
    }

    /// Makes the template of `path` from the final segment and the parent
    /// that were found in it.
    pub fn assemble(path: &[u8], name: Option<Vec<u8>>, parent: Option<Vec<u8>>) -> (result:
        Result<Template, Error>)
        ensures
            resolution_of(result) == template_in(path@, bytes_of(name), bytes_of(parent)),
    {
        match name {
            None => Ok(
                Template {
                    parent: squash_to_owned(path),
                    prefix: Vec::new(),
                    filler_length: 0,
                    suffix: Vec::new(),
                },
            ),
            Some(name) => {
                if is_utf8(name.as_slice()) {
                    let pattern = split_name(name.as_slice());
                    let parent = match parent {
                        Some(directory) => squash_to_owned(directory.as_slice()),
                        None => None,
                    };
                    Ok(
                        Template {
                            parent,
                            prefix: pattern.prefix,
                            filler_length: pattern.filler_length,
                            suffix: pattern.suffix,
                        },
                    )
                } else {
                    Err(Error::Utf8Invalid(name))
                }
            },
        }
    }

    /// Reads `path` as a template.
    ///
    /// The platform says whether it takes the bytes as a path, and which
    /// final segment and which parent the path has; the rest follows from
    /// that as [`template_of`] says. Bytes that are UTF-8 are taken on
    /// every platform.
    pub fn resolve(path: &[u8]) -> (result: Result<Template, Error>)
        ensures
            resolution_of(result) == template_of(
                path@,
                path_is_taken(path@),
                path_file_name(path@),
                path_parent(path@),
            ),
            valid_utf8(path@) ==> path_is_taken(path@),
    {
        match file_name(path) {
            Err(_) => Err(Error::Utf8),
            Ok(None) => Template::assemble(path, None, None),
            Ok(Some(name)) => match parent(path) {
                Err(_) => Err(Error::Utf8),
                Ok(directory) => Template::assemble(path, Some(name), directory),
            },
        }
    }
}

/// In valid text, a character begins after every run of ASCII bytes at the
/// start.
proof fn lemma_boundary_after_ascii(text: Seq<u8>, n: int)
    requires
        valid_utf8(text),
        0 <= n <= text.len(),
        forall|i: int| 0 <= i < n ==> is_leading_byte_width_1(#[trigger] text[i]),
    ensures
        is_char_boundary(text, n),
    decreases n,
{
    if n > 0 {
        assert(is_leading_byte_width_1(text[0]));
        let rest = text.subrange(1, text.len() as int);
        assert forall|i: int| 0 <= i < n - 1 implies is_leading_byte_width_1(
            #[trigger] rest[i],
        ) by {
            assert(rest[i] == text[i + 1]);
        }
        lemma_boundary_after_ascii(rest, n - 1);
    }
}

/// The prefix and the suffix of a name that is valid text are valid text.
pub proof fn lemma_parts_of_text_are_text(name: Seq<u8>)
    requires
        valid_utf8(name),
    ensures
        valid_utf8(pattern_of(name).prefix),
        valid_utf8(pattern_of(name).suffix),
{
    let length = longest_run(name) as int;
    if length == 0 {
        assert(name.take(name.len() as int) =~= name);
    } else {
        lemma_first_run_of(name, longest_run(name));
        let start = first_run_of(name, longest_run(name)) as int;
        assert(name[start] == FILLER);
        is_char_boundary_iff_not_is_continuation_byte(name, start);
        valid_utf8_split(name, start);
        let tail = name.skip(start);
        assert forall|i: int| 0 <= i < length implies is_leading_byte_width_1(
            #[trigger] tail[i],
        ) by {
            assert(tail[i] == name[start + i]);
        }
        lemma_boundary_after_ascii(tail, length);
        valid_utf8_split(tail, length);
        assert(tail.subrange(length, tail.len() as int) =~= name.skip(start + length));
    }
}

/// A final segment that is no valid text makes no template, whatever path
/// it ends: the failure names the segment as it is, where the platform
/// takes the path.
pub proof fn lemma_name_that_is_no_text(path: Seq<u8>, name: Seq<u8>, parent: Option<Seq<u8>>)
    requires
        !valid_utf8(name),
    ensures
        template_of(path, true, Some(name), parent) == Err::<TemplateView, ErrorView>(
            ErrorView::Utf8Invalid(name),
        ),
{
}

/// Whatever a template takes from a final segment is valid text.
pub proof fn lemma_template_names_are_text(
    path: Seq<u8>,
    taken: bool,
    name: Option<Seq<u8>>,
    parent: Option<Seq<u8>>,
)
    ensures
        template_of(path, taken, name, parent) matches Ok(template) ==> valid_utf8(
            template.prefix,
        ) && valid_utf8(template.suffix),
{
    if let Some(segment) = name {
        if valid_utf8(segment) {
            lemma_parts_of_text_are_text(segment);
        }
    }
}

} // verus!
