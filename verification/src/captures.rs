//! The capture groups of one match.
//!
//! A capture set owns the text it was matched against and holds, for each
//! group of the pattern, the byte offsets of what the group matched. Groups
//! are handed out by index or by name as slices of that text.

use crate::engine::names_view;
use crate::engine::regex_captures;
use crate::engine::regex_group_names;
use crate::engine::regex_is_match;
use crate::engine::spans_within;
use crate::engine::Matcher;
use vstd::prelude::*;
use vstd::slice::slice_subrange;

verus! {

/// What a capture set holds, as contracts see it.
pub ghost struct CapturesView {
    /// The text that was matched against.
    pub text: Seq<u8>,
    /// For each group, where in `text` its match starts and ends.
    pub spans: Seq<Option<(usize, usize)>>,
    /// For each group, its name if it has one.
    pub names: Seq<Option<Seq<char>>>,
}

/// The bytes of the group at `index`: `None` where there is no such group or
/// the group took no part in the match.
pub open spec fn group_of(captures: CapturesView, index: int) -> Option<Seq<u8>> {
    if 0 <= index < captures.spans.len() {
        match captures.spans[index] {
            Some(span) => Some(captures.text.subrange(span.0 as int, span.1 as int)),
            None => None,
        }
    } else {
        None
    }
}

/// Whether the group at `i` is called `name`.
pub open spec fn named_at(names: Seq<Option<Seq<char>>>, name: Seq<char>, i: int) -> bool {
    0 <= i < names.len() && names[i] == Some(name)
}

/// Whether `i` is the first group called `name`.
pub open spec fn first_named(names: Seq<Option<Seq<char>>>, name: Seq<char>, i: int) -> bool {
    named_at(names, name, i) && forall|j: int| 0 <= j < i ==> !named_at(names, name, j)
}

/// The index of the first group called `name`.
pub open spec fn index_of_name(names: Seq<Option<Seq<char>>>, name: Seq<char>) -> Option<int> {
    if exists|i: int| first_named(names, name, i) {
        Some(choose|i: int| first_named(names, name, i))
    } else {
        None
    }
}

/// The bytes of the group called `name`: `None` where no group has that name
/// or the group took no part in the match.
pub open spec fn named_group_of(captures: CapturesView, name: Seq<char>) -> Option<Seq<u8>> {
    match index_of_name(captures.names, name) {
        Some(i) => group_of(captures, i),
        None => None,
    }
}

/// A slice as plain bytes, through an `Option`.
pub open spec fn bytes_of(group: Option<&[u8]>) -> Option<Seq<u8>> {
    match group {
        Some(bytes) => Some(bytes@),
        None => None,
    }
}

/// The bytes of all `chunks`, one after the other.
pub open spec fn joined(chunks: Seq<&[u8]>) -> Seq<u8>
    decreases chunks.len(),
{
    if chunks.len() == 0 {
        Seq::empty()
    } else {
        joined(chunks.drop_last()) + chunks.last()@
    }
}

/// Joins `chunks` into one buffer.
pub fn coalesce(chunks: &[&[u8]]) -> (body: Vec<u8>)
    ensures
        body@ == joined(chunks@),
{
    let mut body: Vec<u8> = Vec::new();
    let mut i: usize = 0;
    while i < chunks.len()
        invariant
            i <= chunks.len(),
            body@ == joined(chunks@.take(i as int)),
        decreases chunks.len() - i,
    {
        body.extend_from_slice(chunks[i]);
        proof {
            assert(chunks@.take(i + 1).drop_last() =~= chunks@.take(i as int));
        }
        i = i + 1;
    }
    proof {
        assert(chunks@.take(i as int) =~= chunks@);
    }
    body
}

/// The capture groups of one match, with the text they point into.
#[derive(Debug)]
pub struct Captures {
    text: Vec<u8>,
    spans: Vec<Option<(usize, usize)>>,
    names: Vec<Option<String>>,
}

impl View for Captures {
    type V = CapturesView;

    closed spec fn view(&self) -> CapturesView {
        CapturesView { text: self.text@, spans: self.spans@, names: names_view(self.names@) }
    }
}

impl Captures {
    #[verifier::type_invariant]
    spec fn well_formed(self) -> bool {
        spans_within(self.spans@, self.text@.len())
    }

    /// A capture set over `text` with the given group offsets and names, or
    /// `None` where an offset pair is reversed or points outside `text`.
    pub fn from_parts(
        text: Vec<u8>,
        spans: Vec<Option<(usize, usize)>>,
        names: Vec<Option<String>>,
    ) -> (made: Option<Captures>)
        ensures
            made is Some == spans_within(spans@, text@.len()),
            made matches Some(captures) ==> captures@ == (CapturesView {
                text: text@,
                spans: spans@,
                names: names_view(names@),
            }),
    {
        let mut i: usize = 0;
        while i < spans.len()
            invariant
                i <= spans.len(),
                spans_within(spans@.take(i as int), text@.len()),
            decreases spans.len() - i,
        {
            match spans[i] {
                Some(span) => {
                    if span.0 > span.1 || span.1 > text.len() {
                        return None;
                    }
                },
                None => {},
            }
            proof {
                let upto = spans@.take(i + 1);
                assert forall|k: int| 0 <= k < upto.len() implies (#[trigger] upto[k] matches Some(
                    span,
                ) ==> span.0 <= span.1 <= text@.len()) by {
                    if k < i {
                        assert(upto[k] == spans@.take(i as int)[k]);
                    }
                }
            }
            i = i + 1;
        }
        proof {
            assert(spans@.take(i as int) =~= spans@);
        }
        Some(Captures { text, spans, names })
    }

    /// The capture groups of the leftmost match of `matcher` in `text`, or
    /// `None` where it does not match.
    pub fn of(matcher: &Matcher, text: Vec<u8>) -> (made: Option<Captures>)
        ensures
            made is Some == regex_is_match(matcher@, text@),
            made is Some == regex_captures(matcher@, text@) is Some,
            made matches Some(captures) ==> captures@ == (CapturesView {
                text: text@,
                spans: regex_captures(matcher@, text@)->0,
                names: regex_group_names(matcher@),
            }),
    {
        match matcher.captures(text.as_slice()) {
            Some(spans) => Captures::from_parts(text, spans, matcher.group_names()),
            None => None,
        }
    }

    /// The text that was matched against.
    pub fn text(&self) -> (text: &[u8])
        ensures
            text@ == self@.text,
    {
        self.text.as_slice()
    }

    /// The number of groups, the whole match counted as group 0.
    pub fn len(&self) -> (n: usize)
        ensures
            n == self@.spans.len(),
    {
        self.spans.len()
    }

    /// The bytes of the group at `index`; group 0 is the whole match.
    pub fn group(&self, index: usize) -> (group: Option<&[u8]>)
        ensures
            bytes_of(group) == group_of(self@, index as int),
            self@.spans.len() <= usize::MAX,
    {
        proof {
            use_type_invariant(self);
        }
        if index >= self.spans.len() {
            return None;
        }
        match self.spans[index] {
            Some(span) => Some(slice_subrange(self.text.as_slice(), span.0, span.1)),
            None => None,
        }
    }

    /// The bytes of the first group called `name`.
    pub fn named_group(&self, name: &str) -> (group: Option<&[u8]>)
        ensures
            bytes_of(group) == named_group_of(self@, name@),
    {
        let wanted = name.to_owned();
        let ghost names = names_view(self.names@);
        let mut i: usize = 0;
        while i < self.names.len()
            invariant
                i <= self.names.len(),
                wanted@ == name@,
                names == names_view(self.names@),
                forall|j: int| 0 <= j < i ==> !named_at(names, name@, j),
            decreases self.names.len() - i,
        {
            let is_it = match &self.names[i] {
                Some(candidate) => *candidate == wanted,
                None => false,
            };
            if is_it {
                proof {
                    assert(first_named(names, name@, i as int));
                    let first = choose|k: int| first_named(names, name@, k);
                    assert(first == i) by {
                        if first < i {
                            assert(!named_at(names, name@, first));
                        }
                    }
                }
                return self.group(i);
            }
            i = i + 1;
        }
        proof {
            assert forall|k: int| !first_named(names, name@, k) by {
                if named_at(names, name@, k) {
                    assert(k < i);
                }
            }
        }
        None
    }
}

} // verus!
