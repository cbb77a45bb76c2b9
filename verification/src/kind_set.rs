//! The kinds of device that the user wants to see.

use crate::kind::{lemma_code_round_trip, lemma_name_round_trip, DeviceKind, ParseError};
use crate::text::{chars_of, lemma_pieces_after_run, pieces, trim_range, trimmed};
use std::collections::BTreeSet;
use vstd::prelude::*;
use vstd::string::*;

verus! {

/// A set of device kinds, held by their codes.
#[derive(Clone, Debug)]
pub struct DeviceKindSet {
    codes: BTreeSet<u32>,
}

impl View for DeviceKindSet {
    type V = Set<DeviceKind>;

    closed spec fn view(&self) -> Set<DeviceKind> {
        Set::new(|kind: DeviceKind| self.codes@.contains(kind.spec_code()))
    }
}

/// The items of a list that is written with commas between them. The empty
/// text lists nothing; any other text with n commas lists n + 1 items.
pub open spec fn listed(input: Seq<char>) -> Seq<Seq<char>> {
    if input.len() == 0 {
        Seq::empty()
    } else {
        pieces(input, ',')
    }
}

/// The kind that a list item names, if it names one.
pub open spec fn item_kind(item: Seq<char>) -> Option<DeviceKind> {
    DeviceKind::named(DeviceKind::normalized(item))
}

/// Whether `at` is the place of the first item that names no kind.
pub open spec fn first_unknown_at(items: Seq<Seq<char>>, at: int) -> bool {
    &&& 0 <= at < items.len()
    &&& item_kind(items[at]) is None
    &&& forall|j: int| 0 <= j < at ==> item_kind(#[trigger] items[j]) is Some
}

/// Whether every item names a kind.
pub open spec fn all_known(items: Seq<Seq<char>>) -> bool {
    forall|i: int| 0 <= i < items.len() ==> item_kind(#[trigger] items[i]) is Some
}

/// The kinds that the items name.
pub open spec fn kinds_named(items: Seq<Seq<char>>) -> Set<DeviceKind> {
    Set::new(
        |kind: DeviceKind|
            exists|i: int| 0 <= i < items.len() && item_kind(#[trigger] items[i]) == Some(kind),
    )
}

/// What a list of kind names means: the set of the kinds it names, or, where
/// an item names no kind, the first such item without the white space around
/// it.
pub open spec fn parsed(input: Seq<char>) -> Result<Set<DeviceKind>, Seq<char>> {
    let items = listed(input);
    if all_known(items) {
        Ok(kinds_named(items))
    } else {
        Err(trimmed(items[choose|at: int| first_unknown_at(items, at)]))
    }
}

impl DeviceKindSet {
    /// Whether `kind` is in the set.
    pub fn contains(&self, kind: DeviceKind) -> (found: bool)
        ensures
            found == self@.contains(kind),
    {
        let code = kind.code();
        self.codes.contains(&code)
    }

    /// Reads a list of kind names, written with commas between them. White
    /// space around a name does not count, nor does the case of its ASCII
    /// letters; a kind may be named more than once. The empty text names no
    /// kind and gives the empty set. Reading stops at the first name that
    /// is no kind's.
    pub fn from_str(s: &str) -> (result: Result<DeviceKindSet, ParseError>)
        ensures
            match result {
                Ok(set) => parsed(s@) == Ok::<Set<DeviceKind>, Seq<char>>(set@),
                Err(ParseError::UnknownKindName { token }) => parsed(s@) == Err::<
                    Set<DeviceKind>,
                    Seq<char>,
                >(token@),
            },
    {
        let chars = chars_of(s);
        let n = chars.len();
        let mut codes: BTreeSet<u32> = BTreeSet::new();
        if n == 0 {
            let set = DeviceKindSet { codes };
            assert(set@ =~= kinds_named(listed(s@)));
            return Ok(set);
        }
        let ghost items = listed(s@);
        let ghost mut done: Seq<Seq<char>> = Seq::empty();
        let mut start: usize = 0;
        let mut i: usize = 0;
        proof {
            assert(s@.skip(0) == s@);
        }
        loop
            invariant
                chars@ == s@,
                n == chars.len(),
                n > 0,
                items == pieces(s@, ','),
                start <= i <= n,
                forall|j: int| start <= j < i ==> s@[j] != ',',
                items == done + pieces(s@.skip(start as int), ','),
                all_known(done),
                forall|kind: DeviceKind|
                    codes@.contains(kind.spec_code()) <==> kinds_named(done).contains(kind),
            decreases n - i,
        {
            if i == n || chars[i] == ',' {
                let ghost item = s@.subrange(start as int, i as int);
                let ghost rest = s@.skip(i as int);
                proof {
                    let from = s@.skip(start as int);
                    lemma_pieces_after_run(from, ',', i - start);
                    assert(from.skip(i - start) == rest);
                    if i < n {
                        assert(rest.drop_first() == s@.skip(i + 1));
                    }
                    assert(items[done.len() as int] == item);
                }
                let (a, b) = trim_range(&chars, start, i);
                match DeviceKind::lookup(&chars, a, b) {
                    None => {
                        let token = String::from_str(s.substring_char(a, b));
                        proof {
                            assert(first_unknown_at(items, done.len() as int));
                        }
                        return Err(ParseError::UnknownKindName { token });
                    },
                    Some(kind) => {
                        codes.insert(kind.code());
                        proof {
                            lemma_kinds_named_push(done, item);
                            assert forall|other: DeviceKind|
                                codes@.contains(other.spec_code()) <==> kinds_named(
                                    done.push(item),
                                ).contains(other) by {
                                lemma_code_round_trip(other);
                                lemma_code_round_trip(kind);
                            }
                            done = done.push(item);
                        }
                    },
                }
                if i == n {
                    proof {
                        assert(items == done);
                    }
                    let set = DeviceKindSet { codes };
                    assert(set@ =~= kinds_named(items));
                    return Ok(set);
                }
                start = i + 1;
            }
            i += 1;
        }
    }
}

/// The empty text means the empty set.
pub proof fn lemma_empty_list_names_nothing()
    ensures
        parsed(Seq::empty()) == Ok::<Set<DeviceKind>, Seq<char>>(Set::empty()),
{
    assert(kinds_named(Seq::empty()) =~= Set::<DeviceKind>::empty());
}

/// A list has a meaning exactly when each of its items, read without the
/// white space around it and in lower case, is the canonical name of a kind.
pub proof fn lemma_parsed_needs_names(input: Seq<char>)
    ensures
        parsed(input) is Ok <==> forall|i: int|
            0 <= i < listed(input).len() ==> DeviceKind::is_name(
                DeviceKind::normalized(#[trigger] listed(input)[i]),
            ),
{
}

/// Where every listed name is a kind's, the set that the list means holds
/// `kind` exactly when one of the items, read without the white space around
/// it and in lower case, is the canonical name of `kind`.
pub proof fn lemma_parsed_holds_the_named(input: Seq<char>, kind: DeviceKind)
    requires
        parsed(input) is Ok,
    ensures
        parsed(input)->Ok_0.contains(kind) <==> exists|i: int|
            0 <= i < listed(input).len() && DeviceKind::normalized(#[trigger] listed(input)[i])
                == kind.spec_name(),
{
    let items = listed(input);
    if kinds_named(items).contains(kind) {
        let i = choose|i: int| 0 <= i < items.len() && item_kind(#[trigger] items[i]) == Some(kind);
        assert(DeviceKind::normalized(items[i]) == kind.spec_name());
    }
    lemma_name_round_trip(kind);
}

/// One more item adds the kind it names, if it names one.
pub proof fn lemma_kinds_named_push(items: Seq<Seq<char>>, item: Seq<char>)
    ensures
        kinds_named(items.push(item)) == match item_kind(item) {
            Some(kind) => kinds_named(items).insert(kind),
            None => kinds_named(items),
        },
        all_known(items) && item_kind(item) is Some ==> all_known(items.push(item)),
{
    let more = items.push(item);
    let expected = match item_kind(item) {
        Some(kind) => kinds_named(items).insert(kind),
        None => kinds_named(items),
    };
    assert forall|kind: DeviceKind| kinds_named(more).contains(kind) implies expected.contains(
        kind,
    ) by {
        let i = choose|i: int| 0 <= i < more.len() && item_kind(#[trigger] more[i]) == Some(kind);
        if i < items.len() {
            assert(more[i] == items[i]);
        }
    }
    assert forall|kind: DeviceKind| expected.contains(kind) implies kinds_named(more).contains(
        kind,
    ) by {
        if kinds_named(items).contains(kind) {
            let i = choose|i: int|
                0 <= i < items.len() && item_kind(#[trigger] items[i]) == Some(kind);
            assert(more[i] == items[i]);
        } else {
            assert(more[items.len() as int] == item);
        }
    }
}

} // verus!
