//! Names that occur twice in a list.

use vstd::prelude::*;

verus! {

/// The first offset below `upto` at which `name` stands in `names`.
pub open spec fn index_of_name(names: Seq<Seq<char>>, name: Seq<char>, upto: int) -> Option<int>
    decreases upto,
{
    if upto <= 0 {
        None
    } else {
        match index_of_name(names, name, upto - 1) {
            Some(i) => Some(i),
            None => if names[upto - 1] == name {
                Some(upto - 1)
            } else {
                None
            },
        }
    }
}

/// The first name from `from` on that stands in the list before, with the
/// offset of its first occurrence: the pair of the earlier and the later
/// offset.
pub open spec fn first_duplicate(names: Seq<Seq<char>>, from: int) -> Option<(int, int)>
    decreases names.len() - from,
{
    if from < 0 || from >= names.len() {
        None
    } else {
        match index_of_name(names, names[from], from) {
            Some(i) => Some((i, from)),
            None => first_duplicate(names, from + 1),
        }
    }
}

/// Whether no name stands twice in the list.
pub open spec fn all_distinct(names: Seq<Seq<char>>) -> bool {
    forall|i: int, j: int| 0 <= i < j < names.len() ==> names[i] != names[j]
}

/// What `index_of_name` finds is the first occurrence of the name below
/// `upto`, and it finds one where there is one.
pub proof fn lemma_index_of_name(names: Seq<Seq<char>>, name: Seq<char>, upto: int)
    requires
        0 <= upto <= names.len(),
    ensures
        match index_of_name(names, name, upto) {
            Some(i) => 0 <= i < upto && names[i] == name && forall|k: int|
                0 <= k < i ==> names[k] != name,
            None => forall|k: int| 0 <= k < upto ==> names[k] != name,
        },
    decreases upto,
{
    if upto > 0 {
        lemma_index_of_name(names, name, upto - 1);
    }
}

/// What `first_duplicate` finds is a name that stands twice: the later
/// offset is the first at which any name is repeated, and the earlier one is
/// the first occurrence of that name. It finds nothing exactly where no name
/// from `from` on repeats an earlier one.
pub proof fn lemma_first_duplicate(names: Seq<Seq<char>>, from: int)
    requires
        0 <= from <= names.len(),
    ensures
        match first_duplicate(names, from) {
            Some((i, j)) => {
                &&& 0 <= i < j < names.len()
                &&& from <= j
                &&& names[i] == names[j]
                &&& forall|k: int| 0 <= k < i ==> names[k] != names[j]
                &&& forall|a: int, b: int| 0 <= a < b && from <= b < j ==> names[a] != names[b]
            },
            None => forall|a: int, b: int| 0 <= a < b < names.len() && from <= b ==> names[a]
                != names[b],
        },
    decreases names.len() - from,
{
    if from < names.len() {
        lemma_index_of_name(names, names[from], from);
        lemma_first_duplicate(names, from + 1);
    }
}

/// No name is found twice exactly where all names are distinct.
pub proof fn lemma_no_duplicate_is_distinct(names: Seq<Seq<char>>)
    ensures
        first_duplicate(names, 0) is None <==> all_distinct(names),
{
    lemma_first_duplicate(names, 0);
}

/// The offset of the first string before `upto` that equals the string at
/// `upto`.
pub fn find_earlier(names: &Vec<String>, upto: usize) -> (r: Option<usize>)
    requires
        upto < names@.len(),
    ensures
        match r {
            Some(i) => index_of_name(name_views(names@), names@[upto as int]@, upto as int) == Some(
                i as int,
            ) && i < upto,
            None => index_of_name(name_views(names@), names@[upto as int]@, upto as int) is None,
        },
{
    let ghost all = name_views(names@);
    let ghost name = names@[upto as int]@;
    let mut k: usize = 0;
    while k < upto
        invariant
            k <= upto < names@.len(),
            all == name_views(names@),
            name == names@[upto as int]@,
            index_of_name(all, name, k as int) is None,
        decreases upto - k,
    {
        if names[k] == names[upto] {
            proof {
                lemma_found_stays(all, name, k as int + 1, upto as int);
            }
            return Some(k);
        }
        k += 1;
    }
    None
}

/// Once a name is found below an offset, the same occurrence is found below
/// every later offset.
pub proof fn lemma_found_stays(names: Seq<Seq<char>>, name: Seq<char>, upto: int, later: int)
    requires
        upto <= later,
        index_of_name(names, name, upto) is Some,
    ensures
        index_of_name(names, name, later) == index_of_name(names, name, upto),
    decreases later - upto,
{
    if upto < later {
        lemma_found_stays(names, name, upto, later - 1);
    }
}

/// The names of a list of strings.
pub open spec fn name_views(names: Seq<String>) -> Seq<Seq<char>> {
    Seq::new(names.len(), |i: int| names[i]@)
}

/// The first pair of equal strings in the list, by the order of the later
/// one: the offsets of the earlier and of the later string.
pub fn find_duplicate(names: &Vec<String>) -> (r: Option<(usize, usize)>)
    ensures
        match r {
            Some((i, j)) => first_duplicate(name_views(names@), 0) == Some((i as int, j as int))
                && i < j < names@.len(),
            None => first_duplicate(name_views(names@), 0) is None,
        },
{
    let ghost all = name_views(names@);
    let mut j: usize = 0;
    while j < names.len()
        invariant
            j <= names@.len(),
            all == name_views(names@),
            first_duplicate(all, 0) == first_duplicate(all, j as int),
        decreases names@.len() - j,
    {
        match find_earlier(names, j) {
            Some(i) => {
                return Some((i, j));
            },
            None => {},
        }
        j += 1;
    }
    None
}

} // verus!
