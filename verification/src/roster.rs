//! The roster: the names that a trigger line lists.
//!
//! A trigger is a line that starts with `ONLINE: `; what follows is the
//! roster, its names parted by a comma and a space.

use vstd::prelude::*;

verus! {

/// Whether a comma and a space stand at `i` in `s`.
pub open spec fn separator_at(s: Seq<char>, i: int) -> bool {
    0 <= i && i + 1 < s.len() && s[i] == ',' && s[i + 1] == ' '
}

/// The place of the first separator in `s`, or the length of `s` where it
/// holds none.
pub open spec fn first_separator(s: Seq<char>) -> int
    decreases s.len(),
{
    if s.len() == 0 {
        0
    } else if separator_at(s, 0) {
        0
    } else {
        1 + first_separator(s.drop_first())
    }
}

/// The names of the roster `s`: what stands before its first separator,
/// and then the names of what follows that separator. A roster without a
/// separator is one name, which may be empty.
pub open spec fn split_names(s: Seq<char>) -> Seq<Seq<char>>
    decreases s.len(),
{
    let i = first_separator(s);
    if 0 <= i && i + 2 <= s.len() {
        seq![s.take(i)] + split_names(s.skip(i + 2))
    } else {
        seq![s]
    }
}

/// Whether `content` is a trigger: whether it starts with `ONLINE: `.
pub open spec fn is_trigger(content: Seq<char>) -> bool {
    content.len() >= 8 && content.take(8) == seq!['O', 'N', 'L', 'I', 'N', 'E', ':', ' ']
}

/// The names that the trigger `content` lists.
pub open spec fn roster_names(content: Seq<char>) -> Seq<Seq<char>> {
    split_names(content.skip(8))
}

/// The first separator lies inside `s` or at its end; where it lies
/// inside, a separator stands there, and none stands before it.
pub proof fn lemma_first_separator(s: Seq<char>)
    ensures
        0 <= first_separator(s) <= s.len(),
        first_separator(s) < s.len() ==> separator_at(s, first_separator(s)),
        forall|j: int| 0 <= j < first_separator(s) ==> !separator_at(s, j),
    decreases s.len(),
{
    if s.len() == 0 {
    } else if separator_at(s, 0) {
    } else {
        let rest = s.drop_first();
        lemma_first_separator(rest);
        let k = first_separator(rest);
        assert forall|j: int| 0 <= j < 1 + k implies !separator_at(s, j) by {
            if j > 0 {
                assert(separator_at(rest, j - 1) == separator_at(s, j));
            }
        }
        if k < rest.len() {
            assert(separator_at(rest, k) == separator_at(s, k + 1));
        }
    }
}

/// Where no separator stands before `k` in `s`, and one stands at `k` or
/// `k` is the end of `s`, `k` is the place of the first separator.
pub proof fn lemma_first_separator_is(s: Seq<char>, k: int)
    requires
        0 <= k <= s.len(),
        forall|j: int| 0 <= j < k ==> !separator_at(s, j),
        k < s.len() ==> separator_at(s, k),
    ensures
        first_separator(s) == k,
{
    lemma_first_separator(s);
    let f = first_separator(s);
    if f < k {
        assert(separator_at(s, f));
    } else if f > k {
        assert(!separator_at(s, k));
    }
}

/// The characters of `s`.
fn characters(s: &str) -> (chars: Vec<char>)
    ensures
        chars@ == s@,
{
    let mut chars: Vec<char> = Vec::new();
    let mut rest = s.chars();
    for c in walk: rest
        invariant
            chars@ == walk.seq().take(walk.index()),
    {
        chars.push(c);
    }
    chars
}

/// The names of a roster, in their order.
pub fn split_roster(roster: &str) -> (names: Vec<String>)
    ensures
        names@.map_values(|name: String| name@) == split_names(roster@),
        names@.len() >= 1,
{
    let chars = characters(roster);
    let n: usize = chars.len();
    let mut names: Vec<String> = Vec::new();
    let mut start: usize = 0;
    let mut i: usize = 0;
    proof {
        assert(roster@.skip(0) =~= roster@);
        assert(names@.map_values(|name: String| name@) + split_names(roster@) =~= split_names(
            roster@,
        ));
    }
    while i < n
        invariant
            chars@ == roster@,
            n == chars@.len(),
            0 <= start <= i <= n,
            forall|j: int| 0 <= j < i - start ==> !separator_at(roster@.skip(start as int), j),
            split_names(roster@) == names@.map_values(|name: String| name@) + split_names(
                roster@.skip(start as int),
            ),
        decreases n - i,
    {
        let ghost tail = roster@.skip(start as int);
        if chars[i] == ',' && i + 1 < n && chars[i + 1] == ' ' {
            let name = roster.substring_char(start, i).to_owned();
            proof {
                assert(separator_at(tail, i - start));
                lemma_first_separator_is(tail, i - start);
                assert(tail.take(i - start) =~= roster@.subrange(start as int, i as int));
                assert(tail.skip(i - start + 2) =~= roster@.skip(i + 2));
                assert(names@.push(name).map_values(|name: String| name@)
                    =~= names@.map_values(|name: String| name@) + seq![name@]);
            }
            names.push(name);
            i = i + 2;
            start = i;
        } else {
            proof {
                assert(!separator_at(tail, i - start));
            }
            i = i + 1;
        }
    }
    let name = roster.substring_char(start, n).to_owned();
    proof {
        let tail = roster@.skip(start as int);
        lemma_first_separator_is(tail, tail.len() as int);
        assert(name@ =~= tail);
        assert(names@.push(name).map_values(|name: String| name@) =~= names@.map_values(
            |name: String| name@,
        ) + seq![name@]);
    }
    names.push(name);
    names
}

/// The names that `content` lists where it is a trigger, and nothing
/// where it is not.
pub fn roster(content: &str) -> (names: Option<Vec<String>>)
    ensures
        match names {
            Some(names) => is_trigger(content@) && names@.map_values(|name: String| name@)
                == roster_names(content@),
            None => !is_trigger(content@),
        },
{
    let n: usize = content.unicode_len();
    if n < 8 {
        return None;
    }
    let head = content.substring_char(0, 8).to_owned();
    let mark = String::from_str("ONLINE: ");
    proof {
        reveal_strlit("ONLINE: ");
        assert(mark@ =~= seq!['O', 'N', 'L', 'I', 'N', 'E', ':', ' ']);
        assert(content@.take(8) =~= content@.subrange(0, 8));
    }
    if head != mark {
        return None;
    }
    let rest = content.substring_char(8, n);
    proof {
        assert(rest@ =~= content@.skip(8));
    }
    Some(split_roster(rest))
}

} // verus!
