//! Joining and spacing of text, over `Seq<char>` in contracts and `String` in code.

use vstd::prelude::*;
use vstd::string::StringExecFns;

verus! {

/// A run of `count` blanks.
pub open spec fn spaces(count: nat) -> Seq<char> {
    Seq::new(count, |i: int| ' ')
}

/// The parts laid end to end.
pub open spec fn concatenated(parts: Seq<Seq<char>>) -> Seq<char>
    decreases parts.len(),
{
    if parts.len() == 0 {
        Seq::empty()
    } else {
        concatenated(parts.drop_last()) + parts.last()
    }
}

/// The parts with `sep` between each two neighbours.
pub open spec fn joined(parts: Seq<Seq<char>>, sep: Seq<char>) -> Seq<char>
    decreases parts.len(),
{
    if parts.len() == 0 {
        Seq::empty()
    } else if parts.len() == 1 {
        parts[0]
    } else {
        joined(parts.drop_last(), sep) + sep + parts.last()
    }
}

/// The items with `sep` inserted between each two neighbours, as a list.
pub open spec fn interspersed(items: Seq<Seq<char>>, sep: Seq<char>) -> Seq<Seq<char>>
    decreases items.len(),
{
    if items.len() <= 1 {
        items
    } else {
        interspersed(items.drop_last(), sep).push(sep).push(items.last())
    }
}

/// Laying an interspersed list end to end joins the items.
pub proof fn lemma_interspersed_joins(items: Seq<Seq<char>>, sep: Seq<char>)
    ensures
        concatenated(interspersed(items, sep)) == joined(items, sep),
    decreases items.len(),
{
    if items.len() == 0 {
    } else if items.len() == 1 {
        assert(items.drop_last().len() == 0);
        assert(concatenated(items.drop_last()) == Seq::<char>::empty());
        assert(concatenated(items) =~= items[0]);
    } else {
        lemma_interspersed_joins(items.drop_last(), sep);
        let head = interspersed(items.drop_last(), sep);
        let both = head.push(sep).push(items.last());
        assert(both.drop_last() == head.push(sep));
        assert(head.push(sep).drop_last() == head);
        assert(concatenated(head.push(sep)) == concatenated(head) + sep);
    }
}

/// A joined list begins with its first part and the separator.
pub proof fn lemma_joined_from_front(parts: Seq<Seq<char>>, sep: Seq<char>)
    requires
        parts.len() >= 2,
    ensures
        joined(parts, sep) == parts[0] + sep + joined(parts.drop_first(), sep),
    decreases parts.len(),
{
    let rest = parts.drop_first();
    if parts.len() == 2 {
        assert(parts.drop_last().len() == 1);
        assert(rest.len() == 1);
        assert(joined(parts.drop_last(), sep) == parts[0]);
        assert(joined(rest, sep) == parts[1]);
    } else {
        lemma_joined_from_front(parts.drop_last(), sep);
        assert(parts.drop_last().drop_first() == rest.drop_last());
        assert(rest.last() == parts.last());
        assert(joined(parts, sep) =~= parts[0] + sep + joined(rest, sep));
    }
}

/// Whether none of `parts` holds the character `c`.
pub open spec fn free_of(parts: Seq<Seq<char>>, c: char) -> bool {
    forall|i: int| 0 <= i < parts.len() ==> !(#[trigger] parts[i]).contains(c)
}

/// Parts that do not hold the separator can be read off the joined text: two
/// lists of such parts, neither empty, that join to the same text are the same
/// list.
pub proof fn lemma_joined_injective(a: Seq<Seq<char>>, b: Seq<Seq<char>>, c: char)
    requires
        a.len() > 0,
        b.len() > 0,
        free_of(a, c),
        free_of(b, c),
        joined(a, seq![c]) == joined(b, seq![c]),
    ensures
        a == b,
    decreases a.len() + b.len(),
{
    let sep = seq![c];
    let whole = joined(a, sep);
    if a.len() == 1 && b.len() == 1 {
        assert(a =~= b);
    } else if a.len() == 1 {
        lemma_joined_from_front(b, sep);
        assert(whole[b[0].len() as int] == c);
        assert(a[0].contains(c));
    } else if b.len() == 1 {
        lemma_joined_from_front(a, sep);
        assert(whole[a[0].len() as int] == c);
        assert(b[0].contains(c));
    } else {
        lemma_joined_from_front(a, sep);
        lemma_joined_from_front(b, sep);
        let rest_a = joined(a.drop_first(), sep);
        let rest_b = joined(b.drop_first(), sep);
        assert(whole == a[0] + sep + rest_a);
        assert(whole == b[0] + sep + rest_b);
        if a[0].len() < b[0].len() {
            assert(whole[a[0].len() as int] == c);
            assert(b[0][a[0].len() as int] == c);
            assert(b[0].contains(c));
        } else if b[0].len() < a[0].len() {
            assert(whole[b[0].len() as int] == c);
            assert(a[0][b[0].len() as int] == c);
            assert(a[0].contains(c));
        }
        assert(a[0] =~= whole.subrange(0, a[0].len() as int));
        assert(b[0] =~= whole.subrange(0, b[0].len() as int));
        assert(rest_a =~= whole.subrange(a[0].len() as int + 1, whole.len() as int));
        assert(rest_b =~= whole.subrange(b[0].len() as int + 1, whole.len() as int));
        assert forall|i: int| 0 <= i < a.drop_first().len() implies !(#[trigger] a.drop_first()[i]).contains(
            c,
        ) by {
            assert(a.drop_first()[i] == a[i + 1]);
        }
        assert forall|i: int| 0 <= i < b.drop_first().len() implies !(#[trigger] b.drop_first()[i]).contains(
            c,
        ) by {
            assert(b.drop_first()[i] == b[i + 1]);
        }
        lemma_joined_injective(a.drop_first(), b.drop_first(), c);
        assert(a =~= seq![a[0]] + a.drop_first());
        assert(b =~= seq![b[0]] + b.drop_first());
    }
}

/// Adds `count` blanks to `out`.
pub fn push_spaces(out: &mut String, count: usize)
    ensures
        final(out)@ == old(out)@ + spaces(count as nat),
{
    let mut done: usize = 0;
    while done < count
        invariant
            done <= count,
            out@ == old(out)@ + spaces(done as nat),
        decreases count - done,
    {
        proof {
            reveal_strlit(" ");
            assert(spaces((done + 1) as nat) =~= spaces(done as nat) + " "@);
        }
        out.append(" ");
        done += 1;
    }
}

/// Joins `parts` with `sep` between each two neighbours.
pub fn join(parts: &[String], sep: &str) -> (text: String)
    ensures
        text@ == joined(parts.deep_view(), sep@),
{
    let mut text = String::new();
    let mut i: usize = 0;
    while i < parts.len()
        invariant
            i <= parts.len(),
            text@ == joined(parts.deep_view().take(i as int), sep@),
        decreases parts.len() - i,
    {
        proof {
            let before = parts.deep_view().take(i as int);
            let after = parts.deep_view().take(i + 1);
            assert(after.drop_last() == before);
            assert(after.last() == parts[i as int]@);
            if i == 0 {
                assert(joined(after, sep@) =~= Seq::<char>::empty() + parts[i as int]@);
            }
        }
        if i > 0 {
            text.append(sep);
        }
        text.append(parts[i].as_str());
        i += 1;
    }
    proof {
        assert(parts.deep_view().take(parts.len() as int) == parts.deep_view());
    }
    text
}

/// Lays `parts` end to end.
pub fn concat(parts: &[String]) -> (text: String)
    ensures
        text@ == concatenated(parts.deep_view()),
{
    let mut text = String::new();
    let mut i: usize = 0;
    while i < parts.len()
        invariant
            i <= parts.len(),
            text@ == concatenated(parts.deep_view().take(i as int)),
        decreases parts.len() - i,
    {
        proof {
            let after = parts.deep_view().take(i + 1);
            assert(after.drop_last() == parts.deep_view().take(i as int));
            assert(after.last() == parts[i as int]@);
        }
        text.append(parts[i].as_str());
        i += 1;
    }
    proof {
        assert(parts.deep_view().take(parts.len() as int) == parts.deep_view());
    }
    text
}

/// `itertools::Itertools::intersperse`, collected: the items in their order with
/// a copy of `sep` between each two neighbours, and nothing before the first or
/// after the last.
#[verifier::external_body]
pub(crate) fn intersperse(items: Vec<String>, sep: String) -> (out: Vec<String>)
    ensures
        out.deep_view() == interspersed(items.deep_view(), sep@),
{
    itertools::Itertools::intersperse(items.into_iter(), sep).collect()
}

} // verus!
